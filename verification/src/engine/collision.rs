//! Collision of a piece with the playfield, and the moves that it bounds:
//! stepping sideways, dropping and locking.

use vstd::prelude::*;
use crate::engine::CurrentPiece;
use crate::piece::{cell, is_mask_of, lemma_mask_has_four_cells, occupied, Piece};
use crate::playfield::{
    in_bounds, is_grid, lemma_with_space, space_at, Grid, Playfield, Space,
};

verus! {

/// Whether a cell of a piece cannot be at `(row, col)`: the place is left or
/// right of the playfield, below it, or holds a block. Above the playfield
/// nothing is in the way.
pub open spec fn blocked(grid: Grid, row: int, col: int) -> bool {
    col < 1 || col > 10 || row < 1 || (row <= 40 && space_at(grid, row, col) == Space::Block)
}

/// Whether the `i`-th cell of a piece is blocked when the piece's bounding
/// box is anchored at `(row, col)`.
pub open spec fn cell_blocked(grid: Grid, piece: Piece, row: int, col: int, i: int) -> bool {
    blocked(
        grid,
        row + cell(piece.shape, piece.rotation, i).0,
        col + cell(piece.shape, piece.rotation, i).1,
    )
}

/// Whether a piece anchored at `(row, col)` collides with the playfield: one
/// of its four cells is blocked.
pub open spec fn collides_at(grid: Grid, piece: Piece, row: int, col: int) -> bool {
    ||| cell_blocked(grid, piece, row, col, 0)
    ||| cell_blocked(grid, piece, row, col, 1)
    ||| cell_blocked(grid, piece, row, col, 2)
    ||| cell_blocked(grid, piece, row, col, 3)
}

/// Whether a piece collides with the playfield where it is.
pub open spec fn collides(grid: Grid, piece: CurrentPiece) -> bool {
    collides_at(grid, piece.piece, piece.row as int, piece.col as int)
}

/// Whether the cell `(r, c)` of a piece's bounding box is occupied and
/// blocked when the box is anchored at `(row, col)`.
pub open spec fn box_cell_hits(grid: Grid, piece: Piece, row: int, col: int, r: int, c: int) -> bool {
    occupied(piece.shape, piece.rotation, r, c) && blocked(grid, row + r, col + c)
}

/// A piece that does not collide has its bounding box anchored within three
/// cells of the playfield's left and bottom edges and left of its right edge.
pub proof fn lemma_free_piece_is_near(grid: Grid, piece: Piece, row: int, col: int)
    requires
        !collides_at(grid, piece, row, col),
    ensures
        -2 <= col <= 10,
        -2 <= row,
{
    lemma_mask_has_four_cells(piece.shape, piece.rotation);
    let c0 = cell(piece.shape, piece.rotation, 0);
    assert(occupied(piece.shape, piece.rotation, c0.0, c0.1));
    assert(!cell_blocked(grid, piece, row, col, 0));
}

fn is_blocked(field: &Playfield, row: i16, col: i16) -> (b: bool)
    ensures
        b == blocked(field@, row as int, col as int),
{
    if col < 1 || col > 10 || row < 1 {
        true
    } else if row > 40 {
        false
    } else {
        field.get(row as u8, col as u8) == Space::Block
    }
}

/// Returns whether or not a piece would collide with the playfield if its
/// bounding box were anchored at `(row, col)`.
pub fn collides_with(field: &Playfield, piece: Piece, row: i16, col: i16) -> (b: bool)
    requires
        -1000 <= row <= 1000,
        -1000 <= col <= 1000,
    ensures
        b == collides_at(field@, piece, row as int, col as int),
{
    let bounding_box = piece.get_bounding_box();
    proof {
        lemma_mask_has_four_cells(piece.shape, piece.rotation);
    }
    let mut r: usize = 0;
    while r < 4
        invariant
            r <= 4,
            -1000 <= row <= 1000,
            -1000 <= col <= 1000,
            is_mask_of(bounding_box, piece.shape, piece.rotation),
            forall|rr: int, cc: int|
                0 <= rr < r && 0 <= cc < 4 ==> !#[trigger] box_cell_hits(
                    field@,
                    piece,
                    row as int,
                    col as int,
                    rr,
                    cc,
                ),
        decreases 4 - r,
    {
        let mut c: usize = 0;
        while c < 4
            invariant
                r < 4,
                c <= 4,
                -1000 <= row <= 1000,
                -1000 <= col <= 1000,
                is_mask_of(bounding_box, piece.shape, piece.rotation),
                forall|rr: int, cc: int|
                    0 <= rr < r && 0 <= cc < 4 ==> !#[trigger] box_cell_hits(
                        field@,
                        piece,
                        row as int,
                        col as int,
                        rr,
                        cc,
                    ),
                forall|cc: int|
                    0 <= cc < c ==> !#[trigger] box_cell_hits(
                        field@,
                        piece,
                        row as int,
                        col as int,
                        r as int,
                        cc,
                    ),
            decreases 4 - c,
        {
            // Collisions can only occur on blocks.
            if bounding_box[r][c] == Space::Block && is_blocked(
                field,
                row + r as i16,
                col + c as i16,
            ) {
                assert(box_cell_hits(field@, piece, row as int, col as int, r as int, c as int));
                return true;
            }
            c += 1;
        }
        r += 1;
    }
    proof {
        assert forall|i: int| 0 <= i < 4 implies !cell_blocked(
            field@,
            piece,
            row as int,
            col as int,
            i,
        ) by {
            let p = cell(piece.shape, piece.rotation, i);
            assert(occupied(piece.shape, piece.rotation, p.0, p.1));
            assert(!box_cell_hits(field@, piece, row as int, col as int, p.0, p.1));
        }
    }
    false
}

/// Returns whether or not there would be a collision between the playfield
/// and the specified piece.
pub fn has_collision_with_piece(field: &Playfield, piece: CurrentPiece) -> (b: bool)
    ensures
        b == collides(field@, piece),
{
    collides_with(field, piece.piece, piece.row as i16, piece.col as i16)
}

/// How many steps of `(drow, dcol)` a piece anchored at `(row, col)` can take,
/// up to `n`, before the next step would collide.
pub open spec fn free_steps(
    grid: Grid,
    piece: Piece,
    row: int,
    col: int,
    drow: int,
    dcol: int,
    n: nat,
) -> nat
    decreases n,
{
    if n == 0 || collides_at(grid, piece, row + drow, col + dcol) {
        0
    } else {
        1 + free_steps(grid, piece, row + drow, col + dcol, drow, dcol, (n - 1) as nat)
    }
}

/// Stepping stops exactly in front of the first step that collides: every
/// position passed on the way, the last one included, is free of collision,
/// and where fewer steps were taken than asked for, the next one collides.
pub proof fn lemma_free_steps_stop_at_first_collision(
    grid: Grid,
    piece: Piece,
    row: int,
    col: int,
    drow: int,
    dcol: int,
    n: nat,
)
    ensures
        free_steps(grid, piece, row, col, drow, dcol, n) <= n,
        forall|j: int|
            1 <= j <= free_steps(grid, piece, row, col, drow, dcol, n) ==> !#[trigger] collides_at(
                grid,
                piece,
                row + j * drow,
                col + j * dcol,
            ),
        free_steps(grid, piece, row, col, drow, dcol, n) < n ==> collides_at(
            grid,
            piece,
            row + (free_steps(grid, piece, row, col, drow, dcol, n) + 1) * drow,
            col + (free_steps(grid, piece, row, col, drow, dcol, n) + 1) * dcol,
        ),
    decreases n,
{
    let k = free_steps(grid, piece, row, col, drow, dcol, n);
    if n == 0 || collides_at(grid, piece, row + drow, col + dcol) {
        assert(k == 0);
        assert((k + 1) * drow == drow) by (nonlinear_arith)
            requires
                k == 0,
        ;
        assert((k + 1) * dcol == dcol) by (nonlinear_arith)
            requires
                k == 0,
        ;
    } else {
        let k1 = free_steps(grid, piece, row + drow, col + dcol, drow, dcol, (n - 1) as nat);
        lemma_free_steps_stop_at_first_collision(
            grid,
            piece,
            row + drow,
            col + dcol,
            drow,
            dcol,
            (n - 1) as nat,
        );
        assert(k == k1 + 1);
        assert forall|j: int| 1 <= j <= k implies !#[trigger] collides_at(
            grid,
            piece,
            row + j * drow,
            col + j * dcol,
        ) by {
            assert(row + j * drow == (row + drow) + (j - 1) * drow) by (nonlinear_arith);
            assert(col + j * dcol == (col + dcol) + (j - 1) * dcol) by (nonlinear_arith);
            if j > 1 {
                assert(!collides_at(
                    grid,
                    piece,
                    (row + drow) + (j - 1) * drow,
                    (col + dcol) + (j - 1) * dcol,
                ));
            }
        }
        if k < n {
            assert(row + (k + 1) * drow == (row + drow) + (k1 + 1) * drow) by (nonlinear_arith)
                requires
                    k == k1 + 1,
            ;
            assert(col + (k + 1) * dcol == (col + dcol) + (k1 + 1) * dcol) by (nonlinear_arith)
                requires
                    k == k1 + 1,
            ;
        }
    }
}

/// Steps a piece by `(drow, dcol)` up to `n` times, stopping in front of the
/// first step that collides. Returns the number of steps taken.
fn step_piece(field: &Playfield, piece: &mut CurrentPiece, drow: i16, dcol: i16, n: u8) -> (steps:
    u8)
    requires
        (drow == -1 && dcol == 0) || (drow == 0 && (dcol == 1 || dcol == -1)),
    ensures
        steps == free_steps(
            field@,
            old(piece).piece,
            old(piece).row as int,
            old(piece).col as int,
            drow as int,
            dcol as int,
            n as nat,
        ),
        *final(piece) == old(piece).shifted(steps * drow, steps * dcol),
        final(piece).row == old(piece).row + steps * drow,
        final(piece).col == old(piece).col + steps * dcol,
{
    let mut steps: u8 = 0;
    while steps < n
        invariant
            steps <= n,
            (drow == -1 && dcol == 0) || (drow == 0 && (dcol == 1 || dcol == -1)),
            piece.piece == old(piece).piece,
            piece.row == old(piece).row + steps * drow,
            piece.col == old(piece).col + steps * dcol,
            steps + free_steps(
                field@,
                piece.piece,
                piece.row as int,
                piece.col as int,
                drow as int,
                dcol as int,
                (n - steps) as nat,
            ) == free_steps(
                field@,
                old(piece).piece,
                old(piece).row as int,
                old(piece).col as int,
                drow as int,
                dcol as int,
                n as nat,
            ),
        decreases n - steps,
    {
        let row: i16 = piece.row as i16 + drow;
        let col: i16 = piece.col as i16 + dcol;
        if collides_with(field, piece.piece, row, col) {
            return steps;
        }
        proof {
            lemma_free_piece_is_near(field@, piece.piece, row as int, col as int);
        }
        piece.row = row as i8;
        piece.col = col as i8;
        steps += 1;
    }
    steps
}

/// The sign of a column offset as a step: -1, 0 or 1.
pub open spec fn direction(col_offset: int) -> int {
    if col_offset < 0 {
        -1
    } else if col_offset > 0 {
        1
    } else {
        0
    }
}

/// The magnitude of a column offset.
pub open spec fn magnitude(col_offset: int) -> nat {
    if col_offset < 0 {
        (-col_offset) as nat
    } else {
        col_offset as nat
    }
}

/// How many columns a piece moves when asked to move by `col_offset`.
pub open spec fn columns_moved(grid: Grid, piece: CurrentPiece, col_offset: int) -> nat {
    free_steps(
        grid,
        piece.piece,
        piece.row as int,
        piece.col as int,
        0,
        direction(col_offset),
        magnitude(col_offset),
    )
}

/// Where a piece is after being asked to move by `col_offset`.
pub open spec fn after_move(grid: Grid, piece: CurrentPiece, col_offset: int) -> CurrentPiece {
    piece.shifted(0, direction(col_offset) * columns_moved(grid, piece, col_offset))
}

/// How many rows a piece falls when dropped by up to `n_rows`.
pub open spec fn rows_dropped(grid: Grid, piece: CurrentPiece, n_rows: nat) -> nat {
    free_steps(grid, piece.piece, piece.row as int, piece.col as int, -1, 0, n_rows)
}

/// Where a piece is after being dropped by up to `n_rows`.
pub open spec fn after_drop(grid: Grid, piece: CurrentPiece, n_rows: nat) -> CurrentPiece {
    piece.shifted(-rows_dropped(grid, piece, n_rows), 0)
}

/// Moves a piece horizontally by up to the specified amount, one column at a
/// time, and keeps it in front of the first column where it would collide.
/// Returns the number of columns moved.
pub fn move_piece(field: &Playfield, piece: &mut CurrentPiece, col_offset: i8) -> (moved: u8)
    requires
        col_offset > i8::MIN,
    ensures
        moved == columns_moved(field@, *old(piece), col_offset as int),
        *final(piece) == after_move(field@, *old(piece), col_offset as int),
        final(piece).col == old(piece).col + direction(col_offset as int) * moved,
{
    if col_offset < 0 {
        step_piece(field, piece, 0, -1, (-col_offset) as u8)
    } else if col_offset > 0 {
        step_piece(field, piece, 0, 1, col_offset as u8)
    } else {
        0
    }
}

/// Drops a piece by up to the specified number of rows, or until the next
/// row down would collide. Returns the number of rows dropped.
pub fn drop_piece(field: &Playfield, piece: &mut CurrentPiece, n_rows: u8) -> (dropped: u8)
    ensures
        dropped == rows_dropped(field@, *old(piece), n_rows as nat),
        *final(piece) == after_drop(field@, *old(piece), n_rows as nat),
        final(piece).row == old(piece).row - dropped,
{
    step_piece(field, piece, -1, 0, n_rows)
}

/// Whether a piece rests on something: one row further down it would collide.
#[verifier::opaque]
pub open spec fn resting(grid: Grid, piece: CurrentPiece) -> bool {
    collides_at(grid, piece.piece, piece.row - 1, piece.col as int)
}

/// Returns whether or not a piece is in a position where it can be locked
/// into place.
pub fn is_in_lock_position(field: &Playfield, piece: CurrentPiece) -> (b: bool)
    ensures
        b == resting(field@, piece),
{
    proof {
        reveal(resting);
    }
    collides_with(field, piece.piece, piece.row as i16 - 1, piece.col as i16)
}

/// Whether all four cells of a piece lie on the playfield.
pub open spec fn fits(piece: CurrentPiece) -> bool {
    forall|i: int|
        0 <= i < 4 ==> in_bounds(
            piece.row + (#[trigger] cell(piece.piece.shape, piece.piece.rotation, i)).0,
            piece.col + cell(piece.piece.shape, piece.piece.rotation, i).1,
        )
}

/// Whether a piece occupies the cell `(row, col)` of the playfield.
pub open spec fn covers(piece: CurrentPiece, row: int, col: int) -> bool {
    occupied(piece.piece.shape, piece.piece.rotation, row - piece.row, col - piece.col)
}

/// The grid after a piece has been locked into it: the cells that the piece
/// occupies hold blocks, the others are as before.
pub open spec fn locked(grid: Grid, piece: CurrentPiece) -> Grid {
    Seq::new(
        40,
        |r: int|
            Seq::new(
                10,
                |c: int|
                    if covers(piece, r + 1, c + 1) {
                        Space::Block
                    } else {
                        grid[r][c]
                    },
            ),
    )
}

/// Returns whether or not all four cells of a piece lie on the playfield.
pub fn fits_in_playfield(piece: CurrentPiece) -> (b: bool)
    ensures
        b == fits(piece),
{
    let bounding_box = piece.get_bounding_box();
    proof {
        lemma_mask_has_four_cells(piece.piece.shape, piece.piece.rotation);
    }
    let mut r: usize = 0;
    while r < 4
        invariant
            r <= 4,
            is_mask_of(bounding_box, piece.piece.shape, piece.piece.rotation),
            forall|rr: int, cc: int|
                0 <= rr < r && 0 <= cc < 4 && #[trigger] occupied(
                    piece.piece.shape,
                    piece.piece.rotation,
                    rr,
                    cc,
                ) ==> in_bounds(piece.row + rr, piece.col + cc),
        decreases 4 - r,
    {
        let mut c: usize = 0;
        while c < 4
            invariant
                r < 4,
                c <= 4,
                is_mask_of(bounding_box, piece.piece.shape, piece.piece.rotation),
                forall|rr: int, cc: int|
                    0 <= rr < r && 0 <= cc < 4 && #[trigger] occupied(
                        piece.piece.shape,
                        piece.piece.rotation,
                        rr,
                        cc,
                    ) ==> in_bounds(piece.row + rr, piece.col + cc),
                forall|cc: int|
                    0 <= cc < c && #[trigger] occupied(
                        piece.piece.shape,
                        piece.piece.rotation,
                        r as int,
                        cc,
                    ) ==> in_bounds(piece.row + r, piece.col + cc),
            decreases 4 - c,
        {
            if bounding_box[r][c] == Space::Block {
                let row: i16 = piece.row as i16 + r as i16;
                let col: i16 = piece.col as i16 + c as i16;
                if row < 1 || row > 40 || col < 1 || col > 10 {
                    proof {
                        assert(occupied(piece.piece.shape, piece.piece.rotation, r as int, c as int));
                        let i = choose|i: int|
                            0 <= i < 4 && cell(piece.piece.shape, piece.piece.rotation, i) == (
                                r as int,
                                c as int,
                            );
                        assert(!in_bounds(
                            piece.row + cell(piece.piece.shape, piece.piece.rotation, i).0,
                            piece.col + cell(piece.piece.shape, piece.piece.rotation, i).1,
                        ));
                    }
                    return false;
                }
            }
            c += 1;
        }
        r += 1;
    }
    proof {
        assert forall|i: int| 0 <= i < 4 implies in_bounds(
            piece.row + (#[trigger] cell(piece.piece.shape, piece.piece.rotation, i)).0,
            piece.col + cell(piece.piece.shape, piece.piece.rotation, i).1,
        ) by {
            let p = cell(piece.piece.shape, piece.piece.rotation, i);
            assert(occupied(piece.piece.shape, piece.piece.rotation, p.0, p.1));
        }
    }
    true
}

/// Locks a piece into the playfield where it is: each of its cells becomes a
/// block.
pub fn lock_piece(field: &mut Playfield, piece: CurrentPiece)
    requires
        fits(piece),
    ensures
        final(field)@ == locked(old(field)@, piece),
{
    let bounding_box = piece.get_bounding_box();
    proof {
        lemma_mask_has_four_cells(piece.piece.shape, piece.piece.rotation);
        field.lemma_view_is_grid();
    }
    let ghost done = |rr: int, cc: int, r: int, c: int| rr < r || (rr == r && cc < c);
    let mut r: usize = 0;
    while r < 4
        invariant
            r <= 4,
            fits(piece),
            is_grid(field@),
            is_grid(old(field)@),
            is_mask_of(bounding_box, piece.piece.shape, piece.piece.rotation),
            forall|row: int, col: int|
                in_bounds(row, col) ==> #[trigger] space_at(field@, row, col) == (if covers(
                    piece,
                    row,
                    col,
                ) && row - piece.row < r {
                    Space::Block
                } else {
                    space_at(old(field)@, row, col)
                }),
        decreases 4 - r,
    {
        let mut c: usize = 0;
        while c < 4
            invariant
                r < 4,
                c <= 4,
                fits(piece),
                is_grid(field@),
                is_grid(old(field)@),
                is_mask_of(bounding_box, piece.piece.shape, piece.piece.rotation),
                forall|row: int, col: int|
                    in_bounds(row, col) ==> #[trigger] space_at(field@, row, col) == (if covers(
                        piece,
                        row,
                        col,
                    ) && (row - piece.row < r || (row - piece.row == r && col - piece.col < c)) {
                        Space::Block
                    } else {
                        space_at(old(field)@, row, col)
                    }),
            decreases 4 - c,
        {
            if bounding_box[r][c] == Space::Block {
                proof {
                    assert(occupied(piece.piece.shape, piece.piece.rotation, r as int, c as int));
                    let i = choose|i: int|
                        0 <= i < 4 && cell(piece.piece.shape, piece.piece.rotation, i) == (
                            r as int,
                            c as int,
                        );
                    assert(in_bounds(
                        piece.row + cell(piece.piece.shape, piece.piece.rotation, i).0,
                        piece.col + cell(piece.piece.shape, piece.piece.rotation, i).1,
                    ));
                }
                // Calculate position of space in playfield.
                let row: u8 = (piece.row as i16 + r as i16) as u8;
                let col: u8 = (piece.col as i16 + c as i16) as u8;
                proof {
                    lemma_with_space(field@, row as int, col as int, Space::Block);
                }
                field.set(row, col);
            }
            c += 1;
        }
        r += 1;
    }
    proof {
        assert forall|rr: int, cc: int| 0 <= rr < 40 && 0 <= cc < 10 implies field@[rr][cc]
            == locked(old(field)@, piece)[rr][cc] by {
            assert(space_at(field@, rr + 1, cc + 1) == field@[rr][cc]);
            if covers(piece, rr + 1, cc + 1) {
                assert(rr + 1 - piece.row < 4);
            }
        }
        assert(field@ =~~= locked(old(field)@, piece));
    }
}

} // verus!
