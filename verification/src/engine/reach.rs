//! How far the current piece can get from the playfield.
//!
//! Nothing collides above the playfield, but nothing carries a piece up
//! there either: only a wall kick raises a piece, by two rows at most, and a
//! piece that is above the playfield altogether finds room to turn without
//! one. So the current piece of an engine stays within a fixed distance of
//! the playfield, and its coordinates never run out of their range.

use vstd::prelude::*;
use crate::engine::collision::{
    after_drop, after_move, cell_blocked, collides, collides_at, columns_moved, direction,
    lemma_free_piece_is_near, lemma_free_steps_stop_at_first_collision, magnitude, rows_dropped,
};
use crate::engine::kick::{
    after_rotation, candidate_fits, candidate_offset, first_fit, kick_offsets, quarter_apart,
};
use crate::engine::CurrentPiece;
use crate::piece::{cell, lemma_mask_has_four_cells, occupied, Piece, Rotation, Tetromino};
use crate::playfield::Grid;

verus! {

/// Whether every cell of a shape in a rotation state lies between the left
/// and the right edge of the playfield when its bounding box is anchored at
/// the column `col`.
pub open spec fn between_walls(shape: Tetromino, rotation: Rotation, col: int) -> bool {
    &&& 1 <= col + cell(shape, rotation, 0).1 <= 10
    &&& 1 <= col + cell(shape, rotation, 1).1 <= 10
    &&& 1 <= col + cell(shape, rotation, 2).1 <= 10
    &&& 1 <= col + cell(shape, rotation, 3).1 <= 10
}

/// Whether every cell of a piece lies between the left and the right edge of
/// the playfield.
pub open spec fn within_walls(piece: CurrentPiece) -> bool {
    between_walls(piece.piece.shape, piece.piece.rotation, piece.col as int)
}

/// What holds of the current piece of an engine at all times: it is no
/// higher than two rows above the playfield, and where it is above the
/// playfield altogether it is between the walls.
#[verifier::opaque]
pub open spec fn piece_in_reach(piece: CurrentPiece) -> bool {
    piece.row <= 42 && (piece.row >= 41 ==> within_walls(piece))
}

/// A piece whose bounding box begins on the playfield or below it is in
/// reach; so is every piece that has just come into play.
pub proof fn lemma_low_piece_is_in_reach(piece: CurrentPiece)
    requires
        piece.row <= 40,
    ensures
        piece_in_reach(piece),
{
    reveal(piece_in_reach);
}

/// The row of a piece in reach leaves room in its range for any wall kick.
pub proof fn lemma_reach_leaves_room(piece: CurrentPiece)
    requires
        piece_in_reach(piece),
    ensures
        piece.row <= i8::MAX - 2,
{
    reveal(piece_in_reach);
}

/// A piece that does not collide lies between the walls.
pub proof fn lemma_free_piece_is_between_walls(grid: Grid, piece: Piece, row: int, col: int)
    requires
        !collides_at(grid, piece, row, col),
    ensures
        between_walls(piece.shape, piece.rotation, col),
{
    assert(!cell_blocked(grid, piece, row, col, 0));
    assert(!cell_blocked(grid, piece, row, col, 1));
    assert(!cell_blocked(grid, piece, row, col, 2));
    assert(!cell_blocked(grid, piece, row, col, 3));
}

/// Above the playfield a piece collides only with the walls.
pub proof fn lemma_above_only_walls_collide(grid: Grid, piece: Piece, row: int, col: int)
    requires
        row >= 41,
    ensures
        collides_at(grid, piece, row, col) == !between_walls(piece.shape, piece.rotation, col),
{
    lemma_mask_has_four_cells(piece.shape, piece.rotation);
    assert forall|i: int| 0 <= i < 4 implies (#[trigger] cell(piece.shape, piece.rotation, i)).0
        >= 0 by {
        let p = cell(piece.shape, piece.rotation, i);
        assert(occupied(piece.shape, piece.rotation, p.0, p.1));
    }
    assert(cell(piece.shape, piece.rotation, 0).0 >= 0);
    assert(cell(piece.shape, piece.rotation, 1).0 >= 0);
    assert(cell(piece.shape, piece.rotation, 2).0 >= 0);
    assert(cell(piece.shape, piece.rotation, 3).0 >= 0);
}

/// A shape that lies between the walls still does so after a quarter turn in
/// place, or after its first wall kick, or, for the shape `I`, after its
/// second; and these kicks keep the row.
#[verifier::spinoff_prover]
#[verifier::rlimit(60)]
pub proof fn lemma_level_kick_clears_walls(shape: Tetromino, from: Rotation, to: Rotation, col: int)
    requires
        quarter_apart(from, to),
        between_walls(shape, from, col),
    ensures
        kick_offsets(shape, from, to)[0].1 == 0,
        shape == Tetromino::I ==> kick_offsets(shape, from, to)[1].1 == 0,
        shape == Tetromino::O ==> between_walls(shape, to, col),
        between_walls(shape, to, col) || between_walls(
            shape,
            to,
            col + kick_offsets(shape, from, to)[0].0,
        ) || (shape == Tetromino::I && between_walls(
            shape,
            to,
            col + kick_offsets(shape, from, to)[1].0,
        )),
{
}

/// A move keeps the current piece in reach.
pub proof fn lemma_move_keeps_reach(grid: Grid, piece: CurrentPiece, col_offset: int)
    requires
        piece_in_reach(piece),
    ensures
        piece_in_reach(after_move(grid, piece, col_offset)),
        after_move(grid, piece, col_offset).row == piece.row,
        after_move(grid, piece, col_offset).col == piece.col + direction(col_offset)
            * columns_moved(grid, piece, col_offset),
        after_move(grid, piece, col_offset).piece == piece.piece,
{
    reveal(piece_in_reach);
    let moved = columns_moved(grid, piece, col_offset);
    let dir = direction(col_offset);
    lemma_free_steps_stop_at_first_collision(
        grid,
        piece.piece,
        piece.row as int,
        piece.col as int,
        0,
        dir,
        magnitude(col_offset),
    );
    if moved >= 1 {
        assert(!collides_at(grid, piece.piece, piece.row + moved * 0, piece.col + moved * dir));
        lemma_free_piece_is_near(grid, piece.piece, piece.row + moved * 0, piece.col + moved * dir);
        lemma_free_piece_is_between_walls(
            grid,
            piece.piece,
            piece.row + moved * 0,
            piece.col + moved * dir,
        );
        assert(dir * moved == moved * dir) by (nonlinear_arith);
    } else {
        assert(dir * moved == 0) by (nonlinear_arith)
            requires
                moved == 0,
        ;
    }
}

/// A drop keeps the current piece in reach.
pub proof fn lemma_drop_keeps_reach(grid: Grid, piece: CurrentPiece, n_rows: nat)
    requires
        piece_in_reach(piece),
    ensures
        piece_in_reach(after_drop(grid, piece, n_rows)),
        after_drop(grid, piece, n_rows).row == piece.row - rows_dropped(grid, piece, n_rows),
        after_drop(grid, piece, n_rows).col == piece.col,
        after_drop(grid, piece, n_rows).piece == piece.piece,
{
    reveal(piece_in_reach);
    let dropped = rows_dropped(grid, piece, n_rows);
    lemma_free_steps_stop_at_first_collision(
        grid,
        piece.piece,
        piece.row as int,
        piece.col as int,
        -1,
        0,
        n_rows,
    );
    if dropped >= 1 {
        assert(!collides_at(grid, piece.piece, piece.row + dropped * (-1), piece.col + dropped * 0));
        lemma_free_piece_is_near(
            grid,
            piece.piece,
            piece.row + dropped * (-1),
            piece.col + dropped * 0,
        );
    }
}

/// A piece that does not collide does not collide after a drop either,
/// however far it was asked to drop.
pub proof fn lemma_drop_never_collides(grid: Grid, piece: CurrentPiece, n_rows: nat)
    requires
        !collides(grid, piece),
    ensures
        !collides(grid, after_drop(grid, piece, n_rows)),
        rows_dropped(grid, piece, n_rows) < n_rows ==> collides_at(
            grid,
            piece.piece,
            after_drop(grid, piece, n_rows).row - 1,
            piece.col as int,
        ),
{
    let dropped = rows_dropped(grid, piece, n_rows);
    lemma_free_steps_stop_at_first_collision(
        grid,
        piece.piece,
        piece.row as int,
        piece.col as int,
        -1,
        0,
        n_rows,
    );
    lemma_free_piece_is_near(grid, piece.piece, piece.row as int, piece.col as int);
    if dropped >= 1 {
        assert(!collides_at(grid, piece.piece, piece.row + dropped * (-1), piece.col + dropped * 0));
        lemma_free_piece_is_near(
            grid,
            piece.piece,
            piece.row + dropped * (-1),
            piece.col + dropped * 0,
        );
    }
    if dropped < n_rows {
        assert(collides_at(
            grid,
            piece.piece,
            piece.row + (dropped + 1) * (-1),
            piece.col + (dropped + 1) * 0,
        ));
    }
}

/// A piece that does not collide does not collide after a move either,
/// however far it was asked to move.
pub proof fn lemma_move_never_collides(grid: Grid, piece: CurrentPiece, col_offset: int)
    requires
        !collides(grid, piece),
    ensures
        !collides(grid, after_move(grid, piece, col_offset)),
{
    let moved = columns_moved(grid, piece, col_offset);
    let dir = direction(col_offset);
    lemma_free_steps_stop_at_first_collision(
        grid,
        piece.piece,
        piece.row as int,
        piece.col as int,
        0,
        dir,
        magnitude(col_offset),
    );
    lemma_free_piece_is_near(grid, piece.piece, piece.row as int, piece.col as int);
    if moved >= 1 {
        assert(!collides_at(grid, piece.piece, piece.row + moved * 0, piece.col + moved * dir));
        lemma_free_piece_is_near(grid, piece.piece, piece.row + moved * 0, piece.col + moved * dir);
        assert(dir * moved == moved * dir) by (nonlinear_arith);
    } else {
        assert(dir * moved == 0) by (nonlinear_arith)
            requires
                moved == 0,
        ;
    }
}

/// A rotation keeps the current piece in reach.
pub proof fn lemma_rotation_keeps_reach(grid: Grid, piece: CurrentPiece, to: Rotation)
    requires
        piece_in_reach(piece),
        quarter_apart(piece.piece.rotation, to),
    ensures
        piece_in_reach(after_rotation(grid, piece, to)),
        first_fit(grid, piece, to) matches Some(n) ==> {
            let offset = candidate_offset(piece.piece.shape, piece.piece.rotation, to, n);
            &&& after_rotation(grid, piece, to).row == piece.row + offset.1
            &&& after_rotation(grid, piece, to).col == piece.col + offset.0
            &&& after_rotation(grid, piece, to).piece == (Piece {
                shape: piece.piece.shape,
                rotation: to,
            })
            &&& !collides_at(
                grid,
                Piece { shape: piece.piece.shape, rotation: to },
                piece.row + offset.1,
                piece.col + offset.0,
            )
        },
        first_fit(grid, piece, to).is_none() ==> after_rotation(grid, piece, to) == piece,
{
    reveal(piece_in_reach);
    let shape = piece.piece.shape;
    let from = piece.piece.rotation;
    let turned = Piece { shape, rotation: to };
    crate::engine::kick::lemma_kicks_are_short(shape, from, to);
    match first_fit(grid, piece, to) {
        Some(n) => {
            let offset = candidate_offset(shape, from, to, n);
            assert(candidate_fits(grid, piece, to, n));
            lemma_free_piece_is_near(grid, turned, piece.row + offset.1, piece.col + offset.0);
            lemma_free_piece_is_between_walls(
                grid,
                turned,
                piece.row + offset.1,
                piece.col + offset.0,
            );
            if n >= 1 {
                assert(offset == kick_offsets(shape, from, to)[n - 1]);
            }
            if piece.row >= 41 {
                // Above the playfield the piece turns in place or by a kick
                // that keeps the row.
                lemma_level_kick_clears_walls(shape, from, to, piece.col as int);
                let kicks = kick_offsets(shape, from, to);
                lemma_above_only_walls_collide(grid, turned, piece.row as int, piece.col as int);
                lemma_above_only_walls_collide(
                    grid,
                    turned,
                    piece.row as int,
                    piece.col + kicks[0].0,
                );
                lemma_above_only_walls_collide(
                    grid,
                    turned,
                    piece.row as int,
                    piece.col + kicks[1].0,
                );
                assert(offset.1 == 0);
            }
        },
        None => {},
    }
}

} // verus!
