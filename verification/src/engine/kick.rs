//! Rotation with wall kicks.
//!
//! A rotation is first tried in place. Where that collides, an ordered list
//! of four offsets is tried, chosen by the shape and by the rotation states
//! turned from and to; the first one under which the turned piece does not
//! collide is taken. The square never kicks: it turns in place or not at all.

use vstd::prelude::*;
use crate::engine::collision::{collides_at, collides_with, lemma_free_piece_is_near};
use crate::engine::CurrentPiece;
use crate::piece::{Piece, Rotation, Tetromino};
use crate::playfield::{Grid, Playfield};

verus! {

/// Whether two rotation states are a quarter turn apart.
pub open spec fn quarter_apart(from: Rotation, to: Rotation) -> bool {
    to == from.cw() || to == from.ccw()
}

/// The wall kicks of the shapes `T`, `S`, `Z`, `J` and `L`, as `(column, row)`
/// offsets in the order in which they are tried.
pub open spec fn shared_kicks(from: Rotation, to: Rotation) -> Seq<(int, int)> {
    match (from, to) {
        (Rotation::Spawn, Rotation::Clockwise) => seq![(-1, 0), (-1, 1), (0, -2), (-1, -2)],
        (Rotation::Clockwise, Rotation::Spawn) => seq![(1, 0), (1, -1), (0, 2), (1, 2)],
        (Rotation::Clockwise, Rotation::OneEighty) => seq![(1, 0), (1, -1), (0, 2), (1, 2)],
        (Rotation::OneEighty, Rotation::Clockwise) => seq![(-1, 0), (-1, 1), (0, -2), (-1, -2)],
        (Rotation::OneEighty, Rotation::CounterClockwise) => seq![(1, 0), (1, 1), (0, -2), (1, -2)],
        (Rotation::CounterClockwise, Rotation::OneEighty) => seq![
            (-1, 0),
            (-1, -1),
            (0, 2),
            (-1, 2),
        ],
        (Rotation::CounterClockwise, Rotation::Spawn) => seq![(-1, 0), (-1, -1), (0, 2), (-1, 2)],
        (Rotation::Spawn, Rotation::CounterClockwise) => seq![(1, 0), (1, 1), (0, -2), (1, -2)],
        _ => seq![(0, 0), (0, 0), (0, 0), (0, 0)],
    }
}

/// The wall kicks of the shape `I`, as `(column, row)` offsets in the order
/// in which they are tried.
pub open spec fn i_kicks(from: Rotation, to: Rotation) -> Seq<(int, int)> {
    match (from, to) {
        (Rotation::Spawn, Rotation::Clockwise) => seq![(-2, 0), (1, 0), (-2, -1), (1, 2)],
        (Rotation::Clockwise, Rotation::Spawn) => seq![(2, 0), (-1, 0), (2, 1), (-1, -2)],
        (Rotation::Clockwise, Rotation::OneEighty) => seq![(-1, 0), (2, 0), (-1, 2), (2, -1)],
        (Rotation::OneEighty, Rotation::Clockwise) => seq![(1, 0), (-2, 0), (1, -2), (-2, 1)],
        (Rotation::OneEighty, Rotation::CounterClockwise) => seq![(2, 0), (-1, 0), (2, 1), (-1, -2)],
        (Rotation::CounterClockwise, Rotation::OneEighty) => seq![
            (-2, 0),
            (1, 0),
            (-2, -1),
            (1, 2),
        ],
        (Rotation::CounterClockwise, Rotation::Spawn) => seq![(1, 0), (-2, 0), (1, -2), (-2, 1)],
        (Rotation::Spawn, Rotation::CounterClockwise) => seq![(-1, 0), (2, 0), (-1, 2), (2, -1)],
        _ => seq![(0, 0), (0, 0), (0, 0), (0, 0)],
    }
}

/// The four wall kicks of a shape other than the square for a quarter turn.
pub open spec fn kick_offsets(shape: Tetromino, from: Rotation, to: Rotation) -> Seq<(int, int)> {
    if shape == Tetromino::I {
        i_kicks(from, to)
    } else {
        shared_kicks(from, to)
    }
}

/// The `n`-th position tried by a rotation, as a `(column, row)` offset:
/// candidate 0 is the rotation in place, candidates 1 to 4 are the kicks.
pub open spec fn candidate_offset(shape: Tetromino, from: Rotation, to: Rotation, n: int) -> (
    int,
    int,
) {
    if n == 0 {
        (0, 0)
    } else {
        kick_offsets(shape, from, to)[n - 1]
    }
}

/// Whether a piece, turned to the rotation state `to` and moved by the `n`-th
/// candidate offset, does not collide.
pub open spec fn candidate_fits(grid: Grid, piece: CurrentPiece, to: Rotation, n: int) -> bool {
    let offset = candidate_offset(piece.piece.shape, piece.piece.rotation, to, n);
    !collides_at(
        grid,
        Piece { shape: piece.piece.shape, rotation: to },
        piece.row + offset.1,
        piece.col + offset.0,
    )
}

/// The first candidate of a rotation that fits, if any. The square has the
/// rotation in place for its only candidate.
pub open spec fn first_fit(grid: Grid, piece: CurrentPiece, to: Rotation) -> Option<int> {
    if candidate_fits(grid, piece, to, 0) {
        Some(0)
    } else if piece.piece.shape == Tetromino::O {
        None
    } else if candidate_fits(grid, piece, to, 1) {
        Some(1)
    } else if candidate_fits(grid, piece, to, 2) {
        Some(2)
    } else if candidate_fits(grid, piece, to, 3) {
        Some(3)
    } else if candidate_fits(grid, piece, to, 4) {
        Some(4)
    } else {
        None
    }
}

/// The `(column, row)` offset by which a rotation moves a piece, or `None`
/// where the rotation is not possible.
pub open spec fn rotation_offset(grid: Grid, piece: CurrentPiece, to: Rotation) -> Option<
    (int, int),
> {
    match first_fit(grid, piece, to) {
        Some(n) => Some(candidate_offset(piece.piece.shape, piece.piece.rotation, to, n)),
        None => None,
    }
}

/// Where a piece is after an attempt to turn it to the rotation state `to`:
/// turned and moved by the offset of the first candidate that fits, or
/// unchanged where none does.
pub open spec fn after_rotation(grid: Grid, piece: CurrentPiece, to: Rotation) -> CurrentPiece {
    match rotation_offset(grid, piece, to) {
        Some(offset) => piece.shifted(offset.1, offset.0).turned(to),
        None => piece,
    }
}

/// The wall kick offsets for a shape and a quarter turn, as `(column, row)`
/// pairs in the order in which they are tried.
pub fn wall_kick_offsets(shape: Tetromino, initial: Rotation, rotated: Rotation) -> (offsets: [(
    i8,
    i8,
); 4])
    requires
        shape != Tetromino::O,
        quarter_apart(initial, rotated),
    ensures
        forall|i: int|
            0 <= i < 4 ==> (#[trigger] offsets[i].0 as int, offsets[i].1 as int) == kick_offsets(
                shape,
                initial,
                rotated,
            )[i],
{
    match shape {
        // I has separate different wall kick rules.
        Tetromino::I => match (initial, rotated) {
            (Rotation::Spawn, Rotation::Clockwise) => [(-2, 0), (1, 0), (-2, -1), (1, 2)],
            (Rotation::Clockwise, Rotation::Spawn) => [(2, 0), (-1, 0), (2, 1), (-1, -2)],
            (Rotation::Clockwise, Rotation::OneEighty) => [(-1, 0), (2, 0), (-1, 2), (2, -1)],
            (Rotation::OneEighty, Rotation::Clockwise) => [(1, 0), (-2, 0), (1, -2), (-2, 1)],
            (Rotation::OneEighty, Rotation::CounterClockwise) => [
                (2, 0),
                (-1, 0),
                (2, 1),
                (-1, -2),
            ],
            (Rotation::CounterClockwise, Rotation::OneEighty) => [
                (-2, 0),
                (1, 0),
                (-2, -1),
                (1, 2),
            ],
            (Rotation::CounterClockwise, Rotation::Spawn) => [(1, 0), (-2, 0), (1, -2), (-2, 1)],
            _ => [(-1, 0), (2, 0), (-1, 2), (2, -1)],
        },
        // All other pieces follow the same rules.
        _ => match (initial, rotated) {
            (Rotation::Spawn, Rotation::Clockwise) => [(-1, 0), (-1, 1), (0, -2), (-1, -2)],
            (Rotation::Clockwise, Rotation::Spawn) => [(1, 0), (1, -1), (0, 2), (1, 2)],
            (Rotation::Clockwise, Rotation::OneEighty) => [(1, 0), (1, -1), (0, 2), (1, 2)],
            (Rotation::OneEighty, Rotation::Clockwise) => [(-1, 0), (-1, 1), (0, -2), (-1, -2)],
            (Rotation::OneEighty, Rotation::CounterClockwise) => [(1, 0), (1, 1), (0, -2), (1, -2)],
            (Rotation::CounterClockwise, Rotation::OneEighty) => [
                (-1, 0),
                (-1, -1),
                (0, 2),
                (-1, 2),
            ],
            (Rotation::CounterClockwise, Rotation::Spawn) => [(-1, 0), (-1, -1), (0, 2), (-1, 2)],
            _ => [(1, 0), (1, 1), (0, -2), (1, -2)],
        },
    }
}

/// Finds the first candidate position at which a piece, turned to the
/// rotation state `rotated`, does not collide. Returns its index: 0 for the
/// rotation in place, 1 to 4 for the kicks.
pub fn find_rotation(field: &Playfield, piece: CurrentPiece, rotated: Rotation) -> (found: Option<
    u8,
>)
    requires
        quarter_apart(piece.piece.rotation, rotated),
    ensures
        match found {
            Some(n) => first_fit(field@, piece, rotated) == Some(n as int),
            None => first_fit(field@, piece, rotated).is_none(),
        },
{
    let turned = Piece { shape: piece.piece.shape, rotation: rotated };
    if !collides_with(field, turned, piece.row as i16, piece.col as i16) {
        return Some(0);
    }
    // The square looks the same however it is turned, and has no kicks.
    if piece.piece.shape == Tetromino::O {
        return None;
    }
    let offsets = wall_kick_offsets(piece.piece.shape, piece.piece.rotation, rotated);
    let mut n: usize = 0;
    while n < 4
        invariant
            n <= 4,
            turned == (Piece { shape: piece.piece.shape, rotation: rotated }),
            piece.piece.shape != Tetromino::O,
            forall|i: int|
                0 <= i < 4 ==> (#[trigger] offsets[i].0 as int, offsets[i].1 as int)
                    == kick_offsets(piece.piece.shape, piece.piece.rotation, rotated)[i],
            forall|k: int| 0 <= k <= n ==> !#[trigger] candidate_fits(field@, piece, rotated, k),
        decreases 4 - n,
    {
        let offset = offsets[n];
        let col: i16 = piece.col as i16 + offset.0 as i16;
        let row: i16 = piece.row as i16 + offset.1 as i16;
        assert((offsets[n as int].0 as int, offsets[n as int].1 as int) == kick_offsets(
            piece.piece.shape,
            piece.piece.rotation,
            rotated,
        )[n as int]);
        // Return if there was no collision.
        if !collides_with(field, turned, row, col) {
            assert(candidate_fits(field@, piece, rotated, n + 1));
            return Some((n + 1) as u8);
        }
        assert(!candidate_fits(field@, piece, rotated, n + 1));
        n += 1;
    }
    // Could not find a valid wall kick.
    None
}

/// Checks whether or not a piece can be turned to the rotation state
/// `rotated`, in place or by a wall kick. Returns the offset which resulted
/// in no collision as `(col_offset, row_offset)`, or `None` if the rotation
/// is not possible.
pub fn check_rotation(field: &Playfield, piece: CurrentPiece, rotated: Rotation) -> (offset: Option<
    (i8, i8),
>)
    requires
        quarter_apart(piece.piece.rotation, rotated),
    ensures
        match offset {
            Some(o) => rotation_offset(field@, piece, rotated) == Some((o.0 as int, o.1 as int)),
            None => rotation_offset(field@, piece, rotated).is_none(),
        },
{
    match find_rotation(field, piece, rotated) {
        Some(n) => {
            if n == 0 {
                Some((0, 0))
            } else {
                let offsets = wall_kick_offsets(piece.piece.shape, piece.piece.rotation, rotated);
                assert((offsets[n - 1].0 as int, offsets[n - 1].1 as int) == kick_offsets(
                    piece.piece.shape,
                    piece.piece.rotation,
                    rotated,
                )[n - 1]);
                Some(offsets[n as usize - 1])
            }
        },
        None => None,
    }
}

/// Turns a piece to the rotation state `rotated` and applies a wall kick, if
/// possible; otherwise leaves it as it is. Returns the index of the candidate
/// position taken: 0 for the rotation in place, 1 to 4 for the kicks.
pub fn rotate_piece(field: &Playfield, piece: &mut CurrentPiece, rotated: Rotation) -> (found:
    Option<u8>)
    requires
        quarter_apart(old(piece).piece.rotation, rotated),
        old(piece).row <= i8::MAX - 2,
    ensures
        *final(piece) == after_rotation(field@, *old(piece), rotated),
        match found {
            Some(n) => first_fit(field@, *old(piece), rotated) == Some(n as int),
            None => first_fit(field@, *old(piece), rotated).is_none(),
        },
{
    let found = find_rotation(field, *piece, rotated);
    match found {
        Some(n) => {
            let offset: (i8, i8) = if n == 0 {
                (0, 0)
            } else {
                let offsets = wall_kick_offsets(piece.piece.shape, piece.piece.rotation, rotated);
                assert((offsets[n - 1].0 as int, offsets[n - 1].1 as int) == kick_offsets(
                    piece.piece.shape,
                    piece.piece.rotation,
                    rotated,
                )[n - 1]);
                offsets[n as usize - 1]
            };
            let col: i16 = piece.col as i16 + offset.0 as i16;
            let row: i16 = piece.row as i16 + offset.1 as i16;
            proof {
                assert(candidate_fits(field@, *piece, rotated, n as int));
                lemma_free_piece_is_near(
                    field@,
                    Piece { shape: piece.piece.shape, rotation: rotated },
                    row as int,
                    col as int,
                );
                lemma_kicks_are_short(piece.piece.shape, piece.piece.rotation, rotated);
            }
            piece.col = col as i8;
            piece.row = row as i8;
            piece.piece.rotation = rotated;
        },
        None => {},
    }
    found
}

/// No wall kick moves a piece by more than two columns or two rows.
pub proof fn lemma_kicks_are_short(shape: Tetromino, from: Rotation, to: Rotation)
    ensures
        forall|i: int|
            0 <= i < 4 ==> -2 <= (#[trigger] kick_offsets(shape, from, to)[i]).0 <= 2 && -2
                <= kick_offsets(shape, from, to)[i].1 <= 2,
{
}

/// A rotation that collides in place and succeeds by its `n`-th wall kick
/// leaves the piece turned and moved by exactly that kick's offset.
pub proof fn lemma_kick_moves_by_its_offset(grid: Grid, piece: CurrentPiece, to: Rotation, n: int)
    requires
        1 <= n <= 4,
        first_fit(grid, piece, to) == Some(n),
    ensures
        collides_at(
            grid,
            Piece { shape: piece.piece.shape, rotation: to },
            piece.row as int,
            piece.col as int,
        ),
        rotation_offset(grid, piece, to) == Some(
            kick_offsets(piece.piece.shape, piece.piece.rotation, to)[n - 1],
        ),
        after_rotation(grid, piece, to) == piece.shifted(
            kick_offsets(piece.piece.shape, piece.piece.rotation, to)[n - 1].1,
            kick_offsets(piece.piece.shape, piece.piece.rotation, to)[n - 1].0,
        ).turned(to),
        forall|k: int| 0 <= k < n ==> !#[trigger] candidate_fits(grid, piece, to, k),
{
}

/// A rotation that collides in place and under every wall kick leaves the
/// piece as it was, rotation state and all; a rotation that succeeds leaves
/// it in the rotation state asked for, where it does not collide.
pub proof fn lemma_rotation_turns_or_leaves(grid: Grid, piece: CurrentPiece, to: Rotation)
    ensures
        first_fit(grid, piece, to).is_none() ==> after_rotation(grid, piece, to) == piece,
        first_fit(grid, piece, to).is_some() ==> after_rotation(grid, piece, to).piece.rotation
            == to && after_rotation(grid, piece, to).piece.shape == piece.piece.shape,
        first_fit(grid, piece, to).is_none() ==> forall|n: int|
            0 <= n <= 4 && (n == 0 || piece.piece.shape != Tetromino::O)
                ==> !#[trigger] candidate_fits(grid, piece, to, n),
{
}

/// The square never takes a wall kick: its rotation succeeds in place, with
/// the offset `(0, 0)`, exactly when the square does not collide where it is,
/// and fails otherwise.
pub proof fn lemma_square_never_kicks(grid: Grid, piece: CurrentPiece, to: Rotation)
    requires
        piece.piece.shape == Tetromino::O,
    ensures
        rotation_offset(grid, piece, to) == (if collides_at(
            grid,
            piece.piece,
            piece.row as int,
            piece.col as int,
        ) {
            None
        } else {
            Some((0int, 0int))
        }),
        after_rotation(grid, piece, to).row == piece.row,
        after_rotation(grid, piece, to).col == piece.col,
{
}

} // verus!
