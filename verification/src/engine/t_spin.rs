//! Detection of T-spins: rotations of the `T` piece into a tight spot.
//!
//! The four cells diagonal to the centre of the `T` are its corners. `A` and
//! `B` are the two beside the stem of the `T`, `C` and `D` the two behind its
//! flat side; they turn with the piece.

use vstd::prelude::*;
use crate::engine::CurrentPiece;
use crate::piece::{quarter_turn, Rotation, Tetromino};
use crate::playfield::{in_bounds, space_at, Grid, Playfield, Space};

verus! {

/// What the engine remembers of the last rotation of the current piece.
#[derive(PartialEq, Eq, Clone, Copy, Debug, Structural)]
pub enum TSpinInternal {
    NoSpin,
    Regular,
    Mini,
    /// The rotation took the last wall kick. This stays through further
    /// rotations, whatever the corners then say.
    PointFive,
}

/// The kind of T-spin that a piece was locked with.
#[derive(Copy, Clone, PartialEq, Eq, Debug, Structural)]
pub enum TSpin {
    NoSpin,
    Regular,
    Mini,
}

impl TSpin {
    /// The kind of T-spin that observers are told for an internal marker.
    pub open spec fn of(t_spin_internal: TSpinInternal) -> TSpin {
        match t_spin_internal {
            TSpinInternal::NoSpin => TSpin::NoSpin,
            TSpinInternal::Regular | TSpinInternal::PointFive => TSpin::Regular,
            TSpinInternal::Mini => TSpin::Mini,
        }
    }
}

impl From<&TSpinInternal> for TSpin {
    fn from(t_spin_internal: &TSpinInternal) -> (t_spin: TSpin) {
        match t_spin_internal {
            TSpinInternal::NoSpin => TSpin::NoSpin,
            TSpinInternal::Regular | TSpinInternal::PointFive => TSpin::Regular,
            TSpinInternal::Mini => TSpin::Mini,
        }
    }
}

impl vstd::std_specs::convert::FromSpecImpl<&TSpinInternal> for TSpin {
    open spec fn obeys_from_spec() -> bool {
        true
    }

    open spec fn from_spec(t_spin_internal: &TSpinInternal) -> TSpin {
        TSpin::of(*t_spin_internal)
    }
}

/// The corners of the `T` in its spawn state, as `(row, col)` in the bounding
/// box: `A` (0) and `B` (1) above the flat side, `C` (2) and `D` (3) below.
pub open spec fn spawn_corner(which: int) -> (int, int) {
    if which == 0 {
        (3, 0)
    } else if which == 1 {
        (3, 2)
    } else if which == 2 {
        (1, 0)
    } else {
        (1, 2)
    }
}

/// A corner of the `T` in a rotation state: the spawn corner, turned with the
/// piece.
pub open spec fn corner(rotation: Rotation, which: int) -> (int, int) {
    let c0 = spawn_corner(which);
    match rotation {
        Rotation::Spawn => c0,
        Rotation::Clockwise => quarter_turn(Tetromino::T, c0),
        Rotation::OneEighty => quarter_turn(Tetromino::T, quarter_turn(Tetromino::T, c0)),
        Rotation::CounterClockwise => quarter_turn(
            Tetromino::T,
            quarter_turn(Tetromino::T, quarter_turn(Tetromino::T, c0)),
        ),
    }
}

/// Whether a place supports a spin: it is outside the playfield or holds a
/// block.
pub open spec fn supports(grid: Grid, row: int, col: int) -> bool {
    !in_bounds(row, col) || space_at(grid, row, col) == Space::Block
}

/// Whether a corner of a piece is supported.
pub open spec fn corner_supported(grid: Grid, piece: CurrentPiece, which: int) -> bool {
    supports(
        grid,
        piece.row + corner(piece.piece.rotation, which).0,
        piece.col + corner(piece.piece.rotation, which).1,
    )
}

/// What the corners of a piece say of a rotation that has just brought it
/// where it is.
pub open spec fn corner_test(grid: Grid, piece: CurrentPiece) -> TSpinInternal {
    let a = corner_supported(grid, piece, 0);
    let b = corner_supported(grid, piece, 1);
    let c = corner_supported(grid, piece, 2);
    let d = corner_supported(grid, piece, 3);
    if a && b && (c || d) {
        TSpinInternal::Regular
    } else if c && d && (a || b) {
        TSpinInternal::Mini
    } else {
        TSpinInternal::NoSpin
    }
}

/// The marker of a piece that has just been rotated to where it is, given
/// the marker it had: none for a shape other than `T`; a marker for the last
/// wall kick stays; otherwise the corners decide.
pub open spec fn detected(grid: Grid, piece: CurrentPiece, current: TSpinInternal) -> TSpinInternal {
    if piece.piece.shape != Tetromino::T {
        TSpinInternal::NoSpin
    } else if current == TSpinInternal::PointFive {
        TSpinInternal::PointFive
    } else {
        corner_test(grid, piece)
    }
}

/// The marker of a piece after a successful rotation that took the
/// candidate position `kick` (0 in place, 1 to 4 the wall kicks) and brought
/// it where it is.
pub open spec fn spin_after_rotation(
    grid: Grid,
    piece: CurrentPiece,
    current: TSpinInternal,
    kick: int,
) -> TSpinInternal {
    if piece.piece.shape == Tetromino::T && kick == 4 {
        TSpinInternal::PointFive
    } else {
        detected(grid, piece, current)
    }
}

/// The offsets of the corners `A`, `B`, `C` and `D` of the `T` in a rotation
/// state, as `(row, col)` in the bounding box.
pub fn corner_offsets(rotation: Rotation) -> (offsets: [(i8, i8); 4])
    ensures
        forall|which: int|
            0 <= which < 4 ==> (#[trigger] offsets[which].0 as int, offsets[which].1 as int)
                == corner(rotation, which),
{
    //  3  A # B -   C # A -   D - C -   B # D -
    //  2  # # # -   - # # -   # # # -   # # - -
    //  1  C - D -   D # B -   B # A -   A # C -
    //  0  - - - -   - - - -   - - - -   - - - -
    //     0 1 2 3   0 1 2 3   0 1 2 3   0 1 2 3
    match rotation {
        Rotation::Spawn => [(3, 0), (3, 2), (1, 0), (1, 2)],
        Rotation::Clockwise => [(3, 2), (1, 2), (3, 0), (1, 0)],
        Rotation::OneEighty => [(1, 2), (1, 0), (3, 2), (3, 0)],
        Rotation::CounterClockwise => [(1, 0), (3, 0), (1, 2), (3, 2)],
    }
}

fn is_occupied(field: &Playfield, piece: CurrentPiece, offset: (i8, i8)) -> (b: bool)
    requires
        0 <= offset.0 <= 3,
        0 <= offset.1 <= 3,
    ensures
        b == supports(field@, piece.row + offset.0, piece.col + offset.1),
{
    let row: i16 = piece.row as i16 + offset.0 as i16;
    let col: i16 = piece.col as i16 + offset.1 as i16;
    row < 1 || row > 40 || col < 1 || col > 10 || field.get(row as u8, col as u8) == Space::Block
}

/// Classifies the rotation that has just brought a piece where it is.
pub fn detect_t_spin(field: &Playfield, piece: CurrentPiece, current: TSpinInternal) -> (t_spin:
    TSpinInternal)
    ensures
        t_spin == detected(field@, piece, current),
{
    if piece.piece.shape != Tetromino::T {
        return TSpinInternal::NoSpin;
    }
    // Any further rotation after using the last wall kick is still
    // considered a T-spin.
    if current == TSpinInternal::PointFive {
        return TSpinInternal::PointFive;
    }
    let offsets = corner_offsets(piece.piece.rotation);
    assert((offsets[0].0 as int, offsets[0].1 as int) == corner(piece.piece.rotation, 0));
    assert((offsets[1].0 as int, offsets[1].1 as int) == corner(piece.piece.rotation, 1));
    assert((offsets[2].0 as int, offsets[2].1 as int) == corner(piece.piece.rotation, 2));
    assert((offsets[3].0 as int, offsets[3].1 as int) == corner(piece.piece.rotation, 3));
    let a = is_occupied(field, piece, offsets[0]);
    let b = is_occupied(field, piece, offsets[1]);
    let c = is_occupied(field, piece, offsets[2]);
    let d = is_occupied(field, piece, offsets[3]);

    if a && b && (c || d) {
        return TSpinInternal::Regular;
    }
    if c && d && (a || b) {
        return TSpinInternal::Mini;
    }
    TSpinInternal::NoSpin
}

} // verus!
