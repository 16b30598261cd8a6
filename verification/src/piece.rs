//! The shape catalog: the seven tetrominoes and their rotation masks.
//!
//! A piece lives in a 4x4 bounding box whose row 0 is the bottom row, so that
//! a cell of the box at `(r, c)` lands on the playfield at the box's anchor
//! plus `(r, c)`. The masks follow the Super Rotation System: each rotation
//! state is the previous one turned a quarter clockwise about the centre of
//! the shape.

use vstd::prelude::*;
use crate::playfield::Space;

verus! {

/// A shape consisting of four connected squares.
#[derive(Debug, PartialEq, Eq, Hash, Copy, Clone, Structural)]
pub enum Tetromino {
    I,
    O,
    T,
    S,
    Z,
    J,
    L,
}

/// The rotation state of a tetromino.
#[derive(Debug, PartialEq, Eq, Clone, Copy, Structural)]
pub enum Rotation {
    /// The default rotation when a piece is spawned.
    Spawn,
    /// 90 degree clockwise rotation from spawn rotation.
    Clockwise,
    /// 180 degree rotation from spawn rotation.
    OneEighty,
    /// 90 degree counter-clockwise rotation from spawn rotation.
    CounterClockwise,
}

impl Rotation {
    /// The rotation state one quarter turn clockwise from this one.
    pub open spec fn spec_cw(&self) -> Rotation {
        match self {
            Rotation::Spawn => Rotation::Clockwise,
            Rotation::Clockwise => Rotation::OneEighty,
            Rotation::OneEighty => Rotation::CounterClockwise,
            Rotation::CounterClockwise => Rotation::Spawn,
        }
    }

    /// The rotation state one quarter turn counter-clockwise from this one.
    pub open spec fn spec_ccw(&self) -> Rotation {
        match self {
            Rotation::Spawn => Rotation::CounterClockwise,
            Rotation::Clockwise => Rotation::Spawn,
            Rotation::OneEighty => Rotation::Clockwise,
            Rotation::CounterClockwise => Rotation::OneEighty,
        }
    }

    /// How many quarter turns clockwise this state is from the spawn state.
    pub open spec fn quarter_turns(self) -> int {
        match self {
            Rotation::Spawn => 0,
            Rotation::Clockwise => 1,
            Rotation::OneEighty => 2,
            Rotation::CounterClockwise => 3,
        }
    }

    #[verifier::when_used_as_spec(spec_cw)]
    pub fn cw(&self) -> (rotated: Rotation)
        ensures
            rotated == self.spec_cw(),
            rotated.quarter_turns() == (self.quarter_turns() + 1) % 4,
    {
        match self {
            Rotation::Spawn => Rotation::Clockwise,
            Rotation::Clockwise => Rotation::OneEighty,
            Rotation::OneEighty => Rotation::CounterClockwise,
            Rotation::CounterClockwise => Rotation::Spawn,
        }
    }

    #[verifier::when_used_as_spec(spec_ccw)]
    pub fn ccw(&self) -> (rotated: Rotation)
        ensures
            rotated == self.spec_ccw(),
            rotated.quarter_turns() == (self.quarter_turns() + 3) % 4,
    {
        match self {
            Rotation::Spawn => Rotation::CounterClockwise,
            Rotation::Clockwise => Rotation::Spawn,
            Rotation::OneEighty => Rotation::Clockwise,
            Rotation::CounterClockwise => Rotation::OneEighty,
        }
    }
}

/// The `i`-th of the four cells, as `(row, col)` in the bounding box, that a
/// shape occupies in its spawn state.
pub open spec fn spawn_cell(shape: Tetromino, i: int) -> (int, int) {
    match shape {
        Tetromino::I => (2, i),
        Tetromino::O => if i < 2 {
            (2, i + 1)
        } else {
            (3, i - 1)
        },
        Tetromino::T => if i < 3 {
            (2, i)
        } else {
            (3, 1)
        },
        Tetromino::S => if i < 2 {
            (2, i)
        } else {
            (3, i - 1)
        },
        Tetromino::Z => if i < 2 {
            (2, i + 1)
        } else {
            (3, i - 2)
        },
        Tetromino::J => if i < 3 {
            (2, i)
        } else {
            (3, 0)
        },
        Tetromino::L => if i < 3 {
            (2, i)
        } else {
            (3, 2)
        },
    }
}

/// Where a cell of the bounding box goes when the shape is turned a quarter
/// clockwise about its centre: the centre of the whole box for `I`, the
/// centre of its four cells for `O`, and the middle cell of the flat side for
/// the other shapes.
pub open spec fn quarter_turn(shape: Tetromino, cell: (int, int)) -> (int, int) {
    match shape {
        Tetromino::I => (3 - cell.1, cell.0),
        Tetromino::O => (4 - cell.1, cell.0 - 1),
        _ => (3 - cell.1, cell.0 - 1),
    }
}

/// The `i`-th of the four cells that a shape occupies in a rotation state.
pub open spec fn cell(shape: Tetromino, rotation: Rotation, i: int) -> (int, int) {
    let c0 = spawn_cell(shape, i);
    match rotation {
        Rotation::Spawn => c0,
        Rotation::Clockwise => quarter_turn(shape, c0),
        Rotation::OneEighty => quarter_turn(shape, quarter_turn(shape, c0)),
        Rotation::CounterClockwise => quarter_turn(
            shape,
            quarter_turn(shape, quarter_turn(shape, c0)),
        ),
    }
}

/// Whether a shape in a rotation state occupies the cell `(r, c)` of its
/// bounding box.
pub open spec fn occupied(shape: Tetromino, rotation: Rotation, r: int, c: int) -> bool {
    ||| cell(shape, rotation, 0) == (r, c)
    ||| cell(shape, rotation, 1) == (r, c)
    ||| cell(shape, rotation, 2) == (r, c)
    ||| cell(shape, rotation, 3) == (r, c)
}

/// The cells of the bounding box that a shape occupies in a rotation state.
pub open spec fn occupied_cells(shape: Tetromino, rotation: Rotation) -> Set<(int, int)> {
    Set::new(|p: (int, int)| occupied(shape, rotation, p.0, p.1))
}

/// Whether a 4x4 array of spaces is the mask of a shape in a rotation state.
pub open spec fn is_mask_of(bounding_box: [[Space; 4]; 4], shape: Tetromino, rotation: Rotation) -> bool {
    forall|r: int, c: int|
        0 <= r < 4 && 0 <= c < 4 ==> (#[trigger] bounding_box[r][c] == Space::Block) == occupied(
            shape,
            rotation,
            r,
            c,
        )
}

#[derive(Debug, PartialEq, Eq, Clone, Copy, Structural)]
pub struct Piece {
    pub shape: Tetromino,
    pub rotation: Rotation,
}

impl Piece {
    /// This piece turned a quarter clockwise.
    pub open spec fn turned_cw(self) -> Piece {
        Piece { shape: self.shape, rotation: self.rotation.cw() }
    }

    /// This piece turned a quarter counter-clockwise.
    pub open spec fn turned_ccw(self) -> Piece {
        Piece { shape: self.shape, rotation: self.rotation.ccw() }
    }

    pub fn new(shape: Tetromino) -> (piece: Piece)
        ensures
            piece == (Piece { shape, rotation: Rotation::Spawn }),
    {
        Piece { shape: shape, rotation: Rotation::Spawn }
    }

    pub fn get_shape(&self) -> (shape: &Tetromino)
        ensures
            *shape == self.shape,
    {
        &self.shape
    }

    pub fn get_rotation(&self) -> (rotation: &Rotation)
        ensures
            *rotation == self.rotation,
    {
        &self.rotation
    }

    pub fn rotate_cw(&mut self)
        ensures
            *final(self) == old(self).turned_cw(),
    {
        self.rotation = self.rotation.cw();
    }

    pub fn rotate_ccw(&mut self)
        ensures
            *final(self) == old(self).turned_ccw(),
    {
        self.rotation = self.rotation.ccw();
    }

    /// The 4x4 mask of this piece; index 0 is the bottom row.
    pub fn get_bounding_box(&self) -> (bounding_box: [[Space; 4]; 4])
        ensures
            is_mask_of(bounding_box, self.shape, self.rotation),
    {
        let e = Space::Empty;
        let b = Space::Block;
        match self.shape {
            Tetromino::I => match self.rotation {
                Rotation::Spawn => [[e, e, e, e], [e, e, e, e], [b, b, b, b], [e, e, e, e]],
                Rotation::Clockwise => [[e, e, b, e], [e, e, b, e], [e, e, b, e], [e, e, b, e]],
                Rotation::OneEighty => [[e, e, e, e], [b, b, b, b], [e, e, e, e], [e, e, e, e]],
                Rotation::CounterClockwise => [
                    [e, b, e, e],
                    [e, b, e, e],
                    [e, b, e, e],
                    [e, b, e, e],
                ],
            },
            Tetromino::O => [[e, e, e, e], [e, e, e, e], [e, b, b, e], [e, b, b, e]],
            Tetromino::T => match self.rotation {
                Rotation::Spawn => [[e, e, e, e], [e, e, e, e], [b, b, b, e], [e, b, e, e]],
                Rotation::Clockwise => [[e, e, e, e], [e, b, e, e], [e, b, b, e], [e, b, e, e]],
                Rotation::OneEighty => [[e, e, e, e], [e, b, e, e], [b, b, b, e], [e, e, e, e]],
                Rotation::CounterClockwise => [
                    [e, e, e, e],
                    [e, b, e, e],
                    [b, b, e, e],
                    [e, b, e, e],
                ],
            },
            Tetromino::S => match self.rotation {
                Rotation::Spawn => [[e, e, e, e], [e, e, e, e], [b, b, e, e], [e, b, b, e]],
                Rotation::Clockwise => [[e, e, e, e], [e, e, b, e], [e, b, b, e], [e, b, e, e]],
                Rotation::OneEighty => [[e, e, e, e], [b, b, e, e], [e, b, b, e], [e, e, e, e]],
                Rotation::CounterClockwise => [
                    [e, e, e, e],
                    [e, b, e, e],
                    [b, b, e, e],
                    [b, e, e, e],
                ],
            },
            Tetromino::Z => match self.rotation {
                Rotation::Spawn => [[e, e, e, e], [e, e, e, e], [e, b, b, e], [b, b, e, e]],
                Rotation::Clockwise => [[e, e, e, e], [e, b, e, e], [e, b, b, e], [e, e, b, e]],
                Rotation::OneEighty => [[e, e, e, e], [e, b, b, e], [b, b, e, e], [e, e, e, e]],
                Rotation::CounterClockwise => [
                    [e, e, e, e],
                    [b, e, e, e],
                    [b, b, e, e],
                    [e, b, e, e],
                ],
            },
            Tetromino::J => match self.rotation {
                Rotation::Spawn => [[e, e, e, e], [e, e, e, e], [b, b, b, e], [b, e, e, e]],
                Rotation::Clockwise => [[e, e, e, e], [e, b, e, e], [e, b, e, e], [e, b, b, e]],
                Rotation::OneEighty => [[e, e, e, e], [e, e, b, e], [b, b, b, e], [e, e, e, e]],
                Rotation::CounterClockwise => [
                    [e, e, e, e],
                    [b, b, e, e],
                    [e, b, e, e],
                    [e, b, e, e],
                ],
            },
            Tetromino::L => match self.rotation {
                Rotation::Spawn => [[e, e, e, e], [e, e, e, e], [b, b, b, e], [e, e, b, e]],
                Rotation::Clockwise => [[e, e, e, e], [e, b, b, e], [e, b, e, e], [e, b, e, e]],
                Rotation::OneEighty => [[e, e, e, e], [b, e, e, e], [b, b, b, e], [e, e, e, e]],
                Rotation::CounterClockwise => [
                    [e, e, e, e],
                    [e, b, e, e],
                    [e, b, e, e],
                    [b, b, e, e],
                ],
            },
        }
    }
}

/// Four quarter turns in one direction bring a rotation state back to where
/// it started, and a turn one way undoes a turn the other way.
pub proof fn lemma_rotation_is_a_four_cycle(rotation: Rotation)
    ensures
        rotation.cw().cw().cw().cw() == rotation,
        rotation.ccw().ccw().ccw().ccw() == rotation,
        rotation.cw().ccw() == rotation,
        rotation.ccw().cw() == rotation,
        rotation.cw() != rotation,
        rotation.cw().cw() != rotation,
        rotation.cw().cw().cw() != rotation,
        rotation.cw().cw().cw() == rotation.ccw(),
{
}

/// Four quarter turns in one direction bring a piece back to the rotation
/// state it started in, and a turn one way undoes a turn the other way.
pub proof fn lemma_piece_rotation_is_a_four_cycle(piece: Piece)
    ensures
        piece.turned_cw().turned_cw().turned_cw().turned_cw() == piece,
        piece.turned_ccw().turned_ccw().turned_ccw().turned_ccw() == piece,
        piece.turned_cw().turned_ccw() == piece,
        piece.turned_ccw().turned_cw() == piece,
{
}

/// The mask of every shape in every rotation state lies inside the 4x4
/// bounding box and has exactly four occupied cells.
pub proof fn lemma_mask_has_four_cells(shape: Tetromino, rotation: Rotation)
    ensures
        occupied_cells(shape, rotation).finite(),
        occupied_cells(shape, rotation).len() == 4,
        forall|r: int, c: int|
            occupied(shape, rotation, r, c) ==> 0 <= r < 4 && 0 <= c < 4,
{
    let c0 = cell(shape, rotation, 0);
    let c1 = cell(shape, rotation, 1);
    let c2 = cell(shape, rotation, 2);
    let c3 = cell(shape, rotation, 3);
    let cells = Set::empty().insert(c0).insert(c1).insert(c2).insert(c3);
    assert(c0 != c1 && c0 != c2 && c0 != c3 && c1 != c2 && c1 != c3 && c2 != c3);
    assert(occupied_cells(shape, rotation) =~= cells);
}

/// The masks of the four rotation states of a shape are pairwise distinct,
/// except for the square, whose four masks are identical.
#[verifier::spinoff_prover]
#[verifier::rlimit(60)]
pub proof fn lemma_masks_distinct_except_square(shape: Tetromino, a: Rotation, b: Rotation)
    ensures
        shape == Tetromino::O ==> occupied_cells(shape, a) == occupied_cells(shape, b),
        shape != Tetromino::O && a != b ==> occupied_cells(shape, a) != occupied_cells(shape, b),
{
    if shape == Tetromino::O {
        assert(occupied_cells(shape, a) =~= occupied_cells(shape, b));
    } else if a != b {
        let witness = mask_difference(shape, a, b);
        assert(occupied_cells(shape, a).contains(witness) != occupied_cells(shape, b).contains(
            witness,
        ));
    }
}

/// A cell on which the masks of two different rotation states of a shape
/// other than the square disagree.
pub open spec fn mask_difference(shape: Tetromino, a: Rotation, b: Rotation) -> (int, int) {
    if !occupied(shape, b, cell(shape, a, 0).0, cell(shape, a, 0).1) {
        cell(shape, a, 0)
    } else if !occupied(shape, b, cell(shape, a, 1).0, cell(shape, a, 1).1) {
        cell(shape, a, 1)
    } else if !occupied(shape, b, cell(shape, a, 2).0, cell(shape, a, 2).1) {
        cell(shape, a, 2)
    } else {
        cell(shape, a, 3)
    }
}

} // verus!
