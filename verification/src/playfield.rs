//! The playfield: a fixed grid of spaces.

use vstd::prelude::*;

verus! {

/// A space in the playfield.
#[derive(Clone, Copy, PartialEq, Eq, Hash, Debug, Structural)]
pub enum Space {
    Empty,
    Block,
}

/// The mathematical model of a playfield: its rows from the bottom up, each a
/// sequence of spaces from left to right.
pub type Grid = Seq<Seq<Space>>;

/// Whether a grid has the dimensions of a playfield.
pub open spec fn is_grid(grid: Grid) -> bool {
    &&& grid.len() == 40
    &&& forall|r: int| 0 <= r < 40 ==> (#[trigger] grid[r]).len() == 10
}

/// Whether `(row, col)`, counted from 1, names a cell of the playfield.
pub open spec fn in_bounds(row: int, col: int) -> bool {
    1 <= row <= 40 && 1 <= col <= 10
}

/// The space of a grid at `(row, col)`, counted from 1.
pub open spec fn space_at(grid: Grid, row: int, col: int) -> Space {
    grid[row - 1][col - 1]
}

/// A grid with the space at `(row, col)`, counted from 1, replaced.
pub open spec fn with_space(grid: Grid, row: int, col: int, space: Space) -> Grid {
    grid.update(row - 1, grid[row - 1].update(col - 1, space))
}

/// Replacing one space of a grid keeps its dimensions and every other space.
pub proof fn lemma_with_space(grid: Grid, row: int, col: int, space: Space)
    requires
        is_grid(grid),
        in_bounds(row, col),
    ensures
        is_grid(with_space(grid, row, col, space)),
        forall|r: int, c: int|
            in_bounds(r, c) ==> #[trigger] space_at(with_space(grid, row, col, space), r, c) == (if r
                == row && c == col {
                space
            } else {
                space_at(grid, r, c)
            }),
{
    let result = with_space(grid, row, col, space);
    assert forall|r: int| 0 <= r < 40 implies (#[trigger] result[r]).len() == 10 by {
        assert(grid[r].len() == 10);
    }
}

/// The grid all of whose spaces are empty.
pub open spec fn empty_grid() -> Grid {
    Seq::new(40, |r: int| Seq::new(10, |c: int| Space::Empty))
}

/// The playfield where blocks are placed.
///
/// Rows and columns are counted from 1; row 1 is the bottom row. Only the
/// bottom 20 rows are shown to the player.
#[derive(Clone, Copy)]
pub struct Playfield {
    grid: [[Space; 10]; 40],
}

impl View for Playfield {
    type V = Grid;

    closed spec fn view(&self) -> Grid {
        Seq::new(40, |r: int| self.grid[r]@)
    }
}

impl Playfield {
    pub const WIDTH: u8 = 10;

    pub const VISIBLE_HEIGHT: u8 = 20;

    pub const TOTAL_HEIGHT: u8 = 40;

    /// The model of every playfield has the playfield's dimensions.
    pub proof fn lemma_view_is_grid(&self)
        ensures
            is_grid(self@),
    {
    }

    /// Creates a new empty playfield.
    pub fn new() -> (playfield: Playfield)
        ensures
            playfield@ == empty_grid(),
    {
        let playfield = Playfield { grid: [[Space::Empty; 10]; 40] };
        assert(playfield@ =~~= empty_grid());
        playfield
    }

    /// Gets the space at the specified row and column.
    pub fn get(&self, row: u8, col: u8) -> (space: Space)
        requires
            in_bounds(row as int, col as int),
        ensures
            space == space_at(self@, row as int, col as int),
    {
        self.grid[row as usize - 1][col as usize - 1]
    }

    /// Sets the space at the specified row and column to a block.
    pub fn set(&mut self, row: u8, col: u8)
        requires
            in_bounds(row as int, col as int),
        ensures
            final(self)@ == with_space(old(self)@, row as int, col as int, Space::Block),
    {
        self.grid[row as usize - 1][col as usize - 1] = Space::Block;
        assert(self@ =~~= with_space(old(self)@, row as int, col as int, Space::Block));
    }

    /// Clears the space at the specified row and column.
    pub fn clear(&mut self, row: u8, col: u8)
        requires
            in_bounds(row as int, col as int),
        ensures
            final(self)@ == with_space(old(self)@, row as int, col as int, Space::Empty),
    {
        self.grid[row as usize - 1][col as usize - 1] = Space::Empty;
        assert(self@ =~~= with_space(old(self)@, row as int, col as int, Space::Empty));
    }
}

} // verus!
