//! Line clearing: finding the full rows of the playfield and compacting the
//! others downward.

use vstd::prelude::*;
use crate::playfield::{is_grid, lemma_with_space, Grid, Playfield, Space};

verus! {

/// Whether a row has no empty space.
pub open spec fn row_is_full(row: Seq<Space>) -> bool {
    forall|c: int| 0 <= c < row.len() ==> #[trigger] row[c] == Space::Block
}

/// Whether a row is to stay when full rows are cleared.
pub open spec fn row_stays(row: Seq<Space>) -> bool {
    !row_is_full(row)
}

/// Whether any row of a grid is full.
pub open spec fn has_full_row(grid: Grid) -> bool {
    exists|r: int| 0 <= r < grid.len() && row_is_full(#[trigger] grid[r])
}

/// The rows of a grid that are not full, in their order from the bottom up.
pub open spec fn kept_rows(grid: Grid) -> Grid {
    grid.filter(|row: Seq<Space>| row_stays(row))
}

/// The number of full rows of a grid.
pub open spec fn full_row_count(grid: Grid) -> nat {
    (grid.len() - kept_rows(grid).len()) as nat
}

/// A row of empty spaces.
pub open spec fn empty_row() -> Seq<Space> {
    Seq::new(10, |c: int| Space::Empty)
}

/// A grid without its full rows: the rows that are not full move down to
/// close the gaps, in their order, and empty rows fill the top.
pub open spec fn compacted(grid: Grid) -> Grid {
    kept_rows(grid) + Seq::new(full_row_count(grid), |r: int| empty_row())
}

/// A grid that has no full row keeps every row, and compacting it changes
/// nothing.
pub proof fn lemma_compacted_without_full_rows(grid: Grid)
    requires
        !has_full_row(grid),
    ensures
        kept_rows(grid) == grid,
        full_row_count(grid) == 0,
        compacted(grid) == grid,
{
    lemma_kept_rows_of_prefix(grid, grid.len() as int);
    assert(grid.take(grid.len() as int) =~= grid);
    assert(compacted(grid) =~= grid);
}

/// Of a prefix of a grid none of whose rows is full, every row is kept.
proof fn lemma_kept_rows_of_prefix(grid: Grid, n: int)
    requires
        0 <= n <= grid.len(),
        forall|r: int| 0 <= r < n ==> !row_is_full(#[trigger] grid[r]),
    ensures
        kept_rows(grid.take(n)) == grid.take(n),
    decreases n,
{
    let stays = |row: Seq<Space>| row_stays(row);
    if n == 0 {
        reveal(Seq::filter);
        assert(grid.take(0).filter(stays) =~= grid.take(0));
    } else {
        lemma_kept_rows_of_prefix(grid, n - 1);
        assert(grid.take(n) =~= grid.take(n - 1).push(grid[n - 1]));
        grid.take(n - 1).lemma_filter_push(grid[n - 1], stays);
    }
}

/// Every full row is dropped, and a grid with a full row keeps fewer rows than
/// it has.
pub proof fn lemma_kept_rows_are_fewer(grid: Grid)
    ensures
        kept_rows(grid).len() <= grid.len(),
        has_full_row(grid) ==> kept_rows(grid).len() < grid.len(),
    decreases grid.len(),
{
    let stays = |row: Seq<Space>| row_stays(row);
    grid.lemma_filter_len(stays);
    if has_full_row(grid) {
        let r = choose|r: int| 0 <= r < grid.len() && row_is_full(#[trigger] grid[r]);
        let front = grid.drop_last();
        assert(grid =~= front.push(grid.last()));
        front.lemma_filter_push(grid.last(), stays);
        front.lemma_filter_len(stays);
        if r < grid.len() - 1 {
            assert(front[r] == grid[r]);
            assert(has_full_row(front));
            lemma_kept_rows_are_fewer(front);
        }
    }
}

/// Returns whether or not a row of the playfield is full.
fn is_row_full(field: &Playfield, row: u8) -> (full: bool)
    requires
        1 <= row <= 40,
    ensures
        full == row_is_full(field@[row - 1]),
{
    proof {
        field.lemma_view_is_grid();
    }
    let mut col: u8 = 1;
    while col <= 10
        invariant
            1 <= row <= 40,
            1 <= col <= 11,
            is_grid(field@),
            forall|c: int| 0 <= c < col - 1 ==> #[trigger] field@[row - 1][c] == Space::Block,
        decreases 11 - col,
    {
        // Any row that has a space is not full.
        if field.get(row, col) == Space::Empty {
            assert(field@[row - 1][col - 1] != Space::Block);
            return false;
        }
        col += 1;
    }
    true
}

/// Returns whether or not at least one row is full.
pub fn contains_full_rows(field: &Playfield) -> (found: bool)
    ensures
        found == has_full_row(field@),
{
    proof {
        field.lemma_view_is_grid();
    }
    let mut row: u8 = 1;
    while row <= 40
        invariant
            1 <= row <= 41,
            is_grid(field@),
            forall|r: int| 0 <= r < row - 1 ==> !row_is_full(#[trigger] field@[r]),
        decreases 41 - row,
    {
        if is_row_full(field, row) {
            return true;
        }
        row += 1;
    }
    false
}

/// Copies one row of the playfield onto another.
fn copy_row(field: &mut Playfield, from: u8, to: u8)
    requires
        1 <= to <= from <= 40,
    ensures
        final(field)@ == old(field)@.update(to - 1, old(field)@[from - 1]),
{
    proof {
        field.lemma_view_is_grid();
    }
    let mut col: u8 = 1;
    while col <= 10
        invariant
            1 <= to <= from <= 40,
            1 <= col <= 11,
            is_grid(field@),
            is_grid(old(field)@),
            forall|r: int| 0 <= r < 40 && r != to - 1 ==> #[trigger] field@[r] == old(field)@[r],
            forall|c: int|
                0 <= c < col - 1 ==> #[trigger] field@[to - 1][c] == old(field)@[from - 1][c],
            forall|c: int|
                col - 1 <= c < 10 ==> #[trigger] field@[to - 1][c] == old(field)@[to - 1][c],
        decreases 11 - col,
    {
        let space = field.get(from, col);
        proof {
            lemma_with_space(field@, to as int, col as int, space);
            assert(space == old(field)@[from - 1][col - 1]);
        }
        match space {
            Space::Empty => field.clear(to, col),
            Space::Block => field.set(to, col),
        };
        col += 1;
    }
    proof {
        assert(field@[to - 1] =~= old(field)@[from - 1]);
        assert(field@ =~= old(field)@.update(to - 1, old(field)@[from - 1]));
    }
}

/// Empties one row of the playfield.
fn clear_row(field: &mut Playfield, row: u8)
    requires
        1 <= row <= 40,
    ensures
        final(field)@ == old(field)@.update(row - 1, empty_row()),
{
    proof {
        field.lemma_view_is_grid();
    }
    let mut col: u8 = 1;
    while col <= 10
        invariant
            1 <= row <= 40,
            1 <= col <= 11,
            is_grid(field@),
            forall|r: int| 0 <= r < 40 && r != row - 1 ==> #[trigger] field@[r] == old(field)@[r],
            forall|c: int| 0 <= c < col - 1 ==> #[trigger] field@[row - 1][c] == Space::Empty,
        decreases 11 - col,
    {
        proof {
            lemma_with_space(field@, row as int, col as int, Space::Empty);
        }
        field.clear(row, col);
        col += 1;
    }
    proof {
        assert(field@[row - 1] =~= empty_row());
        assert(field@ =~= old(field)@.update(row - 1, empty_row()));
    }
}

/// Clears any rows that are full and drops the rows above them down.
/// Returns the number of rows cleared.
pub fn clear_rows(field: &mut Playfield) -> (cleared: u8)
    ensures
        final(field)@ == compacted(old(field)@),
        cleared == full_row_count(old(field)@),
        !has_full_row(old(field)@) ==> *final(field) == *old(field) && cleared == 0,
{
    let ghost grid = field@;
    let ghost stays = |row: Seq<Space>| row_stays(row);
    proof {
        field.lemma_view_is_grid();
        reveal(Seq::filter);
        assert(grid.take(0).filter(stays) =~= Seq::<Seq<Space>>::empty());
    }
    // Construct a list of all rows that will NOT be cleared.
    let mut non_full_rows: Vec<u8> = Vec::with_capacity(40);
    let mut row: u8 = 1;
    while row <= 40
        invariant
            1 <= row <= 41,
            field@ == grid,
            is_grid(grid),
            stays == |row: Seq<Space>| row_stays(row),
            non_full_rows.len() == grid.take(row - 1).filter(stays).len(),
            non_full_rows.len() <= row - 1,
            forall|k: int|
                0 <= k < non_full_rows.len() ==> k + 1 <= #[trigger] non_full_rows[k] <= row - 1,
            forall|k: int|
                0 <= k < non_full_rows.len() ==> grid[non_full_rows[k] - 1] == #[trigger] grid.take(
                    row - 1,
                ).filter(stays)[k],
            forall|k: int, l: int|
                0 <= k < l < non_full_rows.len() ==> #[trigger] non_full_rows[k]
                    < #[trigger] non_full_rows[l],
        decreases 41 - row,
    {
        let ghost before = grid.take(row - 1);
        proof {
            assert(grid.take(row as int) =~= before.push(grid[row - 1]));
            before.lemma_filter_push(grid[row - 1], stays);
        }
        if !is_row_full(field, row) {
            non_full_rows.push(row);
        }
        row += 1;
    }
    proof {
        assert(grid.take(40) =~= grid);
    }
    let kept: usize = non_full_rows.len();
    // Don't do anything if no rows are full.
    if kept == 40 {
        proof {
            assert forall|r: int| 0 <= r < 40 implies !row_is_full(#[trigger] grid[r]) by {
                assert(non_full_rows[r] == r + 1) by {
                    lemma_dense_rows(non_full_rows@, r);
                }
                assert(grid[non_full_rows[r] - 1] == kept_rows(grid)[r]);
                grid.lemma_filter_pred(stays, r);
            }
            lemma_compacted_without_full_rows(grid);
        }
        return 0;
    }
    proof {
        if !has_full_row(grid) {
            lemma_compacted_without_full_rows(grid);
        }
    }
    // Copy non-full rows to the next available row. Since full rows are not
    // in the list, this has the effect of overwriting the full rows.
    let mut current_row: u8 = 1;
    let mut k: usize = 0;
    while k < kept
        invariant
            k <= kept < 40,
            kept == non_full_rows.len(),
            current_row == k + 1,
            is_grid(grid),
            is_grid(field@),
            kept == kept_rows(grid).len(),
            forall|j: int|
                0 <= j < non_full_rows.len() ==> j + 1 <= #[trigger] non_full_rows[j] <= 40,
            forall|j: int|
                0 <= j < non_full_rows.len() ==> grid[non_full_rows[j] - 1]
                    == #[trigger] kept_rows(grid)[j],
            forall|j: int, l: int|
                0 <= j < l < non_full_rows.len() ==> #[trigger] non_full_rows[j]
                    < #[trigger] non_full_rows[l],
            forall|r: int| 0 <= r < k ==> #[trigger] field@[r] == kept_rows(grid)[r],
            forall|r: int| k <= r < 40 ==> #[trigger] field@[r] == grid[r],
        decreases kept - k,
    {
        let from = non_full_rows[k];
        copy_row(field, from, current_row);
        current_row += 1;
        k += 1;
    }
    // Clear remaining rows.
    let mut row: u8 = current_row;
    while row <= 40
        invariant
            kept + 1 <= row <= 41,
            kept < 40,
            kept == kept_rows(grid).len(),
            is_grid(field@),
            forall|r: int| 0 <= r < kept ==> #[trigger] field@[r] == kept_rows(grid)[r],
            forall|r: int| kept <= r < row - 1 ==> #[trigger] field@[r] == empty_row(),
        decreases 41 - row,
    {
        clear_row(field, row);
        row += 1;
    }
    proof {
        assert(field@ =~= compacted(grid));
    }
    40 - kept as u8
}

/// A strictly increasing list of forty row numbers between 1 and 40 lists
/// every row in its place.
proof fn lemma_dense_rows(rows: Seq<u8>, r: int)
    requires
        rows.len() == 40,
        0 <= r < 40,
        forall|k: int| 0 <= k < 40 ==> k + 1 <= #[trigger] rows[k] <= 40,
        forall|k: int, l: int| 0 <= k < l < 40 ==> #[trigger] rows[k] < #[trigger] rows[l],
    ensures
        rows[r] == r + 1,
    decreases 40 - r,
{
    if r < 39 {
        lemma_dense_rows(rows, r + 1);
    }
}

} // verus!
