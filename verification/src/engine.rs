//! The automaton: counting live neighbours on the torus and advancing the
//! whole grid by one generation.

use vstd::prelude::*;
use crate::cell::Cell;
use crate::grid::{rows_of, Grid};
use crate::torus::{
    has_shape, height, lemma_wrap, live_neighbours, next_cell, next_generation, width,
};

verus! {

/// The index before `i` on a ring of `n` places: the last one when `i` is the
/// first.
fn before(i: usize, n: usize) -> (j: usize)
    requires
        i < n,
    ensures
        j < n,
        j == (i - 1) % (n as int),
{
    if i == 0 {
        proof {
            lemma_wrap(n - 1, n as int);
        }
        n - 1
    } else {
        proof {
            lemma_wrap(i - 1, n as int);
        }
        i - 1
    }
}

/// The index after `i` on a ring of `n` places: the first one when `i` is the
/// last.
fn after(i: usize, n: usize) -> (j: usize)
    requires
        i < n,
    ensures
        j < n,
        j == (i + 1) % (n as int),
{
    if i == n - 1 {
        proof {
            lemma_wrap(0, n as int);
        }
        0
    } else {
        proof {
            lemma_wrap(i + 1, n as int);
        }
        i + 1
    }
}

/// 1 if the cell at `(row, col)` is alive, 0 if it is dead.
fn tally(grid: &Grid, row: usize, col: usize) -> (count: u8)
    requires
        row < height(grid@),
        col < width(grid@),
    ensures
        count == grid@[row as int][col as int].number(),
{
    match grid.get(row, col) {
        Cell::Dead => 0,
        Cell::Alive => 1,
    }
}

/// Counts the live cells among the eight positions around `(x, y)`, where `x`
/// is the row and `y` the column. The grid has no edges: the row before the
/// first is the last, and likewise for columns.
///
/// Each of the eight offsets is wrapped and counted on its own, so on a grid
/// with fewer than three rows or columns a cell that several offsets reach,
/// `(x, y)` itself included, is counted once for each of them.
pub fn count_neighbours(grid: &Grid, x: usize, y: usize) -> (count: u8)
    requires
        x < height(grid@),
        y < width(grid@),
    ensures
        count == live_neighbours(grid@, x as int, y as int),
        count <= 8,
{
    let rows: usize = grid.rows();
    let cols: usize = grid.cols();
    let up: usize = before(x, rows);
    let down: usize = after(x, rows);
    let left: usize = before(y, cols);
    let right: usize = after(y, cols);
    proof {
        lemma_wrap(x as int, rows as int);
        lemma_wrap(y as int, cols as int);
    }
    let above: u8 = tally(grid, up, left) + tally(grid, up, y) + tally(grid, up, right);
    let beside: u8 = tally(grid, x, left) + tally(grid, x, right);
    let below: u8 = tally(grid, down, left) + tally(grid, down, y) + tally(grid, down, right);
    above + beside + below
}

impl Grid {
    /// The next generation: a new grid of the same dimensions in which every
    /// cell follows Conway's rule applied to this grid. This grid is only
    /// read; no cell of the result depends on another cell of the result.
    pub fn step(&self) -> (next: Grid)
        ensures
            next@ == next_generation(self@),
            has_shape(next@, height(self@), width(self@)),
    {
        let rows: usize = self.rows();
        let cols: usize = self.cols();
        let mut cells: Vec<Vec<Cell>> = Vec::new();
        let mut x: usize = 0;
        while x < rows
            invariant
                has_shape(self@, rows as int, cols as int),
                x <= rows,
                cells@.len() == x,
                forall|r: int|
                    0 <= r < x ==> (#[trigger] cells@[r])@ == next_generation(self@)[r],
            decreases rows - x,
        {
            let mut line: Vec<Cell> = Vec::new();
            let mut y: usize = 0;
            while y < cols
                invariant
                    has_shape(self@, rows as int, cols as int),
                    x < rows,
                    y <= cols,
                    line@.len() == y,
                    forall|c: int|
                        0 <= c < y ==> #[trigger] line@[c] == next_cell(self@, x as int, c),
                decreases cols - y,
            {
                let neighbours: u8 = count_neighbours(self, x, y);
                let state: Cell = self.get(x, y);
                line.push(state.next(neighbours));
                y += 1;
            }
            assert(line@ =~= next_generation(self@)[x as int]);
            cells.push(line);
            x += 1;
        }
        assert(rows_of(cells) =~= next_generation(self@));
        Grid::from_rect(cells)
    }
}

/// What the animation holds between two frames: the current grid.
pub struct Model {
    pub grid: Grid,
}

/// Advances the model by one generation: the grid is replaced as a whole by
/// its successor.
pub fn update(model: &mut Model)
    ensures
        final(model).grid@ == next_generation(old(model).grid@),
        has_shape(final(model).grid@, height(old(model).grid@), width(old(model).grid@)),
{
    let next: Grid = model.grid.step();
    model.grid = next;
}

} // verus!
