//! The mathematics of the board: a rectangle of cells whose edges are glued
//! together, so that the last row lies next to the first and the last column
//! next to the first.

use vstd::prelude::*;
use vstd::arithmetic::div_mod::{lemma_mod_add_multiples_vanish, lemma_small_mod};
use crate::cell::{Cell, next_state};

verus! {

/// A board is a sequence of rows. It is rectangular when it has at least one
/// row, at least one column, and every row has the same length.
pub open spec fn rectangular<T>(cells: Seq<Seq<T>>) -> bool {
    &&& cells.len() > 0
    &&& cells[0].len() > 0
    &&& forall|row: int| 0 <= row < cells.len() ==> #[trigger] cells[row].len() == cells[0].len()
}

/// A board of exactly `rows` rows and `cols` columns.
pub open spec fn has_shape<T>(cells: Seq<Seq<T>>, rows: int, cols: int) -> bool {
    &&& rectangular(cells)
    &&& height(cells) == rows
    &&& width(cells) == cols
}

/// The number of rows of a board.
pub open spec fn height<T>(cells: Seq<Seq<T>>) -> int {
    cells.len() as int
}

/// The number of columns of a rectangular board.
pub open spec fn width<T>(cells: Seq<Seq<T>>) -> int {
    cells[0].len() as int
}

/// The cell found at `(row, col)` once each coordinate is reduced modulo its
/// dimension. The remainder is never negative, so row `-1` is the last row and
/// row `height` is row `0`.
pub open spec fn wrapped(cells: Seq<Seq<Cell>>, row: int, col: int) -> Cell {
    cells[row % height(cells)][col % width(cells)]
}

/// 1 if the cell found at `(row, col)` after wrapping is alive, 0 if it is dead.
pub open spec fn alive_at(cells: Seq<Seq<Cell>>, row: int, col: int) -> int {
    wrapped(cells, row, col).number()
}

/// The number of live cells among the eight positions around `(row, col)`.
///
/// Each of the eight offsets is wrapped and counted on its own. On a board
/// with fewer than three rows or columns two offsets can land on the same
/// cell, or on `(row, col)` itself; that cell is then counted once per offset
/// that reaches it.
pub open spec fn live_neighbours(cells: Seq<Seq<Cell>>, row: int, col: int) -> int {
    alive_at(cells, row - 1, col - 1) + alive_at(cells, row - 1, col) + alive_at(
        cells,
        row - 1,
        col + 1,
    ) + alive_at(cells, row, col - 1) + alive_at(cells, row, col + 1) + alive_at(
        cells,
        row + 1,
        col - 1,
    ) + alive_at(cells, row + 1, col) + alive_at(cells, row + 1, col + 1)
}

/// The state of the cell at `(row, col)` one generation later.
pub open spec fn next_cell(cells: Seq<Seq<Cell>>, row: int, col: int) -> Cell {
    next_state(cells[row][col], live_neighbours(cells, row, col))
}

/// The whole board one generation later: every cell is decided from the
/// board as it is now.
pub open spec fn next_generation(cells: Seq<Seq<Cell>>) -> Seq<Seq<Cell>> {
    Seq::new(
        cells.len(),
        |row: int| Seq::new(cells[0].len(), |col: int| next_cell(cells, row, col)),
    )
}

/// Wrapping leaves a coordinate that lies on the board where it is, and
/// brings back one that lies a whole dimension before or after the board.
pub proof fn lemma_wrap(i: int, n: int)
    requires
        0 <= i < n,
    ensures
        i % n == i,
        (i - n) % n == i,
        (i + n) % n == i,
{
    lemma_small_mod(i as nat, n as nat);
    lemma_mod_add_multiples_vanish(i - n, n);
    lemma_mod_add_multiples_vanish(i, n);
}

} // verus!
