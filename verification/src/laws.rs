//! What holds of every board and every generation.

use vstd::prelude::*;
use vstd::arithmetic::div_mod::lemma_mod_bound;
use crate::cell::Cell;
use crate::grid::Grid;
use crate::torus::{
    alive_at, has_shape, height, lemma_wrap, live_neighbours, next_generation, rectangular,
    width, wrapped,
};

verus! {

/// The board after `n` generations.
pub open spec fn generation(cells: Seq<Seq<Cell>>, n: nat) -> Seq<Seq<Cell>>
    decreases n,
{
    if n == 0 {
        cells
    } else {
        next_generation(generation(cells, (n - 1) as nat))
    }
}

/// Whether every cell of the board is in the given state.
pub open spec fn uniform(cells: Seq<Seq<Cell>>, state: Cell) -> bool {
    forall|row: int, col: int|
        0 <= row < cells.len() && 0 <= col < cells[row].len() ==> #[trigger] cells[row][col]
            == state
}

/// Whether the cell at `(row, col)` is the only live cell of the board.
pub open spec fn lone_cell(cells: Seq<Seq<Cell>>, row: int, col: int) -> bool {
    forall|r: int, c: int|
        0 <= r < cells.len() && 0 <= c < cells[r].len() ==> (#[trigger] cells[r][c] == Cell::Alive
            <==> r == row && c == col)
}

/// Whether `(row, col)` is one of the eight positions around `(0, 0)` on a
/// torus of `rows` by `cols`: it lies in the first, second or last row and in
/// the first, second or last column, and is not `(0, 0)` itself.
pub open spec fn around_origin(rows: int, cols: int, row: int, col: int) -> bool {
    &&& row == 0 || row == 1 || row == rows - 1
    &&& col == 0 || col == 1 || col == cols - 1
    &&& !(row == 0 && col == 0)
}

/// A wrapped position always lies on the board.
pub proof fn lemma_wrapped_on_board(cells: Seq<Seq<Cell>>, row: int, col: int)
    requires
        rectangular(cells),
    ensures
        0 <= row % height(cells) < height(cells),
        0 <= col % width(cells) < width(cells),
        wrapped(cells, row, col) == cells[row % height(cells)][col % width(cells)],
        0 <= alive_at(cells, row, col) <= 1,
{
    lemma_mod_bound(row, height(cells));
    lemma_mod_bound(col, width(cells));
}

/// A cell never has fewer than zero or more than eight live neighbours.
pub proof fn lemma_neighbours_in_range(cells: Seq<Seq<Cell>>, row: int, col: int)
    requires
        rectangular(cells),
    ensures
        0 <= live_neighbours(cells, row, col) <= 8,
{
    lemma_wrapped_on_board(cells, row - 1, col - 1);
    lemma_wrapped_on_board(cells, row - 1, col);
    lemma_wrapped_on_board(cells, row - 1, col + 1);
    lemma_wrapped_on_board(cells, row, col - 1);
    lemma_wrapped_on_board(cells, row, col + 1);
    lemma_wrapped_on_board(cells, row + 1, col - 1);
    lemma_wrapped_on_board(cells, row + 1, col);
    lemma_wrapped_on_board(cells, row + 1, col + 1);
}

/// One generation keeps the dimensions of the board.
pub proof fn lemma_generation_keeps_shape(cells: Seq<Seq<Cell>>)
    requires
        rectangular(cells),
    ensures
        has_shape(next_generation(cells), height(cells), width(cells)),
{
}

/// Any number of generations keeps the dimensions of the board: a grid made
/// with `rows` rows and `cols` columns has them for life.
pub proof fn lemma_shape_is_kept(cells: Seq<Seq<Cell>>, rows: int, cols: int, n: nat)
    requires
        has_shape(cells, rows, cols),
    ensures
        has_shape(generation(cells, n), rows, cols),
    decreases n,
{
    if n > 0 {
        lemma_shape_is_kept(cells, rows, cols, (n - 1) as nat);
        lemma_generation_keeps_shape(generation(cells, (n - 1) as nat));
    }
}

/// The next generation is decided by the cells alone: whatever two steps
/// return for grids with the same cells, the results have the same cells.
pub proof fn lemma_step_is_deterministic(first: Grid, second: Grid, after_first: Grid, after_second: Grid)
    requires
        first@ == second@,
        after_first@ == next_generation(first@),
        after_second@ == next_generation(second@),
    ensures
        after_first@ == after_second@,
{
}

/// A board without a live cell stays without one.
pub proof fn lemma_dead_board_stays_dead(cells: Seq<Seq<Cell>>)
    requires
        rectangular(cells),
        uniform(cells, Cell::Dead),
    ensures
        uniform(next_generation(cells), Cell::Dead),
{
    assert forall|row: int, col: int|
        0 <= row < height(cells) && 0 <= col < width(cells) implies live_neighbours(
        cells,
        row,
        col,
    ) == 0 by {
        lemma_uniform_neighbours(cells, Cell::Dead, row, col);
    }
}

/// A board on which every cell is alive dies of overcrowding in one
/// generation, whatever its size: all eight positions around a cell hold a
/// live cell, also where wrapping makes some of them coincide.
pub proof fn lemma_full_board_dies(cells: Seq<Seq<Cell>>)
    requires
        rectangular(cells),
        uniform(cells, Cell::Alive),
    ensures
        uniform(next_generation(cells), Cell::Dead),
{
    assert forall|row: int, col: int|
        0 <= row < height(cells) && 0 <= col < width(cells) implies live_neighbours(
        cells,
        row,
        col,
    ) == 8 by {
        lemma_uniform_neighbours(cells, Cell::Alive, row, col);
    }
}

/// On a board whose cells are all in one state, every cell has eight
/// neighbours in that state.
proof fn lemma_uniform_neighbours(cells: Seq<Seq<Cell>>, state: Cell, row: int, col: int)
    requires
        rectangular(cells),
        uniform(cells, state),
    ensures
        live_neighbours(cells, row, col) == 8 * state.number(),
{
    lemma_wrapped_on_board(cells, row - 1, col - 1);
    lemma_wrapped_on_board(cells, row - 1, col);
    lemma_wrapped_on_board(cells, row - 1, col + 1);
    lemma_wrapped_on_board(cells, row, col - 1);
    lemma_wrapped_on_board(cells, row, col + 1);
    lemma_wrapped_on_board(cells, row + 1, col - 1);
    lemma_wrapped_on_board(cells, row + 1, col);
    lemma_wrapped_on_board(cells, row + 1, col + 1);
}

/// The board has no edges. When the cell at `(0, 0)` is the only live one on
/// a board of at least three rows and three columns, the cells that count it
/// as a neighbour are exactly the eight around it on the torus, the last row
/// and the last column included, and each counts it once.
pub proof fn lemma_origin_is_seen_across_edges(cells: Seq<Seq<Cell>>, row: int, col: int)
    requires
        rectangular(cells),
        height(cells) >= 3,
        width(cells) >= 3,
        lone_cell(cells, 0, 0),
        0 <= row < height(cells),
        0 <= col < width(cells),
    ensures
        around_origin(height(cells), width(cells), row, col) ==> live_neighbours(cells, row, col)
            == 1,
        !around_origin(height(cells), width(cells), row, col) ==> live_neighbours(cells, row, col)
            == 0,
{
    let rows = height(cells);
    let cols = width(cells);
    lemma_ring(row, rows);
    lemma_ring(col, cols);
    lemma_wrapped_on_board(cells, row - 1, col - 1);
    lemma_wrapped_on_board(cells, row - 1, col);
    lemma_wrapped_on_board(cells, row - 1, col + 1);
    lemma_wrapped_on_board(cells, row, col - 1);
    lemma_wrapped_on_board(cells, row, col + 1);
    lemma_wrapped_on_board(cells, row + 1, col - 1);
    lemma_wrapped_on_board(cells, row + 1, col);
    lemma_wrapped_on_board(cells, row + 1, col + 1);
}

/// The places before and after `i` on a ring of `n` places.
proof fn lemma_ring(i: int, n: int)
    requires
        0 <= i < n,
    ensures
        i % n == i,
        (i - 1) % n == if i == 0 {
            n - 1
        } else {
            i - 1
        },
        (i + 1) % n == if i == n - 1 {
            0
        } else {
            i + 1
        },
{
    lemma_wrap(i, n);
    if i == 0 {
        lemma_wrap(n - 1, n);
    } else {
        lemma_wrap(i - 1, n);
    }
    if i == n - 1 {
        lemma_wrap(0, n);
    } else {
        lemma_wrap(i + 1, n);
    }
}

} // verus!
