//! The grid: a rectangle of cells that keeps its dimensions for life.

use vstd::prelude::*;
use crate::cell::{is_state, state_of, Cell};
use crate::error::GridError;
use crate::random::random_range;
use crate::torus::{has_shape, rectangular};

verus! {

/// Whether every number on a board stands for a cell state.
pub open spec fn all_states(values: Seq<Seq<i32>>) -> bool {
    forall|row: int, col: int|
        0 <= row < values.len() && 0 <= col < values[row].len() ==> is_state(
            #[trigger] values[row][col] as int,
        )
}

/// The board of cells that a board of numbers stands for.
pub open spec fn states_of(values: Seq<Seq<i32>>) -> Seq<Seq<Cell>> {
    Seq::new(
        values.len(),
        |row: int| Seq::new(values[row].len(), |col: int| state_of(values[row][col] as int)),
    )
}

/// The rows of a nested vector as a sequence of sequences.
pub open spec fn rows_of<T>(cells: Vec<Vec<T>>) -> Seq<Seq<T>> {
    Seq::new(cells@.len(), |row: int| cells@[row]@)
}

/// A rectangular board of cells with at least one row and one column.
#[derive(Debug, PartialEq, Eq)]
pub struct Grid {
    cells: Vec<Vec<Cell>>,
    rows: usize,
    cols: usize,
}

impl View for Grid {
    type V = Seq<Seq<Cell>>;

    /// The cells, row by row.
    closed spec fn view(&self) -> Seq<Seq<Cell>> {
        rows_of(self.cells)
    }
}

/// Whether the rows form a rectangle with at least one row and one column.
fn is_rectangle<T>(rows: &Vec<Vec<T>>) -> (yes: bool)
    ensures
        yes == rectangular(rows_of(*rows)),
{
    if rows.len() == 0 {
        return false;
    }
    let cols: usize = rows[0].len();
    if cols == 0 {
        return false;
    }
    let mut row: usize = 1;
    while row < rows.len()
        invariant
            rows@.len() > 0,
            cols == rows@[0]@.len(),
            1 <= row <= rows@.len(),
            forall|r: int| 0 <= r < row ==> (#[trigger] rows@[r])@.len() == cols,
        decreases rows.len() - row,
    {
        if rows[row].len() != cols {
            assert(rows_of(*rows)[row as int].len() != rows_of(*rows)[0].len());
            return false;
        }
        row += 1;
    }
    assert(forall|r: int|
        0 <= r < rows@.len() ==> (#[trigger] rows_of(*rows)[r]).len() == (rows@[r])@.len());
    true
}

/// One toss of a fair coin: dead or alive.
fn random_cell() -> Cell {
    let draw: i32 = random_range(0, 2);
    match Cell::from_value(draw) {
        Ok(cell) => cell,
        Err(_) => unreached(),
    }
}

impl Clone for Grid {
    /// A grid of its own with the same cells.
    fn clone(&self) -> (copy: Grid)
        ensures
            copy@ == self@,
    {
        proof {
            use_type_invariant(self);
        }
        let mut cells: Vec<Vec<Cell>> = Vec::new();
        let mut row: usize = 0;
        while row < self.rows
            invariant
                self.consistent(),
                row <= self.rows,
                cells@.len() == row,
                forall|r: int| 0 <= r < row ==> (#[trigger] cells@[r])@ == self.cells@[r]@,
            decreases self.rows - row,
        {
            let mut line: Vec<Cell> = Vec::new();
            let mut col: usize = 0;
            while col < self.cols
                invariant
                    self.consistent(),
                    row < self.rows,
                    col <= self.cols,
                    line@.len() == col,
                    forall|c: int| 0 <= c < col ==> #[trigger] line@[c] == self.cells@[row as int]@[c],
                decreases self.cols - col,
            {
                assert(rows_of(self.cells)[row as int].len() == self.cols);
                line.push(self.cells[row][col]);
                col += 1;
            }
            assert(rows_of(self.cells)[row as int].len() == self.cols);
            assert(line@ =~= self.cells@[row as int]@);
            cells.push(line);
            row += 1;
        }
        assert(rows_of(cells) =~= rows_of(self.cells));
        Grid { cells, rows: self.rows, cols: self.cols }
    }
}

impl Grid {
    #[verifier::type_invariant]
    spec fn consistent(&self) -> bool {
        &&& rectangular(rows_of(self.cells))
        &&& self.rows == self.cells@.len()
        &&& self.cols == self.cells@[0]@.len()
    }

    /// Wraps rows that are already known to form a rectangle.
    pub(crate) fn from_rect(cells: Vec<Vec<Cell>>) -> (grid: Grid)
        requires
            rectangular(rows_of(cells)),
        ensures
            grid@ == rows_of(cells),
    {
        let rows: usize = cells.len();
        let cols: usize = cells[0].len();
        Grid { cells, rows, cols }
    }

    /// A grid of `rows` by `cols` cells in which every cell is alive or dead
    /// with equal probability, each independently of the others.
    ///
    /// Fails with `InvalidDimension` exactly when `rows` or `cols` is zero.
    /// Which cells are alive is left to chance; the dimensions are not.
    pub fn new(rows: usize, cols: usize) -> (made: Result<Grid, GridError>)
        ensures
            rows == 0 || cols == 0 ==> made == Err::<Grid, GridError>(GridError::InvalidDimension),
            rows > 0 && cols > 0 ==> made is Ok && has_shape(
                made->Ok_0@,
                rows as int,
                cols as int,
            ),
    {
        let toss = |_row: usize, _col: usize| -> (cell: Cell) { random_cell() };
        Grid::from_fn(rows, cols, toss)
    }

    /// A grid of `rows` by `cols` cells in which the cell at `(row, col)` is
    /// what `source(row, col)` returns.
    ///
    /// Fails with `InvalidDimension` exactly when `rows` or `cols` is zero.
    pub fn from_fn<F: Fn(usize, usize) -> Cell>(rows: usize, cols: usize, source: F) -> (made:
        Result<Grid, GridError>)
        requires
            forall|row: usize, col: usize|
                row < rows && col < cols ==> call_requires(source, (row, col)),
        ensures
            rows == 0 || cols == 0 ==> made == Err::<Grid, GridError>(GridError::InvalidDimension),
            rows > 0 && cols > 0 ==> made is Ok && has_shape(
                made->Ok_0@,
                rows as int,
                cols as int,
            ),
            made is Ok ==> forall|row: int, col: int|
                0 <= row < rows && 0 <= col < cols ==> call_ensures(
                    source,
                    (row as usize, col as usize),
                    #[trigger] made->Ok_0@[row][col],
                ),
    {
        if rows == 0 || cols == 0 {
            return Err(GridError::InvalidDimension);
        }
        let mut cells: Vec<Vec<Cell>> = Vec::new();
        let mut row: usize = 0;
        while row < rows
            invariant
                cols > 0,
                row <= rows,
                cells@.len() == row,
                forall|r: usize, c: usize| r < rows && c < cols ==> call_requires(source, (r, c)),
                forall|r: int| 0 <= r < row ==> (#[trigger] cells@[r])@.len() == cols,
                forall|r: int, c: int|
                    0 <= r < row && 0 <= c < cols ==> call_ensures(
                        source,
                        (r as usize, c as usize),
                        #[trigger] cells@[r]@[c],
                    ),
            decreases rows - row,
        {
            let mut line: Vec<Cell> = Vec::new();
            let mut col: usize = 0;
            while col < cols
                invariant
                    row < rows,
                    col <= cols,
                    line@.len() == col,
                    forall|r: usize, c: usize|
                        r < rows && c < cols ==> call_requires(source, (r, c)),
                    forall|c: int|
                        0 <= c < col ==> call_ensures(
                            source,
                            (row, c as usize),
                            #[trigger] line@[c],
                        ),
                decreases cols - col,
            {
                let cell = source(row, col);
                line.push(cell);
                col += 1;
            }
            cells.push(line);
            row += 1;
        }
        assert(rectangular(rows_of(cells)));
        Ok(Grid::from_rect(cells))
    }

    /// A grid with the given rows of cells.
    ///
    /// Fails with `InvalidDimension` exactly when the rows do not form a
    /// rectangle: when there is no row, when the first row is empty, or when
    /// two rows differ in length.
    pub fn from_cells(cells: Vec<Vec<Cell>>) -> (made: Result<Grid, GridError>)
        ensures
            rectangular(rows_of(cells)) ==> made is Ok && made->Ok_0@ == rows_of(cells),
            !rectangular(rows_of(cells)) ==> made == Err::<Grid, GridError>(
                GridError::InvalidDimension,
            ),
    {
        if is_rectangle(&cells) {
            Ok(Grid::from_rect(cells))
        } else {
            Err(GridError::InvalidDimension)
        }
    }

    /// A grid read from rows of numbers, 0 for a dead cell and 1 for a live
    /// one.
    ///
    /// Fails with `InvalidDimension` exactly when the rows do not form a
    /// rectangle, and otherwise with `CorruptedState` exactly when some number
    /// is neither 0 nor 1. No such number is ever taken for a state.
    pub fn from_values(values: Vec<Vec<i32>>) -> (made: Result<Grid, GridError>)
        ensures
            !rectangular(rows_of(values)) ==> made == Err::<Grid, GridError>(
                GridError::InvalidDimension,
            ),
            rectangular(rows_of(values)) && !all_states(rows_of(values)) ==> made == Err::<
                Grid,
                GridError,
            >(GridError::CorruptedState),
            rectangular(rows_of(values)) && all_states(rows_of(values)) ==> made is Ok
                && made->Ok_0@ == states_of(rows_of(values)),
    {
        if !is_rectangle(&values) {
            return Err(GridError::InvalidDimension);
        }
        let rows: usize = values.len();
        let cols: usize = values[0].len();
        let mut cells: Vec<Vec<Cell>> = Vec::new();
        let mut row: usize = 0;
        while row < rows
            invariant
                has_shape(rows_of(values), rows as int, cols as int),
                row <= rows,
                cells@.len() == row,
                forall|r: int, c: int|
                    0 <= r < row && 0 <= c < cols ==> is_state(
                        #[trigger] rows_of(values)[r][c] as int,
                    ),
                forall|r: int|
                    0 <= r < row ==> (#[trigger] cells@[r])@ == states_of(rows_of(values))[r],
            decreases rows - row,
        {
            let numbers: &Vec<i32> = &values[row];
            assert(numbers@ == rows_of(values)[row as int]);
            let mut line: Vec<Cell> = Vec::new();
            let mut col: usize = 0;
            while col < cols
                invariant
                    has_shape(rows_of(values), rows as int, cols as int),
                    row < rows,
                    numbers@ == rows_of(values)[row as int],
                    col <= cols,
                    line@.len() == col,
                    forall|c: int| 0 <= c < col ==> is_state(#[trigger] numbers@[c] as int),
                    forall|c: int|
                        0 <= c < col ==> #[trigger] line@[c] == state_of(numbers@[c] as int),
                decreases cols - col,
            {
                match Cell::from_value(numbers[col]) {
                    Ok(cell) => {
                        line.push(cell);
                    },
                    Err(error) => {
                        assert(!is_state(rows_of(values)[row as int][col as int] as int));
                        return Err(error);
                    },
                }
                col += 1;
            }
            assert(line@ =~= states_of(rows_of(values))[row as int]);
            cells.push(line);
            row += 1;
        }
        assert(rows_of(cells) =~= states_of(rows_of(values)));
        Ok(Grid::from_rect(cells))
    }

    /// The number of rows.
    pub fn rows(&self) -> (rows: usize)
        ensures
            rows == self@.len(),
            rectangular(self@),
    {
        proof {
            use_type_invariant(self);
        }
        self.rows
    }

    /// The number of columns.
    pub fn cols(&self) -> (cols: usize)
        ensures
            cols == self@[0].len(),
            rectangular(self@),
    {
        proof {
            use_type_invariant(self);
        }
        self.cols
    }

    /// The cell at `(row, col)`.
    pub fn get(&self, row: usize, col: usize) -> (cell: Cell)
        requires
            row < self@.len(),
            col < self@[0].len(),
        ensures
            cell == self@[row as int][col as int],
    {
        proof {
            use_type_invariant(self);
        }
        self.cells[row][col]
    }
}

} // verus!
