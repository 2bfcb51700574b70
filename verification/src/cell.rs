//! The state of one cell and the rule that decides its next state.

use vstd::prelude::*;
use crate::error::GridError;

verus! {

/// One cell of the grid: dead or alive, nothing else.
#[derive(Clone, Copy, Debug, PartialEq, Eq, Structural)]
pub enum Cell {
    Dead,
    Alive,
}

/// Conway's rule: a dead cell with exactly three live neighbours comes alive,
/// a live cell with two or three stays alive, every other cell is dead.
pub open spec fn next_state(current: Cell, live_neighbours: int) -> Cell {
    match current {
        Cell::Dead => if live_neighbours == 3 {
            Cell::Alive
        } else {
            Cell::Dead
        },
        Cell::Alive => if live_neighbours == 2 || live_neighbours == 3 {
            Cell::Alive
        } else {
            Cell::Dead
        },
    }
}

/// Whether an integer stands for a cell state: 0 for dead, 1 for alive.
pub open spec fn is_state(value: int) -> bool {
    value == 0 || value == 1
}

/// The cell state that an integer stands for.
pub open spec fn state_of(value: int) -> Cell {
    if value == 1 {
        Cell::Alive
    } else {
        Cell::Dead
    }
}

impl Cell {
    /// The number that stands for this state: 0 for dead, 1 for alive.
    pub open spec fn number(self) -> int {
        match self {
            Cell::Dead => 0,
            Cell::Alive => 1,
        }
    }

    /// The number that stands for this state: 0 for dead, 1 for alive.
    pub fn value(self) -> (value: i32)
        ensures
            value == self.number(),
    {
        match self {
            Cell::Dead => 0,
            Cell::Alive => 1,
        }
    }

    /// Reads a state from its number. Any number other than 0 and 1 is
    /// refused rather than taken for one of the two states.
    ///
    /// Fails with `CorruptedState` exactly when `value` is neither 0 nor 1.
    pub fn from_value(value: i32) -> (read: Result<Cell, GridError>)
        ensures
            is_state(value as int) ==> read == Ok::<Cell, GridError>(state_of(value as int)),
            !is_state(value as int) ==> read == Err::<Cell, GridError>(
                GridError::CorruptedState,
            ),
    {
        if value == 0 {
            Ok(Cell::Dead)
        } else if value == 1 {
            Ok(Cell::Alive)
        } else {
            Err(GridError::CorruptedState)
        }
    }

    /// Whether the cell is alive.
    pub fn is_alive(self) -> (alive: bool)
        ensures
            alive == (self == Cell::Alive),
    {
        match self {
            Cell::Dead => false,
            Cell::Alive => true,
        }
    }

    /// The state this cell has in the next generation, given how many of its
    /// neighbours are alive now.
    pub fn next(self, live_neighbours: u8) -> (next: Cell)
        ensures
            next == next_state(self, live_neighbours as int),
    {
        match self {
            Cell::Dead => if live_neighbours == 3 {
                Cell::Alive
            } else {
                Cell::Dead
            },
            Cell::Alive => if live_neighbours < 2 || live_neighbours > 3 {
                Cell::Dead
            } else {
                Cell::Alive
            },
        }
    }
}

} // verus!
