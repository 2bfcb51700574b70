//! The ways in which building a grid can fail.

use vstd::prelude::*;

verus! {

/// What can be wrong with the data a grid is to be made from.
#[derive(Clone, Copy, Debug, PartialEq, Eq, Structural)]
pub enum GridError {
    /// There are no rows, no columns, or rows of different lengths.
    InvalidDimension,
    /// A value stands for neither a dead nor a live cell.
    CorruptedState,
}

impl GridError {
    /// A short description of the error, for messages.
    pub fn message(&self) -> (text: &'static str)
        ensures
            *self == GridError::InvalidDimension ==> text@ == "invalid grid dimensions"@,
            *self == GridError::CorruptedState ==> text@ == "corrupted cell state"@,
    {
        match self {
            GridError::InvalidDimension => "invalid grid dimensions",
            GridError::CorruptedState => "corrupted cell state",
        }
    }
}

} // verus!
