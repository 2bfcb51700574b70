//! Conway's Game of Life on a torus: the grid, the neighbour count and the
//! generation step, each with a machine-checked contract.

pub mod cell;
pub mod engine;
pub mod error;
pub mod grid;
pub mod laws;
pub mod torus;
mod random;
