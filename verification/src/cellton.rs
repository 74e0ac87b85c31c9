//! Two one-dimensional cellular automata on a row of cells.

pub mod genome;
pub mod windowed;
