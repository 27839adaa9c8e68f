//! Conway's Game of Life on a toroidal grid: the cell rule, neighbour
//! counting with wraparound, the generation step, and the few computations
//! a renderer and a map loader need.

pub mod board;
pub mod grid;
pub mod laws;
pub mod layout;
pub mod parse;
pub mod rules;
