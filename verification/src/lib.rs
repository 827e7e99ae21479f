//! Conway's Game of Life on a torus, with every operation specified over a
//! mathematical model of the grid and proved against it, and the direction
//! keys of a camera controller as a small state machine.

pub mod cell;
pub mod controller;
pub mod grid;
pub mod laws;
pub mod universe;
