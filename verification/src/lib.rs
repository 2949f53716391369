//! Conway's Game of Life on a torus.
//!
//! A [`Universe`] is a fixed-size grid of [`Cell`]s stored row by row. Each
//! call of [`Universe::tick`] replaces the whole grid by its successor
//! generation. What every operation computes is stated over
//! [`generation::Generation`], the mathematical picture of a grid.

pub mod arith;
pub mod cell;
pub mod generation;
pub mod laws;
pub mod universe;

pub use cell::Cell;
pub use universe::Universe;
