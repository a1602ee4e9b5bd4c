//! Conway's Game of Life on a fixed-size grid with clamped (non-wrapping)
//! edges.
//!
//! A [`Universe`] owns the grid dimensions and a flat, row-major cell buffer.
//! It is seeded deterministically by [`Universe::new`], advanced one
//! generation at a time by [`Universe::tick`], and projected to text by
//! [`Universe::render`]. The mathematical model of a grid and the generation
//! rule live in [`model`]; the properties the simulator guarantees are stated
//! and proved in [`laws`].

pub mod laws;
pub mod model;
pub mod universe;

pub use model::Cell;
pub use universe::Universe;
