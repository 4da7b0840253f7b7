//! Core of a grid-based snake game.
//!
//! The library owns the whole simulation state — the snake's segments, its
//! direction of travel, the single optional food cell, and the score — and
//! exposes the per-tick phases (input, movement, eating, growth, game over,
//! food spawning) as verified operations on that state.  Windowing, key
//! polling, clocks and rendering stay outside; they hand the library plain
//! values and read plain values back.

pub mod food;
pub mod game;
pub mod grid;
mod rng;
pub mod timer;
