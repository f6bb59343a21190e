//! Core of a terminal snake game: a snake moves over a fixed-size toroidal
//! grid, eats randomly placed fruit to grow, and the grid mirrors the state
//! as a matrix of display symbols. Terminal input and output live outside
//! this crate; the library owns the state and its per-tick transition.

pub mod board;
pub mod game;
pub mod geometry;
pub mod snake;
