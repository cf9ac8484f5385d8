//! Core simulation of a snake game on a fixed-size toroidal grid.
//!
//! The library models the grid coordinates, the heading state machine, the
//! per-tick movement / wrap / self-collision algorithm, and fruit placement
//! and consumption. A presentation layer (windowing, drawing, the event pump)
//! lives outside the library and calls in once per key press, once per fixed
//! rate tick, and once per frame to read a renderable snapshot.

pub mod direction;
pub mod fruit;
pub mod game;
pub mod grid;
pub mod snake;
