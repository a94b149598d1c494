//! Core of a grid-based snake game: a fixed-tick simulation in which a snake
//! advances over an integer board, grows by eating food, and dies on
//! self-collision, together with the pure mapping from grid cells to
//! render-space pixel offsets.

pub mod direction;
pub mod grid;
pub mod snake;
pub mod tick;
pub mod game;
