//! Simulation core of a grid-based snake game: the snake's segments, its
//! heading, the food on the board, and the per-tick rules that move, feed,
//! grow and reset the snake.

pub mod component;
pub mod systems;
