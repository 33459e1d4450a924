//! A snake game on a bounded grid.
//!
//! The snake moves one cell per tick, eats food for points, grows and gets
//! faster, and the game ends when it runs into a wall, itself or an obstacle.
//! This crate holds the rules, each with a proved contract:
//!
//! - `grid`: cells, headings, and the step from a cell to its neighbour;
//! - `snake`: the body as a sequence of cells, head first;
//! - `obstacle`, `food`: what lies on the grid besides the snake;
//! - `placement`: which cells are open to new food and obstacles, and how
//!   one is found;
//! - `chance`: the random numbers that placement draws;
//! - `game`: the state of a game, the tick, the pace and the keys;
//! - `input`: the key bindings;
//! - `render`: what is to be painted, in order.
//!
//! Reading keys, keeping time and painting are left to the program that
//! uses the crate.

pub mod chance;
pub mod food;
pub mod game;
pub mod grid;
pub mod input;
pub mod obstacle;
pub mod placement;
pub mod render;
pub mod snake;
