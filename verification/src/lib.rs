//! Verified renditions of classic beginner exercises: a number-guessing
//! game, Fibonacci generation, string slicing, rectangles, coin sorting
//! and dice rolls, each with a contract stating exactly what it computes.

pub mod control_flow;
pub mod fibonacci;
pub mod functions;
pub mod guessing_game;
pub mod ownership;
pub mod patterns;
pub mod rectangles;
pub mod slices;
pub mod users;
