//! Verified core of a small two-paddle ball game on a wrapped grid.
//!
//! The simulation state is a pair of vertical paddles and a single ball,
//! all living on a fixed toroidal grid. Movement is one cell per tick with
//! Euclidean wrap-around, paddles shift by one cell per consumed key press,
//! and the ball reverses direction when it lands on a paddle cell.

pub mod ball;
pub mod direction;
pub mod game;
pub mod grid;
pub mod paddle;
pub mod rng;
