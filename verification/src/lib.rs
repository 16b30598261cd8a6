//! The rules engine of a falling-block puzzle game.
//!
//! The static model lives in [`playfield`] (the grid) and [`piece`] (the seven
//! tetrominoes and their rotation masks). [`engine`] holds the rules that move
//! a piece on the playfield (collision, wall kicks, T-spins, line clearing,
//! gravity, input) and the tick-driven engines that sequence them.

pub mod engine;
pub mod piece;
pub mod playfield;
