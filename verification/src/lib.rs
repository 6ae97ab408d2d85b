//! Deathroll: a dice game in which every roll is drawn below the previous
//! roll, and whoever rolls 1 loses.
//!
//! The crate holds the turn engine of the game. Every transition of the
//! engine is stated over a mathematical model of its state and proved
//! against it.

pub mod decimal;
pub mod dice;
pub mod engine;
pub mod laws;
pub mod log;
pub mod state;
