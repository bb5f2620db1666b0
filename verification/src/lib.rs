//! An idle swimming game: swimmers cross a lane back and forth, earn lengths,
//! and the player spends lengths on faster swimmers and on new recruits.
//!
//! The crate holds the rules of the game. Drawing and keyboard handling are
//! left to the program that embeds it.

pub mod game;
pub mod session;
pub mod swimmer;
pub mod text;
pub mod ui;
pub mod utils;
