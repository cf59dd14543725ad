//! Rules, wire messages and client state machine of a networked
//! Tic-Tac-Toe game.

pub mod client;
pub mod domain;
pub mod error;
pub mod hacker;
pub mod protocol;
pub mod text;
