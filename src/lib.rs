//! Rules engine and turn protocol for Ultimate Tic-Tac-Toe.

pub mod game;
pub mod game_error;
pub mod messages;
pub mod render;
pub mod mirror;
pub mod session;
