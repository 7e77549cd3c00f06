//! A two-player game of three-in-a-row on a 3×3 board, played either in one
//! process or by two clients that exchange the game state through a server.

pub mod board;
pub mod game;
pub mod online;
