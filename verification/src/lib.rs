//! Game-state engine for a terminal falling-block puzzle game.
//!
//! The playfield is a fixed 10 x 20 grid of colored cells. An active
//! four-cell piece falls under gravity; the player shifts and rotates it;
//! completed rows clear and raise the score; the game ends when a freshly
//! spawned piece overlaps the settled stack.
//!
//! Everything here is pure state-machine logic: rendering and input live in
//! the surrounding binary, which drives the engine through plain commands
//! and reads the grid, score and over flag back out.

pub mod game;
pub mod genes;
pub mod grid;
pub mod tetromino;
