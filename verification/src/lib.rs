//! The rules of a snake game on a bounded grid: the segmented body, and the
//! match that moves it, feeds it and ends and restarts the game.

pub mod game;
pub mod laws;
pub mod random;
pub mod snake;
