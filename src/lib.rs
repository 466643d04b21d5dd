//! Game logic of a two-player Pong match and of a Breakout menu, on a fixed-point model of the screen.
pub mod ball;
pub mod game;
pub mod geometry;
pub mod menu;
pub mod paddle;
pub mod random;
pub mod sound;
