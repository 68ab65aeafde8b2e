//! Paddles of a two-player pong game: where they spawn and how the keyboard
//! moves them on each fixed tick.

pub mod keys;
pub mod laws;
pub mod paddle;
