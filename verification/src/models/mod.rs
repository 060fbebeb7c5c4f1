//! The data that the assistant keeps about games and about feedback.

pub mod feedback;
pub mod game;
