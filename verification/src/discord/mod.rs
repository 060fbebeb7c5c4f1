//! What the assistant says and shows on the chat platform, as plain values.
//! Sending them is left to the caller.

pub mod feedback;
pub mod misc;
pub mod utils;
