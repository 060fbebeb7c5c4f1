//! Storyteller feedback.

pub mod session;
pub mod submit;
