//! Decision logic of a community-operations assistant: configuration values,
//! the feedback data model, and the interactive feedback-collection session.

pub mod configuration;
pub mod discord;
pub mod models;
pub mod routes;
pub mod text;
