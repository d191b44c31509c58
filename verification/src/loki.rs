//! The log backend: what is asked of it and what it answers.

pub mod auth;
pub mod client;
pub mod types;
