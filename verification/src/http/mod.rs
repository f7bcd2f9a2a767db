//! The HTTP endpoints' rules.
pub mod config;
pub mod session;
pub mod tasks;
pub mod validate;
