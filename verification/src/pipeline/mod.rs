//! Pipeline task lifecycle.
pub mod status;
