//! The NDJSON control protocol.
pub mod control;
pub mod decode;
pub mod peer;
pub mod protocol;
pub mod session;
