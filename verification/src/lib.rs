//! Verified core of the daedalus daemon: protocol checks, routing rules,
//! status machines, stream decoding and the narrative reply contract.

pub mod agent;
pub mod config;
pub mod daemon;
pub mod db;
pub mod error;
pub mod gate;
pub mod http;
pub mod ipc;
pub mod json;
pub mod llm;
pub mod narrative;
pub mod pipeline;
pub mod run_artifacts;
pub mod text;
pub mod tools;
pub mod types;
