//! Agent runtime support: the loop's decisions, prompt sources and the
//! system prompt.
pub mod capabilities;
pub mod heartbeat;
pub mod machine;
pub mod prompt;
pub mod prompt_sources;
pub mod sections;
pub mod steps;
