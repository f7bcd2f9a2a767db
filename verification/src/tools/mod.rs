//! The agent's tools: their errors and the checks each runs on its input
//! before it acts.
use vstd::prelude::*;

use crate::error::{AgentError, ErrorKind};
use crate::text::{concat2, contains, contains_str};

pub mod catalog;
pub mod checks;

verus! {

/// An error a tool hands back.
#[derive(Debug)]
pub enum ToolError {
    /// The input failed a check.
    InvalidInput(String),
    /// A safety rule refused the action.
    Denied(String),
    /// The file system failed.
    Io(std::io::Error),
    /// Running the action failed.
    Execution(String),
}

/// The error a failed input check becomes: a refusal when the message
/// speaks of a denial or of `must_keep`, otherwise invalid input.
pub fn map_validate_err(e: String) -> (r: ToolError)
    ensures
        (contains(e@, "denied"@) || contains(e@, "must_keep"@)) ==> r == ToolError::Denied(e),
        !(contains(e@, "denied"@) || contains(e@, "must_keep"@)) ==> r == ToolError::InvalidInput(e),
{
    if contains_str(e.as_str(), "denied") || contains_str(e.as_str(), "must_keep") {
        ToolError::Denied(e)
    } else {
        ToolError::InvalidInput(e)
    }
}

/// The `Display` text of a `std::io::Error`.  What it says comes from the
/// operating system, so nothing is stated of it.
#[verifier::external_body]
fn io_error_text(e: &std::io::Error) -> String {
    e.to_string()
}

impl ToolError {
    /// The rendering of the error: its kind, then its message.
    pub fn display_text(&self) -> (r: String)
        ensures
            match *self {
                ToolError::InvalidInput(s) => r@ == "invalid input: "@ + s@,
                ToolError::Denied(s) => r@ == "denied: "@ + s@,
                ToolError::Io(_) => "i/o error: "@.is_prefix_of(r@),
                ToolError::Execution(s) => r@ == "execution error: "@ + s@,
            },
    {
        match self {
            ToolError::InvalidInput(s) => concat2("invalid input: ", s.as_str()),
            ToolError::Denied(s) => concat2("denied: ", s.as_str()),
            ToolError::Io(e) => {
                let t = io_error_text(e);
                let r = concat2("i/o error: ", t.as_str());
                assert(r@.subrange(0, "i/o error: "@.len() as int) =~= "i/o error: "@);
                r
            },
            ToolError::Execution(s) => concat2("execution error: ", s.as_str()),
        }
    }

    /// The failure of a tool as the agent reports it: a tool failure
    /// whose detail is the error's rendering.
    pub fn into_agent_error(self) -> (r: AgentError)
        ensures
            r.reason == ErrorKind::ToolFailure,
            r.provider_error is None,
            match self {
                ToolError::InvalidInput(s) => r.detail@ == "invalid input: "@ + s@,
                ToolError::Denied(s) => r.detail@ == "denied: "@ + s@,
                ToolError::Io(_) => "i/o error: "@.is_prefix_of(r.detail@),
                ToolError::Execution(s) => r.detail@ == "execution error: "@ + s@,
            },
    {
        let detail = self.display_text();
        AgentError { reason: ErrorKind::ToolFailure, detail, provider_error: None }
    }
}

} // verus!
