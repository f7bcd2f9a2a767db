//! The rules of the model probe endpoint.
use vstd::prelude::*;

use crate::config::ModelEntry;
use crate::error::{provider_error_text, ProviderError};
use crate::text::{concat2, str_eq};

verus! {

/// The answer of a probe.
#[derive(Debug)]
pub struct ValidateResponse {
    pub model_id: String,
    pub reachable: bool,
    pub latency_ms: Option<u64>,
    pub error: Option<String>,
}

/// How a probe went.
#[derive(Debug)]
pub enum ProbeOutcome {
    /// The model answered after this many milliseconds.
    Reached(u64),
    /// The provider failed.
    Failed(ProviderError),
    /// No answer within ten seconds.
    TimedOut,
}

/// The model to probe: it must be named, and not by an empty string.
pub fn required_model_id(model_id: Option<&str>) -> (r: Result<String, String>)
    ensures
        match model_id {
            Some(m) => if m@.len() > 0 {
                r matches Ok(s) && s@ == m@
            } else {
                r matches Err(e) && e@ == "model_id is required"@
            },
            None => r matches Err(e) && e@ == "model_id is required"@,
        },
{
    match model_id {
        Some(m) => if m.is_empty() {
            Err(String::from_str("model_id is required"))
        } else {
            Ok(String::from_str(m))
        },
        None => Err(String::from_str("model_id is required")),
    }
}

/// The model must be declared in `models.yaml`.
pub fn known_model(models: &Vec<ModelEntry>, model_id: &str) -> (r: Result<(), String>)
    ensures
        (r is Ok) == (exists|i: int| 0 <= i < models@.len() && #[trigger] models@[i].id@ == model_id@),
        r matches Err(e) ==> e@ == "unknown model_id: "@ + model_id@,
{
    let mut i: usize = 0;
    while i < models.len()
        invariant
            i <= models@.len(),
            forall|j: int| 0 <= j < i ==> #[trigger] models@[j].id@ != model_id@,
        decreases models@.len() - i,
    {
        if str_eq(models[i].id.as_str(), model_id) {
            return Ok(());
        }
        i = i + 1;
    }
    Err(concat2("unknown model_id: ", model_id))
}

/// The answer for a probe's outcome: reachable with its latency, or not
/// reachable with the provider's error or the timeout.
pub fn probe_response(model_id: String, outcome: ProbeOutcome) -> (r: ValidateResponse)
    ensures
        r.model_id == model_id,
        match outcome {
            ProbeOutcome::Reached(ms) => r.reachable && r.latency_ms == Some(ms) && r.error is None,
            ProbeOutcome::Failed(e) => !r.reachable && r.latency_ms is None && (r.error matches Some(
                t,
            ) && t@ == provider_error_text(e)),
            ProbeOutcome::TimedOut => !r.reachable && r.latency_ms is None && (r.error matches Some(
                t,
            ) && t@ == "timeout after 10s"@),
        },
{
    match outcome {
        ProbeOutcome::Reached(ms) => ValidateResponse {
            model_id,
            reachable: true,
            latency_ms: Some(ms),
            error: None,
        },
        ProbeOutcome::Failed(e) => ValidateResponse {
            model_id,
            reachable: false,
            latency_ms: None,
            error: Some(e.to_display_string()),
        },
        ProbeOutcome::TimedOut => ValidateResponse {
            model_id,
            reachable: false,
            latency_ms: None,
            error: Some(String::from_str("timeout after 10s")),
        },
    }
}

} // verus!
