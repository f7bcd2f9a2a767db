//! Error types of the daemon and the stable error taxonomy.
use vstd::prelude::*;

use crate::text::{concat2, decimal, dec, push_str};

verus! {

/// `std::io::Error`, carried through opaquely.
#[verifier::external_type_specification]
#[verifier::external_body]
pub struct ExIoError(std::io::Error);

/// `serde_json::Error`, carried through opaquely.
#[verifier::external_type_specification]
#[verifier::external_body]
pub struct ExJsonError(serde_json::Error);

/// `std::path::PathBuf`, carried through opaquely.
#[verifier::external_type_specification]
#[verifier::external_body]
pub struct ExPathBuf(std::path::PathBuf);

/// Top-level error type of the daemon.
#[derive(Debug)]
pub enum DaedalusError {
    Protocol(String),
    Io(std::io::Error),
    Json(serde_json::Error),
    Yaml(String),
    AlreadyExists(std::path::PathBuf),
    ConfigMissing { path: String, example: String },
    UnknownModel { model_id: String, known: Vec<String> },
    UnknownProvider { found: String, known: Vec<String> },
    MissingApiKey { env_var: String },
    Database(String),
}

/// Granular termination reason for an [`AgentError`].
#[derive(Debug, Clone, Copy, PartialEq, Eq, Structural)]
pub enum ErrorKind {
    Cancelled,
    TaskTimeout,
    ToolFailure,
    MaxIterations,
    ProviderExhausted,
    ProviderFatal,
}

/// Error returned by LLM provider adapters.
#[derive(Debug, Clone)]
pub enum ProviderError {
    Parse(String),
    Network(String),
    Timeout,
    Auth { status: u16, body: String },
    RateLimited { status: u16, body: String },
    Http { status: u16, body: String },
    ModelNotFound(String),
}

/// Structured error produced by the agent runtime.
#[derive(Debug, Clone)]
pub struct AgentError {
    pub reason: ErrorKind,
    pub detail: String,
    pub provider_error: Option<ProviderError>,
}

/// Stable error taxonomy for run records and `task.error`.
#[derive(Debug, Clone, Copy, PartialEq, Eq, Structural)]
pub enum ErrorCode {
    Cancelled,
    TaskTimeout,
    ToolFailure,
    MaxIterations,
    ProviderExhausted,
    ProviderFatal,
    ModelNotFound,
    AuthFailure,
    RateLimited,
    Unknown,
}

/// Whether retrying with the next provider in the chain may help.
pub open spec fn spec_fallbackable(e: ProviderError) -> bool {
    match e {
        ProviderError::Network(_) | ProviderError::Timeout | ProviderError::RateLimited { .. } => true,
        ProviderError::Http { status, .. } => status >= 500,
        _ => false,
    }
}

/// The text `Display` renders for a provider error.
pub open spec fn provider_error_text(e: ProviderError) -> Seq<char> {
    match e {
        ProviderError::Parse(m) => "parse error: "@ + m@,
        ProviderError::Network(m) => "network error: "@ + m@,
        ProviderError::Timeout => "request timed out"@,
        ProviderError::Auth { status, .. } => "auth error (HTTP "@ + dec(status as nat) + ")"@,
        ProviderError::RateLimited { status, .. } => "rate limited (HTTP "@ + dec(status as nat)
            + ")"@,
        ProviderError::Http { status, .. } => "HTTP "@ + dec(status as nat),
        ProviderError::ModelNotFound(m) => "model not found: "@ + m@,
    }
}

impl ProviderError {
    /// Returns `true` when it is safe to retry with the next provider:
    /// network failures, timeouts, rate limits and 5xx responses.
    pub fn is_fallbackable(&self) -> (r: bool)
        ensures
            r == spec_fallbackable(*self),
    {
        match self {
            ProviderError::Network(_) | ProviderError::Timeout => true,
            ProviderError::RateLimited { .. } => true,
            ProviderError::Http { status, .. } => *status >= 500,
            _ => false,
        }
    }

    /// The human-readable rendering of this error.
    pub fn to_display_string(&self) -> (r: String)
        ensures
            r@ == provider_error_text(*self),
    {
        match self {
            ProviderError::Parse(m) => concat2("parse error: ", m.as_str()),
            ProviderError::Network(m) => concat2("network error: ", m.as_str()),
            ProviderError::Timeout => String::from_str("request timed out"),
            ProviderError::Auth { status, .. } => {
                let mut s = String::from_str("auth error (HTTP ");
                let d = decimal(*status as u64);
                push_str(&mut s, d.as_str());
                push_str(&mut s, ")");
                s
            },
            ProviderError::RateLimited { status, .. } => {
                let mut s = String::from_str("rate limited (HTTP ");
                let d = decimal(*status as u64);
                push_str(&mut s, d.as_str());
                push_str(&mut s, ")");
                s
            },
            ProviderError::Http { status, .. } => {
                let d = decimal(*status as u64);
                concat2("HTTP ", d.as_str())
            },
            ProviderError::ModelNotFound(m) => concat2("model not found: ", m.as_str()),
        }
    }
}

/// The stable snake_case name of an error code.
pub open spec fn code_name(c: ErrorCode) -> Seq<char> {
    match c {
        ErrorCode::Cancelled => "cancelled"@,
        ErrorCode::TaskTimeout => "task_timeout"@,
        ErrorCode::ToolFailure => "tool_failure"@,
        ErrorCode::MaxIterations => "max_iterations"@,
        ErrorCode::ProviderExhausted => "provider_exhausted"@,
        ErrorCode::ProviderFatal => "provider_fatal"@,
        ErrorCode::ModelNotFound => "model_not_found"@,
        ErrorCode::AuthFailure => "auth_failure"@,
        ErrorCode::RateLimited => "rate_limited"@,
        ErrorCode::Unknown => "unknown"@,
    }
}

/// The code each [`ErrorKind`] maps to.
pub open spec fn kind_code(k: ErrorKind) -> ErrorCode {
    match k {
        ErrorKind::Cancelled => ErrorCode::Cancelled,
        ErrorKind::TaskTimeout => ErrorCode::TaskTimeout,
        ErrorKind::ToolFailure => ErrorCode::ToolFailure,
        ErrorKind::MaxIterations => ErrorCode::MaxIterations,
        ErrorKind::ProviderExhausted => ErrorCode::ProviderExhausted,
        ErrorKind::ProviderFatal => ErrorCode::ProviderFatal,
    }
}

/// The code each [`ProviderError`] maps to.
pub open spec fn provider_code(e: ProviderError) -> ErrorCode {
    match e {
        ProviderError::Auth { .. } => ErrorCode::AuthFailure,
        ProviderError::RateLimited { .. } => ErrorCode::RateLimited,
        ProviderError::ModelNotFound(_) => ErrorCode::ModelNotFound,
        ProviderError::Network(_) | ProviderError::Timeout => ErrorCode::ProviderExhausted,
        ProviderError::Http { status, .. } => if status >= 500 {
            ErrorCode::ProviderExhausted
        } else {
            ErrorCode::ProviderFatal
        },
        ProviderError::Parse(_) => ErrorCode::Unknown,
    }
}

/// The code of an agent error: the provider's when one is attached,
/// otherwise the one of its kind.
pub open spec fn agent_code(e: AgentError) -> ErrorCode {
    match e.provider_error {
        Some(pe) => provider_code(pe),
        None => kind_code(e.reason),
    }
}

impl ErrorCode {
    /// Returns the stable snake_case string for this code.
    pub fn as_str(&self) -> (r: &'static str)
        ensures
            r@ == code_name(*self),
    {
        match self {
            ErrorCode::Cancelled => "cancelled",
            ErrorCode::TaskTimeout => "task_timeout",
            ErrorCode::ToolFailure => "tool_failure",
            ErrorCode::MaxIterations => "max_iterations",
            ErrorCode::ProviderExhausted => "provider_exhausted",
            ErrorCode::ProviderFatal => "provider_fatal",
            ErrorCode::ModelNotFound => "model_not_found",
            ErrorCode::AuthFailure => "auth_failure",
            ErrorCode::RateLimited => "rate_limited",
            ErrorCode::Unknown => "unknown",
        }
    }

    /// Maps an [`ErrorKind`] to its code; no kind maps to `Unknown`.
    pub fn from_error_kind(kind: &ErrorKind) -> (r: ErrorCode)
        ensures
            r == kind_code(*kind),
    {
        match kind {
            ErrorKind::Cancelled => ErrorCode::Cancelled,
            ErrorKind::TaskTimeout => ErrorCode::TaskTimeout,
            ErrorKind::ToolFailure => ErrorCode::ToolFailure,
            ErrorKind::MaxIterations => ErrorCode::MaxIterations,
            ErrorKind::ProviderExhausted => ErrorCode::ProviderExhausted,
            ErrorKind::ProviderFatal => ErrorCode::ProviderFatal,
        }
    }

    /// Maps a [`ProviderError`] to its code.
    pub fn from_provider_error(e: &ProviderError) -> (r: ErrorCode)
        ensures
            r == provider_code(*e),
    {
        match e {
            ProviderError::Auth { .. } => ErrorCode::AuthFailure,
            ProviderError::RateLimited { .. } => ErrorCode::RateLimited,
            ProviderError::ModelNotFound(_) => ErrorCode::ModelNotFound,
            ProviderError::Network(_) | ProviderError::Timeout => ErrorCode::ProviderExhausted,
            ProviderError::Http { status, .. } => if *status >= 500 {
                ErrorCode::ProviderExhausted
            } else {
                ErrorCode::ProviderFatal
            },
            ProviderError::Parse(_) => ErrorCode::Unknown,
        }
    }
}

impl AgentError {
    /// The canonical [`ErrorCode`] of this error: derived from the attached
    /// provider error when there is one, otherwise from `reason`.
    pub fn error_code(&self) -> (r: ErrorCode)
        ensures
            r == agent_code(*self),
    {
        match &self.provider_error {
            Some(pe) => ErrorCode::from_provider_error(pe),
            None => ErrorCode::from_error_kind(&self.reason),
        }
    }

    /// The human-readable rendering of this error's detail.
    pub fn detail_text(&self) -> (r: &str)
        ensures
            r@ == self.detail@,
    {
        self.detail.as_str()
    }

    /// A provider failure as the agent reports it: a fallbackable error
    /// means the chain was exhausted, any other is fatal; the detail is
    /// the provider error's text, and the error stays attached.
    pub fn from_provider(e: ProviderError) -> (r: AgentError)
        ensures
            r.reason == (if spec_fallbackable(e) {
                ErrorKind::ProviderExhausted
            } else {
                ErrorKind::ProviderFatal
            }),
            r.detail@ == provider_error_text(e),
            r.provider_error == Some(e),
    {
        let reason = if e.is_fallbackable() {
            ErrorKind::ProviderExhausted
        } else {
            ErrorKind::ProviderFatal
        };
        let detail = e.to_display_string();
        AgentError { reason, detail, provider_error: Some(e) }
    }

    /// The error of a model call cut short by cancellation or the task's
    /// deadline.
    pub fn interrupted(reason: ErrorKind) -> (r: AgentError)
        ensures
            r.reason == reason,
            r.detail@ == interrupted_text(reason),
            r.provider_error is None,
    {
        let detail = match reason {
            ErrorKind::TaskTimeout => "task timed out",
            ErrorKind::Cancelled => "task cancelled",
            _ => "task interrupted",
        };
        AgentError { reason, detail: String::from_str(detail), provider_error: None }
    }
}

/// What a model call cut short says: the deadline, a cancellation, or
/// another interruption.
pub open spec fn interrupted_text(reason: ErrorKind) -> Seq<char> {
    match reason {
        ErrorKind::TaskTimeout => "task timed out"@,
        ErrorKind::Cancelled => "task cancelled"@,
        _ => "task interrupted"@,
    }
}

/// Distinct codes have distinct names.
pub proof fn lemma_code_names_distinct(a: ErrorCode, b: ErrorCode)
    requires
        a != b,
    ensures
        code_name(a) != code_name(b),
{
    reveal_strlit("cancelled");
    reveal_strlit("task_timeout");
    reveal_strlit("tool_failure");
    reveal_strlit("max_iterations");
    reveal_strlit("provider_exhausted");
    reveal_strlit("provider_fatal");
    reveal_strlit("model_not_found");
    reveal_strlit("auth_failure");
    reveal_strlit("rate_limited");
    reveal_strlit("unknown");
    if code_name(a).len() == code_name(b).len() {
        assert(code_name(a)[0] != code_name(b)[0] || code_name(a)[1] != code_name(b)[1]
            || code_name(a)[5] != code_name(b)[5]);
    }
}

/// A provider error is fallbackable exactly when its code is
/// `ProviderExhausted` or `RateLimited`.
pub proof fn lemma_fallbackable_code(e: ProviderError)
    ensures
        spec_fallbackable(e) <==> (provider_code(e) == ErrorCode::ProviderExhausted
            || provider_code(e) == ErrorCode::RateLimited),
{
}

/// No [`ErrorKind`] maps to `Unknown`, and the mapping is one-to-one.
pub proof fn lemma_kind_code_injective(a: ErrorKind, b: ErrorKind)
    ensures
        kind_code(a) != ErrorCode::Unknown,
        kind_code(a) == kind_code(b) ==> a == b,
{
}

} // verus!
