//! Records of the `agent_runs` lifecycle table.
use vstd::prelude::*;

use crate::text::str_eq;

verus! {

/// All legal values of `agent_runs.status`.
#[derive(Debug, Clone, Copy, PartialEq, Eq, Structural)]
pub enum AgentRunStatus {
    Queued,
    Running,
    Done,
    Error,
    Cancelled,
    Orphaned,
}

/// The stored name of a run status.
pub open spec fn run_status_name(s: AgentRunStatus) -> Seq<char> {
    match s {
        AgentRunStatus::Queued => "queued"@,
        AgentRunStatus::Running => "running"@,
        AgentRunStatus::Done => "done"@,
        AgentRunStatus::Error => "error"@,
        AgentRunStatus::Cancelled => "cancelled"@,
        AgentRunStatus::Orphaned => "orphaned"@,
    }
}

impl AgentRunStatus {
    pub fn as_str(&self) -> (r: &'static str)
        ensures
            r@ == run_status_name(*self),
    {
        match self {
            AgentRunStatus::Queued => "queued",
            AgentRunStatus::Running => "running",
            AgentRunStatus::Done => "done",
            AgentRunStatus::Error => "error",
            AgentRunStatus::Cancelled => "cancelled",
            AgentRunStatus::Orphaned => "orphaned",
        }
    }

    /// Reads a stored status; `None` for a value outside the legal set.
    pub fn parse_status(s: &str) -> (r: Option<Self>)
        ensures
            match r {
                Some(t) => s@ == run_status_name(t),
                None => forall|t: AgentRunStatus| #[trigger] run_status_name(t) != s@,
            },
    {
        if str_eq(s, "queued") {
            Some(AgentRunStatus::Queued)
        } else if str_eq(s, "running") {
            Some(AgentRunStatus::Running)
        } else if str_eq(s, "done") {
            Some(AgentRunStatus::Done)
        } else if str_eq(s, "error") {
            Some(AgentRunStatus::Error)
        } else if str_eq(s, "cancelled") {
            Some(AgentRunStatus::Cancelled)
        } else if str_eq(s, "orphaned") {
            Some(AgentRunStatus::Orphaned)
        } else {
            None
        }
    }
}

/// Distinct run statuses have distinct names, so stored values read back
/// to the status written.
pub proof fn lemma_run_status_name_injective(a: AgentRunStatus, b: AgentRunStatus)
    ensures
        run_status_name(a) == run_status_name(b) ==> a == b,
{
    reveal_strlit("queued");
    reveal_strlit("running");
    reveal_strlit("done");
    reveal_strlit("error");
    reveal_strlit("cancelled");
    reveal_strlit("orphaned");
    if run_status_name(a) == run_status_name(b) && a != b {
        assert(run_status_name(a).len() == run_status_name(b).len());
        assert(run_status_name(a)[0] == run_status_name(b)[0]);
    }
}

/// A fully materialised row of `agent_runs`.
#[derive(Debug, Clone)]
pub struct AgentRun {
    pub run_id: String,
    pub agent_id: String,
    pub task_id: String,
    pub parent_run_id: Option<String>,
    pub status: AgentRunStatus,
    pub spawn_depth: i64,
    pub spawned_at: i64,
    pub heartbeat_at: Option<i64>,
    pub completed_at: Option<i64>,
    pub timeout_seconds: Option<i64>,
    pub error_taxonomy: Option<String>,
    pub outbox_json: Option<String>,
}

/// Fields the caller provides when creating a run; the status of a new
/// run is always `queued`.
#[derive(Debug, Clone)]
pub struct NewAgentRun {
    pub run_id: String,
    pub agent_id: String,
    pub task_id: String,
    pub parent_run_id: Option<String>,
    pub spawn_depth: i64,
    pub spawned_at: i64,
    pub timeout_seconds: Option<i64>,
}

} // verus!
