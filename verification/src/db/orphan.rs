//! Which runs the orphan scan takes: running runs whose heartbeat (or,
//! without one, whose start) is older than the cutoff.
use vstd::prelude::*;

use crate::db::registry::AgentRunStatus;

verus! {

pub open spec fn stale(status: AgentRunStatus, heartbeat_at: Option<i64>, spawned_at: i64, cutoff: i64) -> bool {
    status == AgentRunStatus::Running && match heartbeat_at {
        Some(h) => h < cutoff,
        None => spawned_at < cutoff,
    }
}

/// Whether a run has stopped beating and is to be marked orphaned.
pub fn is_stale(status: AgentRunStatus, heartbeat_at: Option<i64>, spawned_at: i64, cutoff: i64) -> (r: bool)
    ensures
        r == stale(status, heartbeat_at, spawned_at, cutoff),
{
    match status {
        AgentRunStatus::Running => match heartbeat_at {
            Some(h) => h < cutoff,
            None => spawned_at < cutoff,
        },
        _ => false,
    }
}

} // verus!
