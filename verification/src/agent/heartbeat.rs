//! When the heartbeat of a running agent stops.
use vstd::prelude::*;

verus! {

/// How often a running agent's heartbeat is written, in seconds.
pub const HEARTBEAT_INTERVAL_SECS: u64 = 30;

/// What one heartbeat write came to.
#[derive(Debug, Clone, Copy, PartialEq, Eq, Structural)]
pub enum HeartbeatTick {
    /// The write touched this many rows.
    Touched(u64),
    /// The database failed; the orphan scan will catch a dead run.
    DbError,
    /// The background write itself failed.
    Crashed,
}

/// Whether the heartbeat goes on after a tick: it stops when the run is no
/// longer running (no row touched) or the write crashed.
pub fn keep_beating(tick: HeartbeatTick) -> (r: bool)
    ensures
        r == match tick {
            HeartbeatTick::Touched(n) => n > 0,
            HeartbeatTick::DbError => true,
            HeartbeatTick::Crashed => false,
        },
{
    match tick {
        HeartbeatTick::Touched(n) => n > 0,
        HeartbeatTick::DbError => true,
        HeartbeatTick::Crashed => false,
    }
}

} // verus!
