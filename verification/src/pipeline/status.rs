//! The nine-state lifecycle of a pipeline task.
use vstd::prelude::*;

use crate::text::{concat2, push_str, str_eq};

verus! {

/// Pipeline task status.
#[derive(Debug, Clone, Copy, PartialEq, Eq, Structural)]
pub enum TaskStatus {
    Created,
    Dispatched,
    Running,
    WaitingForVerification,
    Completed,
    NeedsHumanReview,
    Failed,
    Blocked,
    Discarded,
}

/// The stored name of a status.
pub open spec fn status_name(s: TaskStatus) -> Seq<char> {
    match s {
        TaskStatus::Created => "created"@,
        TaskStatus::Dispatched => "dispatched"@,
        TaskStatus::Running => "running"@,
        TaskStatus::WaitingForVerification => "waiting_for_verification"@,
        TaskStatus::Completed => "completed"@,
        TaskStatus::NeedsHumanReview => "needs_human_review"@,
        TaskStatus::Failed => "failed"@,
        TaskStatus::Blocked => "blocked"@,
        TaskStatus::Discarded => "discarded"@,
    }
}

/// States that admit no further transition.
pub open spec fn is_terminal(s: TaskStatus) -> bool {
    s == TaskStatus::Completed || s == TaskStatus::Failed || s == TaskStatus::Discarded
}

/// The lifecycle edges.
pub open spec fn is_edge(c: TaskStatus, n: TaskStatus) -> bool {
    match (c, n) {
        (TaskStatus::Created, TaskStatus::Dispatched) => true,
        (TaskStatus::Dispatched, TaskStatus::Running) => true,
        (TaskStatus::Running, TaskStatus::WaitingForVerification) => true,
        (TaskStatus::Running, TaskStatus::Failed) => true,
        (TaskStatus::Running, TaskStatus::Blocked) => true,
        (TaskStatus::WaitingForVerification, TaskStatus::Completed) => true,
        (TaskStatus::WaitingForVerification, TaskStatus::NeedsHumanReview) => true,
        (TaskStatus::WaitingForVerification, TaskStatus::Failed) => true,
        (TaskStatus::NeedsHumanReview, TaskStatus::Completed) => true,
        (TaskStatus::NeedsHumanReview, TaskStatus::Failed) => true,
        (TaskStatus::Blocked, TaskStatus::Dispatched) => true,
        (TaskStatus::Blocked, TaskStatus::Discarded) => true,
        _ => false,
    }
}

/// Whether `c -> n` is accepted: a lifecycle edge, or a self-transition of
/// a non-terminal state.
pub open spec fn transition_ok(c: TaskStatus, n: TaskStatus) -> bool {
    is_edge(c, n) || (!is_terminal(c) && c == n)
}

/// The message a rejected transition carries.
pub open spec fn transition_error(c: TaskStatus, n: TaskStatus) -> Seq<char> {
    if is_terminal(c) {
        "cannot transition from terminal state '"@ + status_name(c) + "'"@
    } else {
        "illegal transition: '"@ + status_name(c) + "' -> '"@ + status_name(n) + "'"@
    }
}

impl TaskStatus {
    pub fn as_str(&self) -> (r: &'static str)
        ensures
            r@ == status_name(*self),
    {
        match self {
            TaskStatus::Created => "created",
            TaskStatus::Dispatched => "dispatched",
            TaskStatus::Running => "running",
            TaskStatus::WaitingForVerification => "waiting_for_verification",
            TaskStatus::Completed => "completed",
            TaskStatus::NeedsHumanReview => "needs_human_review",
            TaskStatus::Failed => "failed",
            TaskStatus::Blocked => "blocked",
            TaskStatus::Discarded => "discarded",
        }
    }

    /// Parses a stored status name; `None` for anything else.
    pub fn parse_status(s: &str) -> (r: Option<Self>)
        ensures
            match r {
                Some(t) => s@ == status_name(t),
                None => forall|t: TaskStatus| s@ != status_name(t),
            },
    {
        if str_eq(s, "created") {
            Some(TaskStatus::Created)
        } else if str_eq(s, "dispatched") {
            Some(TaskStatus::Dispatched)
        } else if str_eq(s, "running") {
            Some(TaskStatus::Running)
        } else if str_eq(s, "waiting_for_verification") {
            Some(TaskStatus::WaitingForVerification)
        } else if str_eq(s, "completed") {
            Some(TaskStatus::Completed)
        } else if str_eq(s, "needs_human_review") {
            Some(TaskStatus::NeedsHumanReview)
        } else if str_eq(s, "failed") {
            Some(TaskStatus::Failed)
        } else if str_eq(s, "blocked") {
            Some(TaskStatus::Blocked)
        } else if str_eq(s, "discarded") {
            Some(TaskStatus::Discarded)
        } else {
            assert forall|t: TaskStatus| s@ != status_name(t) by {
                match t {
                    TaskStatus::Created => {},
                    _ => {},
                }
            }
            None
        }
    }

    /// Validates a transition from `current` to `next`, returning `next`
    /// when it is allowed and a reason otherwise.
    pub fn transition(current: &TaskStatus, next: &TaskStatus) -> (r: Result<TaskStatus, String>)
        ensures
            transition_ok(*current, *next) ==> r == Ok::<TaskStatus, String>(*next),
            !transition_ok(*current, *next) ==> (r matches Err(m) && m@ == transition_error(
                *current,
                *next,
            )),
    {
        let c = *current;
        let n = *next;
        let edge = match (c, n) {
            (TaskStatus::Created, TaskStatus::Dispatched) => true,
            (TaskStatus::Dispatched, TaskStatus::Running) => true,
            (TaskStatus::Running, TaskStatus::WaitingForVerification) => true,
            (TaskStatus::Running, TaskStatus::Failed) => true,
            (TaskStatus::Running, TaskStatus::Blocked) => true,
            (TaskStatus::WaitingForVerification, TaskStatus::Completed) => true,
            (TaskStatus::WaitingForVerification, TaskStatus::NeedsHumanReview) => true,
            (TaskStatus::WaitingForVerification, TaskStatus::Failed) => true,
            (TaskStatus::NeedsHumanReview, TaskStatus::Completed) => true,
            (TaskStatus::NeedsHumanReview, TaskStatus::Failed) => true,
            (TaskStatus::Blocked, TaskStatus::Dispatched) => true,
            (TaskStatus::Blocked, TaskStatus::Discarded) => true,
            _ => false,
        };
        if edge {
            return Ok(n);
        }
        let terminal = c == TaskStatus::Completed || c == TaskStatus::Failed || c
            == TaskStatus::Discarded;
        if terminal {
            let mut m = String::from_str("cannot transition from terminal state '");
            push_str(&mut m, c.as_str());
            push_str(&mut m, "'");
            return Err(m);
        }
        if c == n {
            return Ok(n);
        }
        let mut m = String::from_str("illegal transition: '");
        push_str(&mut m, c.as_str());
        push_str(&mut m, "' -> '");
        push_str(&mut m, n.as_str());
        push_str(&mut m, "'");
        Err(m)
    }
}

/// Distinct statuses have distinct names.
pub proof fn lemma_status_name_injective(t: TaskStatus, u: TaskStatus)
    ensures
        status_name(t) == status_name(u) ==> t == u,
{
    reveal_strlit("created");
    reveal_strlit("dispatched");
    reveal_strlit("running");
    reveal_strlit("waiting_for_verification");
    reveal_strlit("completed");
    reveal_strlit("needs_human_review");
    reveal_strlit("failed");
    reveal_strlit("blocked");
    reveal_strlit("discarded");
    if status_name(t) == status_name(u) && t != u {
        assert(status_name(t).len() == status_name(u).len());
        assert(status_name(t)[0] == status_name(u)[0]);
    }
}

/// Parsing the name of a status gives that status back: any result that
/// meets the contract of [`TaskStatus::parse_status`] on `status_name(t)`
/// is `Some(t)`.
pub proof fn lemma_parse_roundtrip(t: TaskStatus, r: Option<TaskStatus>)
    requires
        match r {
            Some(u) => status_name(t) == status_name(u),
            None => forall|u: TaskStatus| #[trigger] status_name(u) != status_name(t),
        },
    ensures
        r == Some(t),
{
    match r {
        Some(u) => lemma_status_name_injective(t, u),
        None => {
            let x = status_name(t);
            assert(x != status_name(t));
        },
    }
}

/// The lifecycle's edges, as a table: created → dispatched → running;
/// running → waiting for verification, failed or blocked; waiting for
/// verification → completed, needs human review or failed; needs human
/// review → completed or failed; blocked → dispatched (a retry) or
/// discarded.  Each is accepted, and so is staying in a non-terminal
/// state; every other move is refused.
pub proof fn lemma_lifecycle_table(c: TaskStatus, n: TaskStatus)
    ensures
        transition_ok(TaskStatus::Created, TaskStatus::Dispatched),
        transition_ok(TaskStatus::Dispatched, TaskStatus::Running),
        transition_ok(TaskStatus::Running, TaskStatus::WaitingForVerification),
        transition_ok(TaskStatus::Running, TaskStatus::Failed),
        transition_ok(TaskStatus::Running, TaskStatus::Blocked),
        transition_ok(TaskStatus::WaitingForVerification, TaskStatus::Completed),
        transition_ok(TaskStatus::WaitingForVerification, TaskStatus::NeedsHumanReview),
        transition_ok(TaskStatus::WaitingForVerification, TaskStatus::Failed),
        transition_ok(TaskStatus::NeedsHumanReview, TaskStatus::Completed),
        transition_ok(TaskStatus::NeedsHumanReview, TaskStatus::Failed),
        transition_ok(TaskStatus::Blocked, TaskStatus::Dispatched),
        transition_ok(TaskStatus::Blocked, TaskStatus::Discarded),
        transition_ok(c, n) <==> {
            ||| (c == n && c != TaskStatus::Completed && c != TaskStatus::Failed && c != TaskStatus::Discarded)
            ||| (c == TaskStatus::Created && n == TaskStatus::Dispatched)
            ||| (c == TaskStatus::Dispatched && n == TaskStatus::Running)
            ||| (c == TaskStatus::Running && (n == TaskStatus::WaitingForVerification || n == TaskStatus::Failed
                || n == TaskStatus::Blocked))
            ||| (c == TaskStatus::WaitingForVerification && (n == TaskStatus::Completed || n
                == TaskStatus::NeedsHumanReview || n == TaskStatus::Failed))
            ||| (c == TaskStatus::NeedsHumanReview && (n == TaskStatus::Completed || n == TaskStatus::Failed))
            ||| (c == TaskStatus::Blocked && (n == TaskStatus::Dispatched || n == TaskStatus::Discarded))
        },
{
}

/// Terminal states absorb: nothing leaves them, not even a self-transition.
pub proof fn lemma_terminal_absorbing(c: TaskStatus, n: TaskStatus)
    requires
        is_terminal(c),
    ensures
        !transition_ok(c, n),
{
}

/// Every state can reach a terminal state along accepted transitions.
pub proof fn lemma_terminal_reachable(c: TaskStatus)
    ensures
        is_terminal(c) || transition_ok(c, TaskStatus::Failed) || transition_ok(
            c,
            TaskStatus::Discarded,
        ) || (transition_ok(c, TaskStatus::Dispatched) && transition_ok(
            TaskStatus::Dispatched,
            TaskStatus::Running,
        ) && transition_ok(TaskStatus::Running, TaskStatus::Failed)) || (transition_ok(
            c,
            TaskStatus::Running,
        ) && transition_ok(TaskStatus::Running, TaskStatus::Failed)),
{
}

/// The checks of a status update: the new status must be known, the task
/// must exist (`current` is its status, `None` when there is no such
/// task), and the transition must be allowed.  Gives the new status.
pub fn check_update(task_id: &str, next: &str, current: Option<TaskStatus>) -> (r: Result<TaskStatus, String>)
    ensures
        (forall|t: TaskStatus| next@ != status_name(t)) ==> (r matches Err(m) && m@ == "invalid task status: "@
            + next@),
        forall|n: TaskStatus|
            #![trigger status_name(n)]
            next@ == status_name(n) ==> match current {
                None => r matches Err(m) && m@ == "task not found: "@ + task_id@,
                Some(c) => if transition_ok(c, n) {
                    r == Ok::<TaskStatus, String>(n)
                } else {
                    r matches Err(m) && m@ == transition_error(c, n)
                },
            },
{
    proof {
        assert forall|a: TaskStatus, b: TaskStatus| status_name(a) == status_name(b) implies a == b by {
            lemma_status_name_injective(a, b);
        }
    }
    let n = match TaskStatus::parse_status(next) {
        Some(n) => n,
        None => return Err(concat2("invalid task status: ", next)),
    };
    let c = match current {
        Some(c) => c,
        None => return Err(concat2("task not found: ", task_id)),
    };
    TaskStatus::transition(&c, &n)
}

} // verus!

verus! {

/// A row of the task table.
#[derive(Debug, Clone)]
pub struct TaskRow {
    pub id: i64,
    pub task_id: String,
    pub agent_id: Option<String>,
    pub status: TaskStatus,
    pub created_at: i64,
    pub updated_at: i64,
}

impl TaskRow {
    /// A row from the table's columns; the status column is read with
    /// [`TaskStatus::parse_status`], an unknown text read as `created`.
    pub fn from_columns(
        id: i64,
        task_id: String,
        agent_id: Option<String>,
        status: &str,
        created_at: i64,
        updated_at: i64,
    ) -> (r: Self)
        ensures
            r.id == id,
            r.task_id == task_id,
            r.agent_id == agent_id,
            status_name(r.status) == status@ || (r.status == TaskStatus::Created && forall|t: TaskStatus|
                status@ != status_name(t)),
            r.created_at == created_at,
            r.updated_at == updated_at,
    {
        let st = match TaskStatus::parse_status(status) {
            Some(t) => t,
            None => TaskStatus::Created,
        };
        TaskRow { id, task_id, agent_id, status: st, created_at, updated_at }
    }
}

} // verus!
