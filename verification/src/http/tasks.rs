//! The rules of the task endpoints: reading the list query, checking a
//! new task request and building its card, and deciding each poll of a
//! wait.
use vstd::prelude::*;

use crate::db::registry::{run_status_name, AgentRunStatus};
use crate::ipc::protocol::{parse_u32, u32_parse};
use crate::json::{member_str, object_is, push_field, FieldV, JsonValue};
use crate::text::{chars_of, concat2, concat3, push_str, str_eq, trim, trim_str};
use crate::types::{ProjectContext, SafetyRules, TaskCard, TaskContext};

verus! {

/// The filter a task list is read with.
#[derive(Debug)]
pub struct ListRunsFilter {
    pub status: Option<AgentRunStatus>,
    pub agent_id: Option<String>,
    pub limit: u32,
}

/// The status filter: none when absent or empty; otherwise it must name a
/// run status.
pub open spec fn status_query(q: Option<Seq<char>>) -> Result<Option<AgentRunStatus>, Seq<char>> {
    match q {
        None => Ok(None),
        Some(s) => if s.len() == 0 {
            Ok(None)
        } else if exists|t: AgentRunStatus| #[trigger] run_status_name(t) == s {
            Ok(Some(choose|t: AgentRunStatus| #[trigger] run_status_name(t) == s))
        } else {
            Err("invalid status: "@ + s)
        },
    }
}

/// The limit: 50 when absent or empty; otherwise a number from 1 to 100.
pub open spec fn limit_query(q: Option<Seq<char>>) -> Result<u32, Seq<char>> {
    match q {
        None => Ok(50),
        Some(s) => if s.len() == 0 {
            Ok(50)
        } else {
            match u32_parse(s) {
                Some(n) => if 1 <= n <= 100 {
                    Ok(n)
                } else {
                    Err("limit must be 1..=100, got "@ + s)
                },
                None => Err("limit must be 1..=100, got "@ + s),
            }
        },
    }
}

pub open spec fn opt_view(o: Option<&str>) -> Option<Seq<char>> {
    match o {
        Some(s) => Some(s@),
        None => None,
    }
}

proof fn lemma_status_names_distinct()
    ensures
        forall|a: AgentRunStatus, b: AgentRunStatus|
            #[trigger] run_status_name(a) == #[trigger] run_status_name(b) ==> a == b,
{
    assert forall|a: AgentRunStatus, b: AgentRunStatus|
        #[trigger] run_status_name(a) == #[trigger] run_status_name(b) implies a == b by {
        crate::db::registry::lemma_run_status_name_injective(a, b);
    }
}

/// Reads the list query; an error is the message of a 400 answer.
pub fn list_filter(status: Option<&str>, agent_id: Option<&str>, limit: Option<&str>) -> (r: Result<
    ListRunsFilter,
    String,
>)
    ensures
        status_query(opt_view(status)) is Err ==> (r matches Err(m) && Err::<(), Seq<char>>(m@)
            == match status_query(opt_view(status)) {
            Err(e) => Err::<(), Seq<char>>(e),
            Ok(_) => Ok(()),
        }),
        status_query(opt_view(status)) is Ok && limit_query(opt_view(limit)) is Err ==> (r matches Err(
            m,
        ) && Err::<(), Seq<char>>(m@) == match limit_query(opt_view(limit)) {
            Err(e) => Err::<(), Seq<char>>(e),
            Ok(_) => Ok(()),
        }),
        r matches Ok(f) ==> {
            &&& status_query(opt_view(status)) == Ok::<Option<AgentRunStatus>, Seq<char>>(f.status)
            &&& limit_query(opt_view(limit)) == Ok::<u32, Seq<char>>(f.limit)
            &&& match agent_id {
                Some(a) => if a@.len() > 0 {
                    f.agent_id matches Some(x) && x@ == a@
                } else {
                    f.agent_id is None
                },
                None => f.agent_id is None,
            }
        },
        (status_query(opt_view(status)) is Ok && limit_query(opt_view(limit)) is Ok) ==> r is Ok,
{
    proof {
        lemma_status_names_distinct();
    }
    let st = match status {
        None => None,
        Some(s) => if s.is_empty() {
            None
        } else {
            match AgentRunStatus::parse_status(s) {
                Some(t) => Some(t),
                None => return Err(concat2("invalid status: ", s)),
            }
        },
    };
    let lim: u32 = match limit {
        None => 50,
        Some(s) => if s.is_empty() {
            50
        } else {
            let cs = chars_of(s);
            match parse_u32(cs.as_slice()) {
                Some(n) => if 1 <= n && n <= 100 {
                    n
                } else {
                    return Err(concat2("limit must be 1..=100, got ", s));
                },
                None => return Err(concat2("limit must be 1..=100, got ", s)),
            }
        },
    };
    let agent = match agent_id {
        Some(a) => if a.is_empty() {
            None
        } else {
            Some(String::from_str(a))
        },
        None => None,
    };
    Ok(ListRunsFilter { status: st, agent_id: agent, limit: lim })
}

/// The goal of a new task: the trimmed goal, followed by the trimmed
/// context when one is given.
pub open spec fn goal_text(goal: Seq<char>, context: Option<Seq<char>>) -> Seq<char> {
    match context {
        Some(c) => trim(goal) + "\n\nContext: "@ + trim(c),
        None => trim(goal),
    }
}

/// Checks a new task request: the agent and the goal must not be blank.
/// Gives the trimmed agent id and the goal text.
pub fn create_task_fields(agent_id: &str, goal: &str, context: Option<&str>) -> (r: Result<
    (String, String),
    String,
>)
    ensures
        trim(agent_id@).len() == 0 ==> (r matches Err(m) && m@ == "agent_id must not be empty"@),
        trim(agent_id@).len() > 0 && trim(goal@).len() == 0 ==> (r matches Err(m) && m@
            == "goal must not be empty"@),
        trim(agent_id@).len() > 0 && trim(goal@).len() > 0 ==> (r matches Ok((a, g)) && a@ == trim(
            agent_id@,
        ) && g@ == goal_text(goal@, opt_view(context))),
{
    let a = trim_str(agent_id);
    if a.as_str().is_empty() {
        return Err(String::from_str("agent_id must not be empty"));
    }
    let g = trim_str(goal);
    if g.as_str().is_empty() {
        return Err(String::from_str("goal must not be empty"));
    }
    let text = match context {
        Some(c) => {
            let tc = trim_str(c);
            let mut t = concat2(g.as_str(), "\n\nContext: ");
            push_str(&mut t, tc.as_str());
            t
        },
        None => g,
    };
    Ok((a, text))
}

fn single_member(key: &str, value: JsonValue) -> (r: JsonValue)
    ensures
        r matches JsonValue::Object(e) && e@.len() == 1 && e@[0].0@ == key@ && e@[0].1 == value,
{
    let mut es: Vec<(String, JsonValue)> = Vec::new();
    es.push((String::from_str(key), value));
    JsonValue::Object(es)
}

/// The card of a task created over HTTP.
pub fn http_task_card(task_id: String, agent_id: &str, goal: String, ts: String) -> (r: TaskCard)
    ensures
        r.schema_version@ == "2.8"@,
        r.task_card_id == task_id,
        r.project@ == "http-api"@,
        r.created_at == ts,
        r.status@ == "created"@,
        r.goal@ == goal@,
        member_str(r.compiled_intent, "action"@) == Some(goal@),
        member_str(r.execution_plan, "primary_agent"@) == Some(agent_id@),
        object_is(r.compiled_intent, seq![("action"@, FieldV::Str(goal@))]),
        object_is(r.execution_plan, seq![("primary_agent"@, FieldV::Str(agent_id@))]),
        object_is(r.context.user_preferences, Seq::empty()),
        r.context.project_context.name@ == "http-api"@,
        object_is(r.context.project_context.data, Seq::empty()),
        r.context.project_context.global_must_avoid@.len() == 0,
        r.context.relevant_feedback matches JsonValue::Array(a) && a@.len() == 0,
        object_is(r.acceptance_criteria, Seq::empty()),
        object_is(r.output_contract, Seq::empty()),
        object_is(r.review_gate_criteria, Seq::empty()),
        r.allowed_files@.len() == 0,
        r.safety.allowed_paths@.len() == 0,
        r.safety.denied_commands@.len() == 0,
{
    let intent = single_member("action", JsonValue::String(goal.clone()));
    let plan = single_member("primary_agent", JsonValue::String(String::from_str(agent_id)));
    TaskCard {
        schema_version: String::from_str("2.8"),
        task_card_id: task_id,
        project: String::from_str("http-api"),
        created_at: ts,
        status: String::from_str("created"),
        goal,
        compiled_intent: intent,
        context: TaskContext {
            user_preferences: JsonValue::Object(Vec::new()),
            project_context: ProjectContext {
                name: String::from_str("http-api"),
                data: JsonValue::Object(Vec::new()),
                global_must_avoid: Vec::new(),
            },
            relevant_feedback: JsonValue::Array(Vec::new()),
        },
        execution_plan: plan,
        acceptance_criteria: JsonValue::Object(Vec::new()),
        allowed_files: Vec::new(),
        safety: SafetyRules { allowed_paths: Vec::new(), denied_commands: Vec::new() },
        output_contract: JsonValue::Object(Vec::new()),
        review_gate_criteria: JsonValue::Object(Vec::new()),
    }
}

/// What one poll of a wait decides.
#[derive(Debug)]
pub enum WaitStep {
    /// The run is finished: answer with it.
    Finished,
    /// Poll again later.
    KeepWaiting,
    /// No such run (404).
    NotFound(String),
    /// Still running at the deadline (408).
    TimedOut(String),
}

/// Whether a run has finished.
pub open spec fn terminal(s: AgentRunStatus) -> bool {
    s == AgentRunStatus::Done || s == AgentRunStatus::Error || s == AgentRunStatus::Cancelled
}

/// One poll of a wait: `status` is the run's status, `None` when there is
/// no such run; `past_deadline` tells whether the wait is over.
pub fn wait_step(run_id: &str, status: Option<AgentRunStatus>, past_deadline: bool) -> (r: WaitStep)
    ensures
        match status {
            None => r matches WaitStep::NotFound(m) && m@ == "run not found: "@ + run_id@,
            Some(s) => if terminal(s) {
                r is Finished
            } else if past_deadline {
                r matches WaitStep::TimedOut(m) && m@ == "task still running (status: "@
                    + run_status_name(s) + "), poll GET /api/tasks/"@ + run_id@
            } else {
                r is KeepWaiting
            },
        },
{
    match status {
        None => WaitStep::NotFound(concat2("run not found: ", run_id)),
        Some(s) => {
            let done = match s {
                AgentRunStatus::Done | AgentRunStatus::Error | AgentRunStatus::Cancelled => true,
                _ => false,
            };
            if done {
                WaitStep::Finished
            } else if past_deadline {
                let mut m = concat3("task still running (status: ", s.as_str(), "), poll GET /api/tasks/");
                push_str(&mut m, run_id);
                WaitStep::TimedOut(m)
            } else {
                WaitStep::KeepWaiting
            }
        },
    }
}

/// The run id of a detail request must not be empty.
pub fn check_run_id(run_id: &str) -> (r: Result<(), String>)
    ensures
        (r is Ok) == (run_id@.len() > 0),
        r matches Err(m) ==> m@ == "run_id must not be empty"@,
{
    if run_id.is_empty() {
        Err(String::from_str("run_id must not be empty"))
    } else {
        Ok(())
    }
}

} // verus!
