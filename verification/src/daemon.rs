//! The daemon's decisions around the runs of a task: what the router
//! takes in for a failure, and what follows from its action.
use vstd::prelude::*;

use crate::agent::steps::{retry_feedback, retry_feedback_text};
use crate::error::{agent_code, code_name, AgentError};
use crate::gate::{classify_semantic_tags, route_spec, tags_for, GateAction, GateContext, GateRouter};
use crate::text::lowercase;
use crate::text::{concat2, concat3, push_str};
use crate::db::registry::NewAgentRun;

verus! {

/// Where a task's attempts stand: retries so far and the agent at work.
#[derive(Debug)]
pub struct AttemptState {
    pub retry_count: u32,
    pub agent_id: String,
}

/// What follows a failed attempt.
#[derive(Debug)]
pub enum AfterFailure {
    /// Report the failure (`task.error`) with this taxonomy and detail,
    /// and mark the task failed.
    Report { taxonomy: &'static str, detail: String },
    /// Run another attempt with `agent_id`, telling it `feedback` first;
    /// `switched` when the router moved the task to another agent.
    Retry { agent_id: String, feedback: String, switched: bool },
}

/// Gate input for a failed run.
pub fn gate_context(state: &AttemptState, task_id: &str, error: &AgentError) -> (r: GateContext)
    ensures
        r.error_code == agent_code(*error),
        r.agent_id == state.agent_id,
        r.task_id@ == task_id@,
        r.retry_count == state.retry_count,
        r.semantic_tags@ == tags_for(agent_code(*error), lowercase(error.detail@)),
{
    GateContext {
        error_code: error.error_code(),
        agent_id: state.agent_id.clone(),
        task_id: String::from_str(task_id),
        retry_count: state.retry_count,
        semantic_tags: classify_semantic_tags(error),
    }
}

/// The verdict on a failed attempt and the state it leaves: a hard stop
/// reports the error under its taxonomy; switching moves to the named
/// agent, telling it which agent failed and why; a revision retries the
/// same agent with the failure detail.  Every retry counts one more.
pub fn after_failure(router: &GateRouter, state: AttemptState, ctx: &GateContext, error: &AgentError) -> (r: (
    AttemptState,
    AfterFailure,
))
    requires
        ctx.retry_count == state.retry_count,
    ensures
        match route_spec(*router, *ctx) {
            GateAction::HardStop => {
                &&& r.0 == state
                &&& r.1 matches AfterFailure::Report { taxonomy, detail } && taxonomy@ == code_name(
                    agent_code(*error),
                ) && detail == error.detail
            },
            GateAction::SwitchAgent { agent_id } => {
                &&& r.0.retry_count == state.retry_count + 1
                &&& r.0.agent_id == agent_id
                &&& r.1 matches AfterFailure::Retry { agent_id: a, feedback, switched } && a == agent_id
                    && switched && feedback@ == retry_feedback_text(
                    "Previous agent '"@ + state.agent_id@ + "' failed: "@ + error.detail@,
                )
            },
            GateAction::AutoRevision => {
                &&& r.0.retry_count == state.retry_count + 1
                &&& r.0.agent_id == state.agent_id
                &&& r.1 matches AfterFailure::Retry { agent_id: a, feedback, switched } && a == state.agent_id
                    && !switched && feedback@ == retry_feedback_text(error.detail@)
            },
        },
{
    match router.route(ctx) {
        GateAction::HardStop => {
            let taxonomy = error.error_code().as_str();
            (state, AfterFailure::Report { taxonomy, detail: error.detail.clone() })
        },
        GateAction::SwitchAgent { agent_id } => {
            let why = concat3("Previous agent '", state.agent_id.as_str(), "' failed: ");
            let mut text = why;
            crate::text::push_str(&mut text, error.detail.as_str());
            let feedback = retry_feedback(text.as_str());
            let next = AttemptState { retry_count: state.retry_count + 1, agent_id: agent_id.clone() };
            (next, AfterFailure::Retry { agent_id, feedback, switched: true })
        },
        GateAction::AutoRevision => {
            let feedback = retry_feedback(error.detail.as_str());
            let agent_id = state.agent_id.clone();
            let next = AttemptState { retry_count: state.retry_count + 1, agent_id: state.agent_id };
            (next, AfterFailure::Retry { agent_id, feedback, switched: false })
        },
    }
}

} // verus!

verus! {

/// Seconds a run may take before it is timed out.
pub const TASK_TIMEOUT_SECS: i64 = 300;

/// What happened to the last thing starting a task asked for.
pub enum SpawnEvent {
    /// The agent runtime was built, or the text of why not.
    Built(Result<(), String>),
    /// The first run's row was stored, or the text of why not.
    RunInserted(Result<(), String>),
    /// The pipeline's task row was created and moved to `running`, or the
    /// text of why not.
    TaskCreated(Result<(), String>),
}

/// What starting a task does next.
pub enum SpawnAction {
    /// Store the first run's row ([`first_run`]).
    InsertRun,
    /// Create the pipeline's task row and move it to `running`.
    CreateTask,
    /// Start the attempts.
    Launch,
    /// Start the attempts after logging this line: the pipeline row is
    /// bookkeeping, so its failure does not stop the task.
    LogAndLaunch(String),
    /// Refuse the dispatch: the request is answered with this detail.
    Refuse(String),
}

/// One step of starting a dispatched task: build the runtime, store the
/// first run, create the pipeline row, launch.  A failure to build or to
/// store the run refuses the dispatch; a failure to create the pipeline
/// row is logged and the task still runs.
pub fn spawn_step(task_id: &str, ev: SpawnEvent) -> (r: SpawnAction)
    ensures
        match ev {
            SpawnEvent::Built(Ok(())) => r is InsertRun,
            SpawnEvent::Built(Err(e)) => r matches SpawnAction::Refuse(m) && m@
                == "failed to build AgentLoop: "@ + e@,
            SpawnEvent::RunInserted(Ok(())) => r is CreateTask,
            SpawnEvent::RunInserted(Err(e)) => r matches SpawnAction::Refuse(m) && m@
                == "failed to insert agent_runs row: "@ + e@,
            SpawnEvent::TaskCreated(Ok(())) => r is Launch,
            SpawnEvent::TaskCreated(Err(e)) => r matches SpawnAction::LogAndLaunch(m) && m@
                == "daedalusd pipeline: failed to create task "@ + task_id@ + ": "@ + e@,
        },
{
    match ev {
        SpawnEvent::Built(Ok(())) => SpawnAction::InsertRun,
        SpawnEvent::Built(Err(e)) => SpawnAction::Refuse(concat2("failed to build AgentLoop: ", e.as_str())),
        SpawnEvent::RunInserted(Ok(())) => SpawnAction::CreateTask,
        SpawnEvent::RunInserted(Err(e)) => SpawnAction::Refuse(
            concat2("failed to insert agent_runs row: ", e.as_str()),
        ),
        SpawnEvent::TaskCreated(Ok(())) => SpawnAction::Launch,
        SpawnEvent::TaskCreated(Err(e)) => {
            let mut m = concat3("daedalusd pipeline: failed to create task ", task_id, ": ");
            push_str(&mut m, e.as_str());
            SpawnAction::LogAndLaunch(m)
        },
    }
}

/// The row of a task's first run: no parent, depth 0, the default timeout.
pub fn first_run(run_id: String, agent_id: String, task_id: String, now: i64) -> (r: NewAgentRun)
    ensures
        r.run_id == run_id,
        r.agent_id == agent_id,
        r.task_id == task_id,
        r.parent_run_id is None,
        r.spawn_depth == 0,
        r.spawned_at == now,
        r.timeout_seconds == Some(TASK_TIMEOUT_SECS),
{
    NewAgentRun {
        run_id,
        agent_id,
        task_id,
        parent_run_id: None,
        spawn_depth: 0,
        spawned_at: now,
        timeout_seconds: Some(TASK_TIMEOUT_SECS),
    }
}

} // verus!
