//! The decisions of the agent loop: what follows a model reply or a tool
//! result, when the loop gives up, which tools an agent may use, and the
//! outbox a finished task hands back.
use vstd::prelude::*;

use crate::error::{AgentError, ErrorKind};
use crate::json::{member, str_of, JsonValue};
use crate::text::{concat2, concat3, push_str, str_eq};
use crate::types::{ChatMessage, Outbox};

verus! {

/// How many model round-trips one attempt may take.
pub const MAX_ITERATIONS: u32 = 30;

/// The outbox of a finished task: schema 2.8, the task and agent, waiting
/// for verification, the summary, nothing changed or reported, and no
/// human review asked for.
pub open spec fn done_outbox(o: Outbox, task_id: Seq<char>, agent_id: Seq<char>, summary: Seq<char>) -> bool {
    &&& o.schema_version@ == "2.8"@
    &&& o.task_id@ == task_id
    &&& o.agent_id@ == agent_id
    &&& o.status@ == "waiting_for_verification"@
    &&& o.summary@ == summary
    &&& o.changed_files@.len() == 0
    &&& o.changed_files_source@ == "unknown"@
    &&& (o.verification matches JsonValue::Object(e) && e@.len() == 0)
    &&& (o.evidence matches JsonValue::Object(e) && e@.len() == 0)
    &&& o.known_risks@.len() == 0
    &&& o.errors@.len() == 0
    &&& o.error_taxonomy@.len() == 0
    &&& !o.needs_human_review
    &&& o.notes@.len() == 0
}

/// Builds the outbox of a finished task.
#[derive(Debug)]
pub struct OutboxBuilder {
    pub task_id: String,
    pub agent_id: String,
}

impl OutboxBuilder {
    pub fn new(task_id: String, agent_id: String) -> (r: Self)
        ensures
            r.task_id == task_id,
            r.agent_id == agent_id,
    {
        OutboxBuilder { task_id, agent_id }
    }

    /// The outbox for the final summary: schema 2.8, waiting for
    /// verification, nothing changed or reported yet.
    pub fn build(self, summary: String) -> (r: Outbox)
        ensures
            r.schema_version@ == "2.8"@,
            r.task_id == self.task_id,
            r.agent_id == self.agent_id,
            r.status@ == "waiting_for_verification"@,
            r.summary == summary,
            r.changed_files@.len() == 0,
            r.changed_files_source@ == "unknown"@,
            r.verification matches JsonValue::Object(e) && e@.len() == 0,
            r.evidence matches JsonValue::Object(e) && e@.len() == 0,
            r.known_risks@.len() == 0,
            r.errors@.len() == 0,
            r.error_taxonomy@.len() == 0,
            !r.needs_human_review,
            r.notes@.len() == 0,
            done_outbox(r, self.task_id@, self.agent_id@, summary@),
    {
        Outbox {
            schema_version: String::from_str("2.8"),
            task_id: self.task_id,
            agent_id: self.agent_id,
            status: String::from_str("waiting_for_verification"),
            summary,
            changed_files: Vec::new(),
            changed_files_source: String::from_str("unknown"),
            verification: JsonValue::Object(Vec::new()),
            evidence: JsonValue::Object(Vec::new()),
            known_risks: Vec::new(),
            errors: Vec::new(),
            error_taxonomy: Vec::new(),
            needs_human_review: false,
            notes: Vec::new(),
        }
    }
}

/// The system message that tells a retried attempt why the previous one
/// failed.
pub open spec fn retry_feedback_text(detail: Seq<char>) -> Seq<char> {
    "Previous attempt failed: "@ + detail + "\nPlease analyse the failure and try a different approach."@
}

pub fn retry_feedback(detail: &str) -> (r: String)
    ensures
        r@ == retry_feedback_text(detail@),
{
    concat3(
        "Previous attempt failed: ",
        detail,
        "\nPlease analyse the failure and try a different approach.",
    )
}

/// The strings of the task's `must_keep` list (anything else in it is
/// skipped; no list gives none).
pub open spec fn must_keep_spec(intent: JsonValue) -> Seq<Seq<char>> {
    match member(intent, "must_keep"@) {
        Some(JsonValue::Array(items)) => strings_in(items@),
        _ => seq![],
    }
}

pub open spec fn strings_in(items: Seq<JsonValue>) -> Seq<Seq<char>>
    decreases items.len(),
{
    if items.len() == 0 {
        seq![]
    } else {
        let rest = strings_in(items.drop_last());
        match str_of(items.last()) {
            Some(s) => rest.push(s),
            None => rest,
        }
    }
}

pub fn must_keep_of(compiled_intent: &JsonValue) -> (r: Vec<String>)
    ensures
        r@.map_values(|s: String| s@) == must_keep_spec(*compiled_intent),
{
    let mut out: Vec<String> = Vec::new();
    let items = match compiled_intent.get("must_keep") {
        Some(v) => match v.as_array() {
            Some(a) => a,
            None => {
                assert(out@.map_values(|s: String| s@) =~= must_keep_spec(*compiled_intent));
                return out;
            },
        },
        None => {
            assert(out@.map_values(|s: String| s@) =~= must_keep_spec(*compiled_intent));
            return out;
        },
    };
    let mut i: usize = 0;
    while i < items.len()
        invariant
            i <= items@.len(),
            out@.map_values(|s: String| s@) == strings_in(items@.subrange(0, i as int)),
        decreases items@.len() - i,
    {
        proof {
            assert(items@.subrange(0, i + 1).drop_last() =~= items@.subrange(0, i as int));
        }
        match items[i].as_str() {
            Some(s) => {
                let ghost before = out@;
                out.push(String::from_str(s));
                assert(out@.map_values(|s: String| s@) =~= before.map_values(|s: String| s@).push(s@));
            },
            None => {},
        }
        i = i + 1;
    }
    assert(items@.subrange(0, items@.len() as int) =~= items@);
    out
}

/// Counts one more model round-trip; past [`MAX_ITERATIONS`] the attempt
/// fails with `MaxIterations`.
pub fn next_iteration(iteration: u32) -> (r: Result<u32, AgentError>)
    ensures
        iteration < MAX_ITERATIONS ==> r == Ok::<u32, AgentError>((iteration + 1) as u32),
        iteration >= MAX_ITERATIONS ==> (r matches Err(e) && e.reason == ErrorKind::MaxIterations
            && e.detail@ == "exceeded 30 LLM round-trips"@ && e.provider_error is None),
{
    if iteration >= MAX_ITERATIONS {
        Err(
            AgentError {
                reason: ErrorKind::MaxIterations,
                detail: String::from_str("exceeded 30 LLM round-trips"),
                provider_error: None,
            },
        )
    } else {
        Ok(iteration + 1)
    }
}

/// What the loop does after a tool ran.
#[derive(Debug, Clone, Copy, PartialEq, Eq, Structural)]
pub enum AfterTool {
    /// `task_done` succeeded: its output is the summary; pending calls are dropped.
    Respond,
    /// Run the next pending tool call.
    NextTool,
    /// Send the conversation back to the model.
    AskModel,
}

pub fn after_tool_result(tool_name: &str, is_error: bool, pending: usize) -> (r: AfterTool)
    ensures
        r == (if tool_name@ == "task_done"@ && !is_error {
            AfterTool::Respond
        } else if pending > 0 {
            AfterTool::NextTool
        } else {
            AfterTool::AskModel
        }),
{
    if str_eq(tool_name, "task_done") && !is_error {
        AfterTool::Respond
    } else if pending > 0 {
        AfterTool::NextTool
    } else {
        AfterTool::AskModel
    }
}

/// The contents of the assistant messages, joined by newlines.
pub open spec fn assistant_join(ms: Seq<ChatMessage>) -> Seq<char>
    decreases ms.len(),
{
    if ms.len() == 0 {
        seq![]
    } else {
        let rest = assistant_join(ms.drop_last());
        if ms.last().role@ == "assistant"@ {
            if assistant_count(ms.drop_last()) == 0 {
                ms.last().content@
            } else {
                rest + "\n"@ + ms.last().content@
            }
        } else {
            rest
        }
    }
}

pub open spec fn assistant_count(ms: Seq<ChatMessage>) -> nat
    decreases ms.len(),
{
    if ms.len() == 0 {
        0
    } else {
        assistant_count(ms.drop_last()) + if ms.last().role@ == "assistant"@ {
            1nat
        } else {
            0nat
        }
    }
}

/// The summary of a reply the model ended with `Done`: everything the
/// assistant said in the conversation, one message per line.
pub fn done_summary(messages: &Vec<ChatMessage>) -> (r: String)
    ensures
        r@ == assistant_join(messages@),
{
    let mut out = String::new();
    let mut any = false;
    let mut i: usize = 0;
    while i < messages.len()
        invariant
            i <= messages@.len(),
            out@ == assistant_join(messages@.subrange(0, i as int)),
            any == (assistant_count(messages@.subrange(0, i as int)) > 0),
        decreases messages@.len() - i,
    {
        let ghost post = messages@.subrange(0, i + 1);
        proof {
            assert(post.drop_last() =~= messages@.subrange(0, i as int));
            assert(post.last() == messages@[i as int]);
        }
        let m = &messages[i];
        if str_eq(m.role.as_str(), "assistant") {
            proof {
                if !any {
                    lemma_join_empty(messages@.subrange(0, i as int));
                }
            }
            if any {
                push_str(&mut out, "\n");
            }
            push_str(&mut out, m.content.as_str());
            any = true;
            assert(out@ =~= assistant_join(post));
        }
        i = i + 1;
    }
    assert(messages@.subrange(0, messages@.len() as int) =~= messages@);
    out
}

proof fn lemma_join_empty(ms: Seq<ChatMessage>)
    requires
        assistant_count(ms) == 0,
    ensures
        assistant_join(ms) == Seq::<char>::empty(),
    decreases ms.len(),
{
    if ms.len() > 0 {
        lemma_join_empty(ms.drop_last());
    }
}

/// Whether an agent may use a tool: the tool allows every agent (`*`) or
/// names it.
pub open spec fn tool_allowed(allowed: Seq<Seq<char>>, agent_id: Seq<char>) -> bool {
    allowed.contains("*"@) || allowed.contains(agent_id)
}

fn list_contains(v: &Vec<String>, x: &str) -> (r: bool)
    ensures
        r == v@.map_values(|s: String| s@).contains(x@),
{
    let ghost m = v@.map_values(|s: String| s@);
    let mut i: usize = 0;
    while i < v.len()
        invariant
            i <= v@.len(),
            m == v@.map_values(|s: String| s@),
            forall|j: int| 0 <= j < i ==> m[j] != x@,
        decreases v@.len() - i,
    {
        if str_eq(v[i].as_str(), x) {
            assert(m[i as int] == x@);
            return true;
        }
        i = i + 1;
    }
    false
}

/// The access check before a tool runs.  `allowed_agents` is the tool's
/// list of agents, `None` when no tool has that name.
pub fn check_tool_access(tool_name: &str, allowed_agents: Option<&Vec<String>>, agent_id: &str) -> (r:
    Result<(), AgentError>)
    ensures
        match allowed_agents {
            None => r matches Err(e) && e.reason == ErrorKind::ToolFailure && e.detail@ == "unknown tool: "@
                + tool_name@ && e.provider_error is None,
            Some(a) => if tool_allowed(a@.map_values(|s: String| s@), agent_id@) {
                r is Ok
            } else {
                r matches Err(e) && e.reason == ErrorKind::ToolFailure && e.detail@ == "agent '"@
                    + agent_id@ + "' is not allowed to use tool '"@ + tool_name@ + "'"@
                    && e.provider_error is None
            },
        },
{
    let allowed = match allowed_agents {
        None => {
            return Err(
                AgentError {
                    reason: ErrorKind::ToolFailure,
                    detail: concat2("unknown tool: ", tool_name),
                    provider_error: None,
                },
            )
        },
        Some(a) => a,
    };
    if list_contains(allowed, "*") || list_contains(allowed, agent_id) {
        Ok(())
    } else {
        let mut detail = concat3("agent '", agent_id, "' is not allowed to use tool '");
        push_str(&mut detail, tool_name);
        push_str(&mut detail, "'");
        Err(AgentError { reason: ErrorKind::ToolFailure, detail, provider_error: None })
    }
}

} // verus!
