//! The agent loop's decisions.  The loop builds a prompt, sends the
//! conversation to the model, reads the streamed reply, runs the tool
//! calls it asked for (with permission where a tool needs it), and goes
//! round again until `task_done` or a plain reply ends the task.  Each
//! method here takes what just happened and says what to do next; the
//! driver does it (model calls, tools, the user) and reports back.
use vstd::prelude::*;

use crate::agent::steps::{
    after_tool_result, assistant_join, check_tool_access, done_outbox, done_summary, tool_allowed,
    AfterTool, OutboxBuilder, MAX_ITERATIONS,
};
use crate::error::{AgentError, ErrorKind};
use crate::text::{concat2, concat3, push_str};
use crate::types::{ChatMessage, Outbox, PermissionDecision, StreamChunk, ToolCall, ToolResult};

verus! {

/// Where the loop stands.
#[derive(Debug, Clone, Copy, PartialEq, Eq, Structural)]
pub enum LoopPhase {
    BuildingPrompt,
    SendingToModel,
    ReceivingStream,
    ExecutingTool,
    AwaitingPermission,
    Finished,
    Failed,
}

/// What the loop asks its driver to do next.
#[derive(Debug)]
pub enum LoopAction {
    /// Build the system prompt for the task.
    BuildPrompt,
    /// Send the conversation ([`AgentLoopState::messages`]) to the model
    /// with the tool definitions, and open its stream.
    SendToModel,
    /// Read the next chunk of the open stream.
    ReadChunk,
    /// Look the current tool call up in the registry.
    LookUpTool,
    /// Ask the user whether the current tool call may run.
    RequestPermission,
    /// Run the current tool call.
    RunTool,
    /// The task is done with this outbox.
    Finish(Outbox),
    /// The task failed.
    Fail(AgentError),
}

/// A message as role and content.
pub type MsgV = (Seq<char>, Seq<char>);

pub open spec fn msg_view(m: ChatMessage) -> MsgV {
    (m.role@, m.content@)
}

pub open spec fn msgs_view(ms: Seq<ChatMessage>) -> Seq<MsgV> {
    ms.map_values(|m: ChatMessage| msg_view(m))
}

/// The names of tool calls, in order.
pub open spec fn call_names(cs: Seq<ToolCall>) -> Seq<Seq<char>> {
    cs.map_values(|c: ToolCall| c.name@)
}

/// The loop's state between two steps.
pub struct AgentLoopState {
    task_id: String,
    agent_id: String,
    messages: Vec<ChatMessage>,
    pending: Vec<ToolCall>,
    received: Vec<ToolCall>,
    assistant_text: String,
    current: Option<ToolCall>,
    retry_feedback: Option<String>,
    iteration: u32,
    approved: bool,
    phase: LoopPhase,
}

fn message(role: &str, content: String) -> (r: ChatMessage)
    ensures
        msg_view(r) == (role@, content@),
        r.tool_call_id is None,
        r.tool_calls@.len() == 0,
{
    ChatMessage { role: String::from_str(role), content, tool_call_id: None, tool_calls: Vec::new() }
}

/// The `Debug` name of an error kind.
pub open spec fn kind_name(k: ErrorKind) -> Seq<char> {
    match k {
        ErrorKind::Cancelled => "Cancelled"@,
        ErrorKind::TaskTimeout => "TaskTimeout"@,
        ErrorKind::ToolFailure => "ToolFailure"@,
        ErrorKind::MaxIterations => "MaxIterations"@,
        ErrorKind::ProviderExhausted => "ProviderExhausted"@,
        ErrorKind::ProviderFatal => "ProviderFatal"@,
    }
}

/// `agent error ({kind:?}): {detail}`, as the error renders.
pub open spec fn agent_error_text(e: AgentError) -> Seq<char> {
    "agent error ("@ + kind_name(e.reason) + "): "@ + e.detail@
}

impl AgentError {
    /// The rendering of the error.
    pub fn display_text(&self) -> (r: String)
        ensures
            r@ == agent_error_text(*self),
    {
        let k = match self.reason {
            ErrorKind::Cancelled => "Cancelled",
            ErrorKind::TaskTimeout => "TaskTimeout",
            ErrorKind::ToolFailure => "ToolFailure",
            ErrorKind::MaxIterations => "MaxIterations",
            ErrorKind::ProviderExhausted => "ProviderExhausted",
            ErrorKind::ProviderFatal => "ProviderFatal",
        };
        let mut s = concat3("agent error (", k, "): ");
        push_str(&mut s, self.detail.as_str());
        s
    }
}

fn agent_error(reason: ErrorKind, detail: String) -> (r: AgentError)
    ensures
        r.reason == reason,
        r.detail == detail,
        r.provider_error is None,
{
    AgentError { reason, detail, provider_error: None }
}

impl AgentLoopState {
    pub closed spec fn phase(&self) -> LoopPhase {
        self.phase
    }

    pub closed spec fn msgs(&self) -> Seq<MsgV> {
        msgs_view(self.messages@)
    }

    /// The tool calls still to run after the current one.
    pub closed spec fn pending_names(&self) -> Seq<Seq<char>> {
        call_names(self.pending@)
    }

    /// The tool calls received from the stream being read.
    pub closed spec fn received_names(&self) -> Seq<Seq<char>> {
        call_names(self.received@)
    }

    /// The tool calls still to run after the current one, whole.
    pub closed spec fn pending(&self) -> Seq<ToolCall> {
        self.pending@
    }

    /// The tool calls received from the stream being read, whole.
    pub closed spec fn received(&self) -> Seq<ToolCall> {
        self.received@
    }

    /// The tool call being handled, whole.
    pub closed spec fn current(&self) -> Option<ToolCall> {
        self.current
    }

    /// The text received from the stream being read.
    pub closed spec fn text(&self) -> Seq<char> {
        self.assistant_text@
    }

    /// The name of the tool call being handled.
    pub closed spec fn current_name(&self) -> Option<Seq<char>> {
        match self.current {
            Some(c) => Some(c.name@),
            None => None,
        }
    }

    /// Model round-trips so far.
    pub closed spec fn rounds(&self) -> u32 {
        self.iteration
    }

    /// Whether the current call was approved by the user.
    pub closed spec fn approved(&self) -> bool {
        self.approved
    }

    pub closed spec fn task(&self) -> (Seq<char>, Seq<char>) {
        (self.task_id@, self.agent_id@)
    }

    pub closed spec fn feedback(&self) -> Option<Seq<char>> {
        match self.retry_feedback {
            Some(f) => Some(f@),
            None => None,
        }
    }

    /// The state's invariant.
    pub closed spec fn wf(&self) -> bool {
        &&& self.iteration <= MAX_ITERATIONS
        &&& (self.phase == LoopPhase::ExecutingTool || self.phase == LoopPhase::AwaitingPermission)
            <==> self.current is Some
    }

    /// A loop about to build the prompt for `task_id`, run by `agent_id`;
    /// `retry_feedback` is told to the model after the system prompt.
    pub fn new(task_id: String, agent_id: String, retry_feedback: Option<String>) -> (r: Self)
        ensures
            r.wf(),
            r.phase() == LoopPhase::BuildingPrompt,
            r.msgs().len() == 0,
            r.rounds() == 0,
            r.task() == (task_id@, agent_id@),
            r.feedback() == match retry_feedback {
                Some(f) => Some(f@),
                None => None::<Seq<char>>,
            },
    {
        let r = AgentLoopState {
            task_id,
            agent_id,
            messages: Vec::new(),
            pending: Vec::new(),
            received: Vec::new(),
            assistant_text: String::new(),
            current: None,
            retry_feedback,
            iteration: 0,
            approved: false,
            phase: LoopPhase::BuildingPrompt,
        };
        assert(r.msgs() =~= Seq::<MsgV>::empty());
        r
    }

    /// The conversation so far.
    pub fn messages(&self) -> (r: &Vec<ChatMessage>)
        ensures
            msgs_view(r@) == self.msgs(),
    {
        &self.messages
    }

    /// The tool call being handled.
    pub fn current_call(&self) -> (r: Option<&ToolCall>)
        ensures
            match r {
                Some(c) => self.current() == Some(*c) && self.current_name() == Some(c.name@),
                None => self.current() is None && self.current_name() is None,
            },
    {
        match &self.current {
            Some(c) => Some(c),
            None => None,
        }
    }

    /// The first action.
    pub fn start(&self) -> (r: LoopAction)
        ensures
            r is BuildPrompt,
    {
        LoopAction::BuildPrompt
    }

    /// Enters `SendingToModel`: one more round-trip, unless the limit is
    /// reached.
    fn to_model(&mut self) -> (r: LoopAction)
        requires
            old(self).wf(),
            old(self).current is None,
        ensures
            final(self).wf(),
            final(self).messages == old(self).messages,
            final(self).task_id == old(self).task_id,
            final(self).agent_id == old(self).agent_id,
            final(self).retry_feedback == old(self).retry_feedback,
            final(self).pending == old(self).pending,
            final(self).current is None,
            old(self).iteration < MAX_ITERATIONS ==> {
                &&& r is SendToModel
                &&& final(self).phase == LoopPhase::SendingToModel
                &&& final(self).iteration == old(self).iteration + 1
            },
            old(self).iteration >= MAX_ITERATIONS ==> {
                &&& r matches LoopAction::Fail(e) && e.reason == ErrorKind::MaxIterations && e.detail@
                    == "exceeded 30 LLM round-trips"@ && e.provider_error is None
                &&& final(self).phase == LoopPhase::Failed
                &&& final(self).iteration == old(self).iteration
            },
    {
        if self.iteration >= MAX_ITERATIONS {
            self.phase = LoopPhase::Failed;
            return LoopAction::Fail(agent_error(ErrorKind::MaxIterations, String::from_str("exceeded 30 LLM round-trips")));
        }
        self.iteration = self.iteration + 1;
        self.phase = LoopPhase::SendingToModel;
        LoopAction::SendToModel
    }

    /// The system prompt was built (or building it failed with a message):
    /// the prompt, then any retry feedback, open the conversation, which
    /// goes to the model.
    pub fn on_prompt(&mut self, built: Result<String, String>) -> (r: LoopAction)
        requires
            old(self).wf(),
            old(self).phase() == LoopPhase::BuildingPrompt,
        ensures
            final(self).wf(),
            final(self).task() == old(self).task(),
            match built {
                Err(m) => {
                    &&& r matches LoopAction::Fail(e) && e.reason == ErrorKind::ToolFailure && e.detail@
                        == "prompt: "@ + m@ && e.provider_error is None
                    &&& final(self).phase() == LoopPhase::Failed
                },
                Ok(system) => {
                    &&& final(self).msgs() == old(self).msgs() + seq![("system"@, system@)] + match old(
                        self,
                    ).feedback() {
                        Some(f) => seq![("system"@, f)],
                        None => Seq::<MsgV>::empty(),
                    }
                    &&& final(self).feedback() is None
                    &&& old(self).rounds() < MAX_ITERATIONS ==> (r is SendToModel && final(self).phase()
                        == LoopPhase::SendingToModel && final(self).rounds() == old(self).rounds() + 1)
                    &&& old(self).rounds() >= MAX_ITERATIONS ==> (r matches LoopAction::Fail(e) && e.reason == ErrorKind::MaxIterations && e.detail@
                        == "exceeded 30 LLM round-trips"@ && e.provider_error is None && final(self).phase()
                        == LoopPhase::Failed)
                },
            },
    {
        match built {
            Err(m) => {
                self.phase = LoopPhase::Failed;
                LoopAction::Fail(agent_error(ErrorKind::ToolFailure, concat2("prompt: ", m.as_str())))
            },
            Ok(system) => {
                let ghost before = self.messages@;
                self.messages.push(message("system", system));
                let mut fb: Option<String> = None;
                std::mem::swap(&mut fb, &mut self.retry_feedback);
                match fb {
                    Some(f) => self.messages.push(message("system", f)),
                    None => {},
                }
                proof {
                    assert(msgs_view(self.messages@) =~= msgs_view(before) + seq![("system"@, system@)]
                        + match old(self).feedback() {
                        Some(f) => seq![("system"@, f)],
                        None => Seq::<MsgV>::empty(),
                    });
                }
                self.to_model()
            },
        }
    }

    /// The model stream was opened, or opening it failed.
    pub fn on_stream_opened(&mut self, opened: Result<(), AgentError>) -> (r: LoopAction)
        requires
            old(self).wf(),
            old(self).phase() == LoopPhase::SendingToModel,
        ensures
            final(self).wf(),
            final(self).task() == old(self).task(),
            final(self).msgs() == old(self).msgs(),
            match opened {
                Ok(()) => r is ReadChunk && final(self).phase() == LoopPhase::ReceivingStream
                    && final(self).text().len() == 0 && final(self).received_names().len() == 0
                    && final(self).received().len() == 0,
                Err(e) => r == LoopAction::Fail(e) && final(self).phase() == LoopPhase::Failed,
            },
    {
        match opened {
            Ok(()) => {
                self.assistant_text = String::new();
                self.received = Vec::new();
                self.phase = LoopPhase::ReceivingStream;
                proof {
                    assert(call_names(self.received@) =~= Seq::<Seq<char>>::empty());
                    assert(self.received@ =~= Seq::<ToolCall>::empty());
                }
                LoopAction::ReadChunk
            },
            Err(e) => {
                self.phase = LoopPhase::Failed;
                LoopAction::Fail(e)
            },
        }
    }

    /// The reply is complete: what the assistant said joins the
    /// conversation; without tool calls the task is done with `summary`,
    /// otherwise the first call is handled and the others wait.
    fn reply_complete(&mut self, summary_from_all: bool) -> (r: LoopAction)
        requires
            old(self).wf(),
            old(self).phase == LoopPhase::ReceivingStream,
        ensures
            final(self).wf(),
            final(self).task_id == old(self).task_id,
            final(self).agent_id == old(self).agent_id,
            msgs_view(final(self).messages@) == msgs_view(old(self).messages@).push(("assistant"@, old(self).assistant_text@)),
            old(self).received@.len() == 0 ==> {
                &&& final(self).phase == LoopPhase::Finished
                &&& r matches LoopAction::Finish(o) && o.task_id == old(self).task_id && o.agent_id
                    == old(self).agent_id && o.summary@ == if summary_from_all {
                    assistant_join(final(self).messages@)
                } else {
                    old(self).assistant_text@
                } && done_outbox(o, old(self).task_id@, old(self).agent_id@, o.summary@)
            },
            old(self).received@.len() > 0 ==> {
                &&& final(self).phase == LoopPhase::ExecutingTool
                &&& r is LookUpTool
                &&& final(self).current matches Some(c) && c == old(self).received@[0]
                &&& final(self).pending@ == old(self).received@.drop_first()
                &&& !final(self).approved
            },
    {
        let text = self.assistant_text.clone();
        let ghost before = self.messages@;
        self.messages.push(message("assistant", text));
        self.assistant_text = String::new();
        proof {
            assert(msgs_view(self.messages@) =~= msgs_view(before).push(("assistant"@, old(self).assistant_text@)));
        }
        if self.received.len() == 0 {
            let summary = if summary_from_all {
                done_summary(&self.messages)
            } else {
                old_text_clone(&self.messages)
            };
            self.phase = LoopPhase::Finished;
            let builder = OutboxBuilder::new(self.task_id.clone(), self.agent_id.clone());
            LoopAction::Finish(builder.build(summary))
        } else {
            let mut calls = Vec::new();
            std::mem::swap(&mut calls, &mut self.received);
            let first = calls.remove(0);
            self.pending = calls;
            self.current = Some(first);
            self.approved = false;
            self.phase = LoopPhase::ExecutingTool;
            LoopAction::LookUpTool
        }
    }

    /// A chunk of the stream arrived, the stream ended (`None`), or reading
    /// it failed.  Text and tool calls are collected; the end (or `Done`)
    /// completes the reply.
    pub fn on_chunk(&mut self, chunk: Result<Option<StreamChunk>, AgentError>) -> (r: LoopAction)
        requires
            old(self).wf(),
            old(self).phase() == LoopPhase::ReceivingStream,
        ensures
            final(self).wf(),
            final(self).task() == old(self).task(),
            match chunk {
                Ok(Some(StreamChunk::Text { content })) => r is ReadChunk && final(self).phase()
                    == LoopPhase::ReceivingStream && final(self).text() == old(self).text() + content@
                    && final(self).msgs() == old(self).msgs() && final(self).received_names()
                    == old(self).received_names() && final(self).received() == old(self).received(),
                Ok(Some(StreamChunk::ToolCall { id, name, input })) => r is ReadChunk && final(self).phase()
                    == LoopPhase::ReceivingStream && final(self).text() == old(self).text()
                    && final(self).msgs() == old(self).msgs() && final(self).received_names()
                    == old(self).received_names().push(name@) && final(self).received()
                    == old(self).received().push(ToolCall { id, name, input }),
                Err(e) => {
                    &&& final(self).msgs() == old(self).msgs().push(("assistant"@, old(self).text()))
                    &&& r == LoopAction::Fail(e)
                    &&& final(self).phase() == LoopPhase::Failed
                },
                _ => {
                    &&& final(self).msgs() == old(self).msgs().push(("assistant"@, old(self).text()))
                    &&& old(self).received_names().len() == 0 ==> (final(self).phase() == LoopPhase::Finished
                        && r is Finish)
                    &&& old(self).received_names().len() > 0 ==> {
                        &&& final(self).phase() == LoopPhase::ExecutingTool
                        &&& r is LookUpTool
                        &&& final(self).current_name() == Some(old(self).received_names()[0])
                        &&& final(self).pending_names() == old(self).received_names().drop_first()
                        &&& final(self).current() == Some(old(self).received()[0])
                        &&& final(self).pending() == old(self).received().drop_first()
                    }
                },
            },
            chunk matches Ok(None) && old(self).received_names().len() == 0 ==> (r matches LoopAction::Finish(
                o,
            ) && done_outbox(o, old(self).task().0, old(self).task().1, old(self).text())),
            chunk matches Ok(Some(StreamChunk::Done)) && old(self).received_names().len() == 0 ==> (
            r matches LoopAction::Finish(o) && done_outbox(
                o,
                old(self).task().0,
                old(self).task().1,
                joined_assistant(final(self).msgs()),
            )),
    {
        match chunk {
            Ok(Some(StreamChunk::Text { content })) => {
                push_str(&mut self.assistant_text, content.as_str());
                LoopAction::ReadChunk
            },
            Ok(Some(StreamChunk::ToolCall { id, name, input })) => {
                let ghost before = self.received@;
                self.received.push(ToolCall { id, name, input });
                proof {
                    assert(call_names(self.received@) =~= call_names(before).push(name@));
                }
                LoopAction::ReadChunk
            },
            Err(e) => {
                let text = self.assistant_text.clone();
                let ghost before = self.messages@;
                self.messages.push(message("assistant", text));
                proof {
                    assert(msgs_view(self.messages@) =~= msgs_view(before).push(("assistant"@, old(self).assistant_text@)));
                }
                self.phase = LoopPhase::Failed;
                LoopAction::Fail(e)
            },
            Ok(None) => {
                let r = self.reply_complete(false);
                proof {
                    if old(self).received@.len() > 0 {
                        assert(call_names(old(self).received@).drop_first() =~= call_names(old(self).received@.drop_first()));
                    }
                }
                r
            },
            Ok(Some(StreamChunk::Done)) => {
                let r = self.reply_complete(true);
                proof {
                    if old(self).received@.len() > 0 {
                        assert(call_names(old(self).received@).drop_first() =~= call_names(old(self).received@.drop_first()));
                    }
                    lemma_assistant_join_view(self.messages@);
                }
                r
            },
        }
    }
}

impl AgentLoopState {
    /// The registry's answer for the current call: `None` when no tool has
    /// its name, otherwise the agents the tool allows and whether this
    /// call needs permission.  A call that may not run fails the task (its
    /// error joins the conversation); one that needs permission, unless
    /// already approved, waits for the user.
    pub fn on_tool_lookup(&mut self, info: Option<(Vec<String>, bool)>) -> (r: LoopAction)
        requires
            old(self).wf(),
            old(self).phase() == LoopPhase::ExecutingTool,
        ensures
            final(self).wf(),
            final(self).task() == old(self).task(),
            final(self).pending_names() == old(self).pending_names(),
            final(self).pending() == old(self).pending(),
            match info {
                None => {
                    &&& r matches LoopAction::Fail(e) && e.reason == ErrorKind::ToolFailure && e.detail@
                        == "unknown tool: "@ + old(self).current_name()->0
                    &&& final(self).phase() == LoopPhase::Failed
                    &&& final(self).msgs() == old(self).msgs().push(
                        ("tool"@, "error: agent error (ToolFailure): unknown tool: "@ + old(self).current_name()->0),
                    )
                },
                Some((allowed, needs)) => if !tool_allowed(
                    allowed@.map_values(|s: String| s@),
                    old(self).task().1,
                ) {
                    &&& r matches LoopAction::Fail(e) && e.reason == ErrorKind::ToolFailure && e.detail@
                        == "agent '"@ + old(self).task().1 + "' is not allowed to use tool '"@
                        + old(self).current_name()->0 + "'"@
                    &&& final(self).phase() == LoopPhase::Failed
                    &&& final(self).msgs() == old(self).msgs().push(
                        (
                            "tool"@,
                            "error: agent error (ToolFailure): agent '"@ + old(self).task().1
                                + "' is not allowed to use tool '"@ + old(self).current_name()->0 + "'"@,
                        ),
                    )
                } else if needs && !old(self).approved() {
                    &&& r is RequestPermission
                    &&& final(self).phase() == LoopPhase::AwaitingPermission
                    &&& final(self).msgs() == old(self).msgs()
                    &&& final(self).current_name() == old(self).current_name()
                    &&& final(self).current() == old(self).current()
                } else {
                    &&& r is RunTool
                    &&& final(self).phase() == LoopPhase::ExecutingTool
                    &&& final(self).msgs() == old(self).msgs()
                    &&& final(self).current_name() == old(self).current_name()
                    &&& final(self).current() == old(self).current()
                },
            },
    {
        let (allowed, needs) = match &info {
            Some((a, n)) => (Some(a), *n),
            None => (None, false),
        };
        let checked = match &self.current {
            Some(tc) => check_tool_access(tc.name.as_str(), allowed, self.agent_id.as_str()),
            None => Ok(()),
        };
        match checked {
            Err(e) => {
                let ghost before = self.messages@;
                let text = concat2("error: ", e.display_text().as_str());
                self.messages.push(message("tool", text));
                proof {
                    assert(msgs_view(self.messages@) =~= msgs_view(before).push(("tool"@, text@)));
                    reveal_strlit("error: ");
                    reveal_strlit("agent error (");
                    reveal_strlit("ToolFailure");
                    reveal_strlit("): ");
                    reveal_strlit("unknown tool: ");
                    reveal_strlit("error: agent error (ToolFailure): unknown tool: ");
                    reveal_strlit("agent '");
                    reveal_strlit("error: agent error (ToolFailure): agent '");
                    if info is None {
                        assert(text@ =~= "error: agent error (ToolFailure): unknown tool: "@
                            + old(self).current_name()->0);
                    } else {
                        assert(text@ =~= "error: agent error (ToolFailure): agent '"@ + old(self).task().1
                            + "' is not allowed to use tool '"@ + old(self).current_name()->0 + "'"@);
                    }
                }
                self.current = None;
                self.phase = LoopPhase::Failed;
                LoopAction::Fail(agent_error(e.reason, e.detail))
            },
            Ok(()) => {
                if needs && !self.approved {
                    self.phase = LoopPhase::AwaitingPermission;
                    LoopAction::RequestPermission
                } else {
                    LoopAction::RunTool
                }
            },
        }
    }

    /// The current call ran (or failed to).  Its output joins the
    /// conversation; a successful `task_done` finishes the task with that
    /// output, otherwise the next waiting call is handled, and when none
    /// is left the conversation goes back to the model.
    pub fn on_tool_result(&mut self, result: Result<ToolResult, AgentError>) -> (r: LoopAction)
        requires
            old(self).wf(),
            old(self).phase() == LoopPhase::ExecutingTool,
        ensures
            final(self).wf(),
            final(self).task() == old(self).task(),
            match result {
                Err(e) => {
                    &&& r matches LoopAction::Fail(x) && x.reason == e.reason && x.detail == e.detail
                        && x.provider_error is None
                    &&& final(self).phase() == LoopPhase::Failed
                    &&& final(self).msgs() == old(self).msgs()
                },
                Ok(res) => {
                    &&& final(self).msgs() == old(self).msgs().push(("tool"@, res.output@))
                    &&& old(self).current_name() == Some("task_done"@) && !res.is_error ==> {
                        &&& r matches LoopAction::Finish(o) && o.summary == res.output && done_outbox(
                            o,
                            old(self).task().0,
                            old(self).task().1,
                            res.output@,
                        )
                        &&& final(self).phase() == LoopPhase::Finished
                        &&& final(self).pending_names().len() == 0
                    }
                    &&& !(old(self).current_name() == Some("task_done"@) && !res.is_error)
                        && old(self).pending_names().len() > 0 ==> {
                        &&& r is LookUpTool
                        &&& final(self).phase() == LoopPhase::ExecutingTool
                        &&& final(self).current_name() == Some(old(self).pending_names()[0])
                        &&& final(self).pending_names() == old(self).pending_names().drop_first()
                        &&& final(self).current() == Some(old(self).pending()[0])
                        &&& final(self).pending() == old(self).pending().drop_first()
                        &&& !final(self).approved()
                    }
                    &&& !(old(self).current_name() == Some("task_done"@) && !res.is_error)
                        && old(self).pending_names().len() == 0 ==> {
                        &&& old(self).rounds() < MAX_ITERATIONS ==> (r is SendToModel && final(self).phase()
                            == LoopPhase::SendingToModel && final(self).rounds() == old(self).rounds() + 1)
                        &&& old(self).rounds() >= MAX_ITERATIONS ==> (r matches LoopAction::Fail(e) && e.reason == ErrorKind::MaxIterations && e.detail@
                        == "exceeded 30 LLM round-trips"@ && e.provider_error is None && final(self).phase()
                        == LoopPhase::Failed)
                    }
                },
            },
    {
        match result {
            Err(e) => {
                self.current = None;
                self.phase = LoopPhase::Failed;
                LoopAction::Fail(agent_error(e.reason, e.detail))
            },
            Ok(res) => {
                let ghost before = self.messages@;
                let output = res.output.clone();
                self.messages.push(message("tool", output));
                proof {
                    assert(msgs_view(self.messages@) =~= msgs_view(before).push(("tool"@, res.output@)));
                }
                let step = match &self.current {
                    Some(tc) => after_tool_result(tc.name.as_str(), res.is_error, self.pending.len()),
                    None => AfterTool::AskModel,
                };
                self.current = None;
                match step {
                    AfterTool::Respond => {
                        self.pending = Vec::new();
                        proof {
                            assert(call_names(self.pending@) =~= Seq::<Seq<char>>::empty());
                        }
                        self.phase = LoopPhase::Finished;
                        let builder = OutboxBuilder::new(self.task_id.clone(), self.agent_id.clone());
                        LoopAction::Finish(builder.build(res.output))
                    },
                    AfterTool::NextTool => {
                        let ghost p = self.pending@;
                        let next = self.pending.remove(0);
                        proof {
                            assert(call_names(self.pending@) =~= call_names(p).drop_first());
                        }
                        self.current = Some(next);
                        self.approved = false;
                        self.phase = LoopPhase::ExecutingTool;
                        LoopAction::LookUpTool
                    },
                    AfterTool::AskModel => {
                        self.approved = false;
                        self.phase = LoopPhase::SendingToModel;
                        self.to_model()
                    },
                }
            },
        }
    }

    /// The user's answer to the permission request (`None` when asking
    /// failed): an approved call is looked up again and runs; otherwise
    /// `denied` joins the conversation, which goes back to the model.
    pub fn on_permission(&mut self, decision: Option<PermissionDecision>) -> (r: LoopAction)
        requires
            old(self).wf(),
            old(self).phase() == LoopPhase::AwaitingPermission,
        ensures
            final(self).wf(),
            final(self).task() == old(self).task(),
            decision == Some(PermissionDecision::Approved) ==> {
                &&& r is LookUpTool
                &&& final(self).phase() == LoopPhase::ExecutingTool
                &&& final(self).approved()
                &&& final(self).current_name() == old(self).current_name()
                &&& final(self).current() == old(self).current()
                &&& final(self).pending() == old(self).pending()
                &&& final(self).msgs() == old(self).msgs()
            },
            decision != Some(PermissionDecision::Approved) ==> {
                &&& final(self).msgs() == old(self).msgs().push(("tool"@, "denied"@))
                &&& old(self).rounds() < MAX_ITERATIONS ==> (r is SendToModel && final(self).phase()
                    == LoopPhase::SendingToModel && final(self).rounds() == old(self).rounds() + 1)
                &&& old(self).rounds() >= MAX_ITERATIONS ==> (r matches LoopAction::Fail(e) && e.reason == ErrorKind::MaxIterations && e.detail@
                        == "exceeded 30 LLM round-trips"@ && e.provider_error is None && final(self).phase()
                        == LoopPhase::Failed)
            },
    {
        match decision {
            Some(PermissionDecision::Approved) => {
                self.approved = true;
                self.phase = LoopPhase::ExecutingTool;
                LoopAction::LookUpTool
            },
            _ => {
                let ghost before = self.messages@;
                self.messages.push(message("tool", String::from_str("denied")));
                proof {
                    assert(msgs_view(self.messages@) =~= msgs_view(before).push(("tool"@, "denied"@)));
                }
                self.current = None;
                self.approved = false;
                self.phase = LoopPhase::SendingToModel;
                self.to_model()
            },
        }
    }

    /// The task was cancelled or timed out while waiting for the user.
    pub fn on_interrupted(&mut self, reason: ErrorKind) -> (r: LoopAction)
        requires
            old(self).wf(),
            old(self).phase() == LoopPhase::AwaitingPermission,
        ensures
            final(self).wf(),
            final(self).phase() == LoopPhase::Failed,
            final(self).msgs() == old(self).msgs(),
            r matches LoopAction::Fail(e) && e.reason == reason && e.detail@ == "permission interrupted"@
                && e.provider_error is None,
    {
        self.current = None;
        self.phase = LoopPhase::Failed;
        LoopAction::Fail(agent_error(reason, String::from_str("permission interrupted")))
    }
}

/// The assistant messages' contents, joined by newlines.
pub open spec fn joined_assistant(ms: Seq<MsgV>) -> Seq<char>
    decreases ms.len(),
{
    if ms.len() == 0 {
        seq![]
    } else {
        let rest = joined_assistant(ms.drop_last());
        if ms.last().0 == "assistant"@ {
            if assistant_msgs(ms.drop_last()) == 0 {
                ms.last().1
            } else {
                rest + "\n"@ + ms.last().1
            }
        } else {
            rest
        }
    }
}

pub open spec fn assistant_msgs(ms: Seq<MsgV>) -> nat
    decreases ms.len(),
{
    if ms.len() == 0 {
        0
    } else {
        assistant_msgs(ms.drop_last()) + if ms.last().0 == "assistant"@ {
            1nat
        } else {
            0nat
        }
    }
}

proof fn lemma_assistant_join_view(ms: Seq<ChatMessage>)
    ensures
        assistant_join(ms) == joined_assistant(msgs_view(ms)),
        crate::agent::steps::assistant_count(ms) == assistant_msgs(msgs_view(ms)),
    decreases ms.len(),
{
    if ms.len() > 0 {
        assert(msgs_view(ms).drop_last() =~= msgs_view(ms.drop_last()));
        lemma_assistant_join_view(ms.drop_last());
    }
}

/// The content of the last message.
fn old_text_clone(ms: &Vec<ChatMessage>) -> (r: String)
    requires
        ms@.len() > 0,
    ensures
        r@ == ms@.last().content@,
{
    ms[ms.len() - 1].content.clone()
}

} // verus!
