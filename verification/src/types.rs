//! Wire-protocol messages and the shared domain records.
use vstd::prelude::*;

use crate::json::JsonValue;
use crate::text::{concat2, str_eq};

verus! {

/// Controlled error codes of `system.error`.
#[derive(Debug, Clone, Copy, PartialEq, Eq, Structural)]
pub enum SystemErrorCode {
    /// The line is not valid JSON.
    MalformedJson,
    /// Valid JSON without the required `type` field.
    MissingType,
    /// `type` names no known message.
    UnknownMessageType,
    /// Known `type` whose body fails validation.
    InvalidMessage,
}

/// The snake_case wire name of an error code.
pub open spec fn system_error_code_name(c: SystemErrorCode) -> Seq<char> {
    match c {
        SystemErrorCode::MalformedJson => "malformed_json"@,
        SystemErrorCode::MissingType => "missing_type"@,
        SystemErrorCode::UnknownMessageType => "unknown_message_type"@,
        SystemErrorCode::InvalidMessage => "invalid_message"@,
    }
}

impl SystemErrorCode {
    pub fn as_str(&self) -> (r: &'static str)
        ensures
            r@ == system_error_code_name(*self),
    {
        match self {
            SystemErrorCode::MalformedJson => "malformed_json",
            SystemErrorCode::MissingType => "missing_type",
            SystemErrorCode::UnknownMessageType => "unknown_message_type",
            SystemErrorCode::InvalidMessage => "invalid_message",
        }
    }
}

/// `system.ping`.
#[derive(Debug, Clone)]
pub struct SystemPing {
    pub ts: String,
    pub req_id: String,
}

/// `system.pong`.
#[derive(Debug, Clone)]
pub struct SystemPong {
    pub ts: String,
    pub req_id: String,
}

/// `system.error`.
#[derive(Debug, Clone)]
pub struct SystemError {
    pub ts: String,
    pub req_id: Option<String>,
    pub error: SystemErrorCode,
    /// Brief description; never echoes the original message.
    pub detail: String,
}

/// `narrative.speak`: a character line streamed by an agent.
#[derive(Debug, Clone)]
pub struct NarrativeSpeak {
    pub ts: String,
    pub event_id: Option<String>,
    pub req_id: String,
    pub agent_id: String,
    pub task_id: String,
    pub text: String,
    pub emotion: String,
}

/// All recognised NDJSON messages.
#[derive(Debug)]
pub enum Message {
    SystemPing(SystemPing),
    SystemPong(SystemPong),
    SystemError(SystemError),
    TaskDispatch(Box<TaskDispatch>),
    TaskStream(TaskStream),
    NarrativeSpeak(NarrativeSpeak),
    TaskDone(Box<TaskDone>),
    TaskError(TaskError),
    PermissionRequest(PermissionRequest),
    PermissionResponse(PermissionResponse),
    SessionRejoin(SessionRejoin),
    SystemAck(SystemAck),
}

/// The wire `type` tag of each message.
pub open spec fn message_type_name(m: Message) -> Seq<char> {
    match m {
        Message::SystemPing(_) => "system.ping"@,
        Message::SystemPong(_) => "system.pong"@,
        Message::SystemError(_) => "system.error"@,
        Message::TaskDispatch(_) => "task.dispatch"@,
        Message::TaskStream(_) => "task.stream"@,
        Message::NarrativeSpeak(_) => "narrative.speak"@,
        Message::TaskDone(_) => "task.done"@,
        Message::TaskError(_) => "task.error"@,
        Message::PermissionRequest(_) => "permission.request"@,
        Message::PermissionResponse(_) => "permission.response"@,
        Message::SessionRejoin(_) => "session.rejoin"@,
        Message::SystemAck(_) => "system.ack"@,
    }
}

impl Message {
    /// The wire `type` tag.
    pub fn wire_type(&self) -> (r: &'static str)
        ensures
            r@ == message_type_name(*self),
    {
        match self {
            Message::SystemPing(_) => "system.ping",
            Message::SystemPong(_) => "system.pong",
            Message::SystemError(_) => "system.error",
            Message::TaskDispatch(_) => "task.dispatch",
            Message::TaskStream(_) => "task.stream",
            Message::NarrativeSpeak(_) => "narrative.speak",
            Message::TaskDone(_) => "task.done",
            Message::TaskError(_) => "task.error",
            Message::PermissionRequest(_) => "permission.request",
            Message::PermissionResponse(_) => "permission.response",
            Message::SessionRejoin(_) => "session.rejoin",
            Message::SystemAck(_) => "system.ack",
        }
    }
}

/// Risk classification of a tool.
#[derive(Debug, Clone, Copy, PartialEq, Eq, Structural)]
pub enum RiskLevel {
    R0,
    R1,
    R2,
    R3,
    R4,
}

/// Outcome of a permission request.
#[derive(Debug, Clone, Copy, PartialEq, Eq, Structural)]
pub enum PermissionDecision {
    Approved,
    Denied,
}

/// One message of a model conversation.
#[derive(Debug)]
pub struct ChatMessage {
    pub role: String,
    pub content: String,
    pub tool_call_id: Option<String>,
    pub tool_calls: Vec<ToolCall>,
}

/// A tool definition offered to a model.
#[derive(Debug)]
pub struct ToolDef {
    pub name: String,
    pub description: String,
    pub input_schema: JsonValue,
}

/// A tool call requested by a model.
#[derive(Debug)]
pub struct ToolCall {
    pub id: String,
    pub name: String,
    pub input: JsonValue,
}

/// The result of running a tool.
#[derive(Debug, Clone)]
pub struct ToolResult {
    pub output: String,
    pub is_error: bool,
}

/// One piece of a streamed model response.
#[derive(Debug)]
pub enum StreamChunk {
    Text { content: String },
    ToolCall { id: String, name: String, input: JsonValue },
    Done,
}

/// A complete (non-streamed) model response.
#[derive(Debug)]
pub struct ChatResponse {
    pub content: String,
    pub tool_calls: Vec<ToolCall>,
}

/// The unit of work handed to an agent.
#[derive(Debug)]
pub struct TaskCard {
    pub schema_version: String,
    pub task_card_id: String,
    pub project: String,
    pub created_at: String,
    pub status: String,
    pub goal: String,
    pub compiled_intent: JsonValue,
    pub context: TaskContext,
    pub execution_plan: JsonValue,
    pub acceptance_criteria: JsonValue,
    pub allowed_files: Vec<String>,
    pub safety: SafetyRules,
    pub output_contract: JsonValue,
    pub review_gate_criteria: JsonValue,
}

#[derive(Debug)]
pub struct TaskContext {
    pub user_preferences: JsonValue,
    pub project_context: ProjectContext,
    pub relevant_feedback: JsonValue,
}

#[derive(Debug)]
pub struct ProjectContext {
    pub name: String,
    pub data: JsonValue,
    pub global_must_avoid: Vec<String>,
}

#[derive(Debug, Clone)]
pub struct SafetyRules {
    pub allowed_paths: Vec<String>,
    pub denied_commands: Vec<String>,
}

/// What an agent hands back when a task completes.
#[derive(Debug)]
pub struct Outbox {
    pub schema_version: String,
    pub task_id: String,
    pub agent_id: String,
    pub status: String,
    pub summary: String,
    pub changed_files: Vec<String>,
    pub changed_files_source: String,
    pub verification: JsonValue,
    pub evidence: JsonValue,
    pub known_risks: Vec<String>,
    pub errors: Vec<String>,
    pub error_taxonomy: Vec<JsonValue>,
    pub needs_human_review: bool,
    pub notes: Vec<String>,
}

/// `task.dispatch`.
#[derive(Debug)]
pub struct TaskDispatch {
    pub ts: String,
    pub event_id: Option<String>,
    pub req_id: String,
    pub agent_id: String,
    pub task_id: String,
    pub task_card: TaskCard,
}

/// `task.stream`.
#[derive(Debug, Clone)]
pub struct TaskStream {
    pub ts: String,
    pub event_id: Option<String>,
    pub req_id: String,
    pub agent_id: String,
    pub task_id: String,
    pub chunk: String,
}

/// `task.done`.
#[derive(Debug)]
pub struct TaskDone {
    pub ts: String,
    pub event_id: Option<String>,
    pub req_id: String,
    pub agent_id: String,
    pub task_id: String,
    pub run_id: Option<String>,
    pub outbox: Outbox,
}

/// `task.error`.
#[derive(Debug, Clone)]
pub struct TaskError {
    pub ts: String,
    pub event_id: Option<String>,
    pub req_id: String,
    pub agent_id: String,
    pub task_id: String,
    pub run_id: Option<String>,
    pub error_taxonomy: String,
    pub detail: String,
}

/// `permission.request`.
#[derive(Debug)]
pub struct PermissionRequest {
    pub ts: String,
    pub event_id: Option<String>,
    pub permission_id: String,
    pub req_id: String,
    pub agent_id: String,
    pub tool: String,
    pub args: JsonValue,
}

/// `permission.response`.
#[derive(Debug, Clone)]
pub struct PermissionResponse {
    pub ts: String,
    pub event_id: Option<String>,
    pub permission_id: String,
    pub req_id: String,
    pub decision: PermissionDecision,
}

/// `session.rejoin`.
#[derive(Debug, Clone)]
pub struct SessionRejoin {
    pub ts: String,
    pub req_id: String,
    pub task_id: String,
    pub last_event_id: Option<String>,
}

/// `system.ack`: the client acknowledges a reliably delivered event.
#[derive(Debug, Clone)]
pub struct SystemAck {
    pub ts: String,
    pub event_id: String,
    pub req_id: String,
}

/// The schema version every card and outbox carries.
pub open spec fn schema_version() -> Seq<char> {
    "2.8"@
}

/// A unit result with its message viewed as characters.
pub open spec fn unit_view(r: Result<(), String>) -> Result<(), Seq<char>> {
    match r {
        Ok(()) => Ok(()),
        Err(s) => Err(s@),
    }
}

/// The outcome of checking a schema version field.
pub open spec fn schema_check(field: Seq<char>, version: Seq<char>) -> Result<(), Seq<char>> {
    if version.len() == 0 {
        Err(field + " empty"@)
    } else if version != schema_version() {
        Err(field + " bad version"@)
    } else {
        Ok(())
    }
}

pub fn check_schema_version(field: &str, version: &str) -> (r: Result<(), String>)
    ensures
        unit_view(r) == schema_check(field@, version@),
{
    if version.is_empty() {
        Err(concat2(field, " empty"))
    } else if !str_eq(version, "2.8") {
        Err(concat2(field, " bad version"))
    } else {
        Ok(())
    }
}

/// The outcome of checking a task card.
pub open spec fn card_check(card: TaskCard) -> Result<(), Seq<char>> {
    if schema_check("task_card"@, card.schema_version@) is Err {
        schema_check("task_card"@, card.schema_version@)
    } else if card.task_card_id@.len() == 0 {
        Err("empty id"@)
    } else {
        Ok(())
    }
}

pub fn validate_task_card(card: &TaskCard) -> (r: Result<(), String>)
    ensures
        unit_view(r) == card_check(*card),
{
    check_schema_version("task_card", card.schema_version.as_str())?;
    if card.task_card_id.as_str().is_empty() {
        Err(String::from_str("empty id"))
    } else {
        Ok(())
    }
}

/// The outcome of checking an outbox.
pub open spec fn outbox_check(o: Outbox) -> Result<(), Seq<char>> {
    if schema_check("outbox"@, o.schema_version@) is Err {
        schema_check("outbox"@, o.schema_version@)
    } else if o.task_id@.len() == 0 {
        Err("empty task_id"@)
    } else if o.agent_id@.len() == 0 {
        Err("empty agent_id"@)
    } else {
        Ok(())
    }
}

pub fn validate_outbox(outbox: &Outbox) -> (r: Result<(), String>)
    ensures
        unit_view(r) == outbox_check(*outbox),
{
    check_schema_version("outbox", outbox.schema_version.as_str())?;
    if outbox.task_id.as_str().is_empty() {
        Err(String::from_str("empty task_id"))
    } else if outbox.agent_id.as_str().is_empty() {
        Err(String::from_str("empty agent_id"))
    } else {
        Ok(())
    }
}

/// The outcome of checking a dispatch: its card, then that the card is
/// the task named by the dispatch.
pub open spec fn dispatch_check(td: TaskDispatch) -> Result<(), Seq<char>> {
    if card_check(td.task_card) is Err {
        card_check(td.task_card)
    } else if td.task_card.task_card_id@ != td.task_id@ {
        Err("task_id mismatch"@)
    } else {
        Ok(())
    }
}

pub fn validate_task_dispatch_consistency(td: &TaskDispatch) -> (r: Result<(), String>)
    ensures
        unit_view(r) == dispatch_check(*td),
{
    validate_task_card(&td.task_card)?;
    if !str_eq(td.task_card.task_card_id.as_str(), td.task_id.as_str()) {
        Err(String::from_str("task_id mismatch"))
    } else {
        Ok(())
    }
}

/// The outcome of checking a completion: its outbox, then that the outbox
/// belongs to the task and agent named by the message.
pub open spec fn done_check(td: TaskDone) -> Result<(), Seq<char>> {
    if outbox_check(td.outbox) is Err {
        outbox_check(td.outbox)
    } else if td.outbox.task_id@ != td.task_id@ {
        Err("task_id mismatch"@)
    } else if td.outbox.agent_id@ != td.agent_id@ {
        Err("agent_id mismatch"@)
    } else {
        Ok(())
    }
}

pub fn validate_task_done_consistency(td: &TaskDone) -> (r: Result<(), String>)
    ensures
        unit_view(r) == done_check(*td),
{
    validate_outbox(&td.outbox)?;
    if !str_eq(td.outbox.task_id.as_str(), td.task_id.as_str()) {
        Err(String::from_str("task_id mismatch"))
    } else if !str_eq(td.outbox.agent_id.as_str(), td.agent_id.as_str()) {
        Err(String::from_str("agent_id mismatch"))
    } else {
        Ok(())
    }
}

} // verus!
