//! The built-in tools: what each one offers the model, how risky it is,
//! who may call it and whether a call needs permission, and the registry
//! that holds tools by name.
use vstd::prelude::*;

use crate::json::{json_same, member, member_str, push_field, str_of, JsonValue};
use crate::text::{lemma_seq_lt_total, lemma_seq_lt_trans, seq_lt, str_eq, str_lt, concat2};
use crate::tools::checks::{
    log_event_check, log_event_validate, non_empty_spec, single_field_validate, speak_check,
    speak_validate, stage_tool_check, task_done_check, task_done_validate, unit_result,
    update_stage_validate, terminal_check, terminal_validate,
};
use crate::tools::ToolError;
use crate::types::{RiskLevel, ToolDef};

verus! {

/// Whether `schema` lists exactly `names`, in order, as its required
/// fields.
pub open spec fn requires_fields(schema: JsonValue, names: Seq<Seq<char>>) -> bool {
    &&& member(schema, "required"@) matches Some(JsonValue::Array(a))
    &&& a@.len() == names.len()
    &&& forall|i: int| 0 <= i < names.len() ==> str_of(#[trigger] a@[i]) == Some(names[i])
}

/// An object schema: `type` is `object` and the required fields are
/// `names`.
pub open spec fn object_schema_of(schema: JsonValue, names: Seq<Seq<char>>) -> bool {
    &&& member_str(schema, "type"@) == Some("object"@)
    &&& member(schema, "properties"@) is Some
    &&& requires_fields(schema, names)
}

fn text(s: &str) -> (r: JsonValue)
    ensures
        str_of(r) == Some(s@),
{
    JsonValue::String(String::from_str(s))
}

/// `{"type": kind}`, with a description when one is given.
fn prop(kind: &str, description: Option<&str>) -> (r: JsonValue)
    ensures
        member_str(r, "type"@) == Some(kind@),
{
    let mut es: Vec<(String, JsonValue)> = Vec::new();
    push_field(&mut es, "type", text(kind));
    match description {
        Some(d) => push_field(&mut es, "description", text(d)),
        None => {},
    }
    proof {
        reveal_strlit("type");
        reveal_strlit("description");
        assert("type"@.len() == 4);
        assert("description"@.len() == 11);
    }
    JsonValue::Object(es)
}

/// `{"type": "string", "enum": values}`.
fn enum_prop(values: &[&str]) -> (r: JsonValue)
    ensures
        member_str(r, "type"@) == Some("string"@),
{
    let mut vs: Vec<JsonValue> = Vec::new();
    let mut i: usize = 0;
    while i < values.len()
        decreases values@.len() - i,
    {
        vs.push(text(values[i]));
        i = i + 1;
    }
    let mut es: Vec<(String, JsonValue)> = Vec::new();
    push_field(&mut es, "type", text("string"));
    push_field(&mut es, "enum", JsonValue::Array(vs));
    proof {
        reveal_strlit("type");
        reveal_strlit("enum");
        assert("type"@[0] != "enum"@[0]);
    }
    JsonValue::Object(es)
}

/// The string list of the required field names.
fn names_value(names: &Vec<String>) -> (r: JsonValue)
    ensures
        r matches JsonValue::Array(a) && a@.len() == names@.len() && forall|i: int|
            0 <= i < names@.len() ==> str_of(#[trigger] a@[i]) == Some(names@[i]@),
{
    let mut vs: Vec<JsonValue> = Vec::new();
    let mut i: usize = 0;
    while i < names.len()
        invariant
            i <= names@.len(),
            vs@.len() == i,
            forall|j: int| 0 <= j < i ==> str_of(#[trigger] vs@[j]) == Some(names@[j]@),
        decreases names@.len() - i,
    {
        vs.push(text(names[i].as_str()));
        i = i + 1;
    }
    JsonValue::Array(vs)
}

/// `{"type": "object", "properties": props, "required": names}`.
fn object_schema(props: Vec<(String, JsonValue)>, names: Vec<String>) -> (r: JsonValue)
    ensures
        object_schema_of(r, names@.map_values(|s: String| s@)),
{
    let req = names_value(&names);
    let mut es: Vec<(String, JsonValue)> = Vec::new();
    push_field(&mut es, "type", text("object"));
    push_field(&mut es, "properties", JsonValue::Object(props));
    push_field(&mut es, "required", req);
    proof {
        reveal_strlit("type");
        reveal_strlit("properties");
        reveal_strlit("required");
        reveal_strlit("object");
        assert("type"@.len() == 4);
        assert("properties"@.len() == 10);
        assert("required"@.len() == 8);
    }
    JsonValue::Object(es)
}

fn one(a: &str) -> (r: Vec<String>)
    ensures
        r@.map_values(|s: String| s@) == seq![a@],
{
    let mut v: Vec<String> = Vec::new();
    v.push(String::from_str(a));
    assert(v@.map_values(|s: String| s@) =~= seq![a@]);
    v
}

fn two(a: &str, b: &str) -> (r: Vec<String>)
    ensures
        r@.map_values(|s: String| s@) == seq![a@, b@],
{
    let mut v: Vec<String> = Vec::new();
    v.push(String::from_str(a));
    v.push(String::from_str(b));
    assert(v@.map_values(|s: String| s@) =~= seq![a@, b@]);
    v
}

fn tool_def(name: &str, description: &str, schema: JsonValue) -> (r: ToolDef)
    ensures
        r.name@ == name@,
        r.description@ == description@,
        r.input_schema == schema,
{
    ToolDef { name: String::from_str(name), description: String::from_str(description), input_schema: schema }
}

/// Every agent may call the tool: `["*"]`.
fn allow_all() -> (r: Vec<String>)
    ensures
        r@.map_values(|s: String| s@) == seq!["*"@],
{
    one("*")
}

/// Per-invocation context of a tool call.
#[derive(Debug)]
pub struct ToolContext {
    /// The agent invoking the tool.
    pub agent_id: String,
    /// The working directory file paths stay inside of.
    pub work_dir: std::path::PathBuf,
    /// Path prefixes that must not be written to.
    pub must_keep: Vec<String>,
    /// Command names that must not be run.
    pub denied_commands: Vec<String>,
}

/// Reads a file of the workspace.
#[derive(Debug, Clone, Copy)]
pub struct FileReadTool;

/// Writes a file of the workspace.
#[derive(Debug, Clone, Copy)]
pub struct FileWriteTool;

/// Runs a shell command in the workspace.
#[derive(Debug, Clone, Copy)]
pub struct TerminalTool;

/// Marks the task complete.
#[derive(Debug, Clone, Copy)]
pub struct TaskDoneTool;

/// A character's utterance.
#[derive(Debug, Clone, Copy)]
pub struct SpeakTool;

/// A change of confession stage.
#[derive(Debug, Clone, Copy)]
pub struct UpdateConfessionStageTool;

/// A clue unlocked.
#[derive(Debug, Clone, Copy)]
pub struct RevealClueTool;

/// A knowledge access decision.
#[derive(Debug, Clone, Copy)]
pub struct CheckKnowledgeTool;

/// An interrogation event.
#[derive(Debug, Clone, Copy)]
pub struct LogInterrogationEventTool;

impl FileReadTool {
    pub fn definition(&self) -> (r: ToolDef)
        ensures
            r.name@ == "file_read"@,
            r.description@ == "Read the contents of a file within the workspace."@,
            object_schema_of(r.input_schema, seq!["path"@]),
    {
        let mut props: Vec<(String, JsonValue)> = Vec::new();
        push_field(&mut props, "path", prop("string", Some("Path to the file (relative to work_dir or absolute within work_dir)")));
        tool_def("file_read", "Read the contents of a file within the workspace.", object_schema(props, one("path")))
    }

    pub fn risk_level(&self) -> (r: RiskLevel)
        ensures
            r == RiskLevel::R1,
    {
        RiskLevel::R1
    }

    pub fn allowed_agents(&self) -> (r: Vec<String>)
        ensures
            r@.map_values(|s: String| s@) == seq!["*"@],
    {
        allow_all()
    }

    /// Reading never asks for permission.
    pub fn needs_permission(&self, _args: &JsonValue) -> (r: bool)
        ensures
            !r,
    {
        false
    }
}

impl FileWriteTool {
    pub fn definition(&self) -> (r: ToolDef)
        ensures
            r.name@ == "file_write"@,
            r.description@ == "Write content to a file within the workspace."@,
            object_schema_of(r.input_schema, seq!["path"@, "content"@]),
    {
        let mut props: Vec<(String, JsonValue)> = Vec::new();
        push_field(&mut props, "path", prop("string", Some("Path to the file (relative to work_dir)")));
        push_field(&mut props, "content", prop("string", Some("Content to write to the file")));
        tool_def("file_write", "Write content to a file within the workspace.", object_schema(props, two("path", "content")))
    }

    pub fn risk_level(&self) -> (r: RiskLevel)
        ensures
            r == RiskLevel::R2,
    {
        RiskLevel::R2
    }

    pub fn allowed_agents(&self) -> (r: Vec<String>)
        ensures
            r@.map_values(|s: String| s@) == seq!["*"@],
    {
        allow_all()
    }

    /// Every write asks for permission.
    pub fn needs_permission(&self, _args: &JsonValue) -> (r: bool)
        ensures
            r,
    {
        true
    }
}

impl TerminalTool {
    pub fn definition(&self) -> (r: ToolDef)
        ensures
            r.name@ == "terminal"@,
            r.description@ == "Execute a shell command inside the workspace."@,
            object_schema_of(r.input_schema, seq!["command"@]),
    {
        let mut timeout: Vec<(String, JsonValue)> = Vec::new();
        push_field(&mut timeout, "type", text("integer"));
        push_field(&mut timeout, "description", text("Timeout in seconds (default 30, max 300)"));
        push_field(&mut timeout, "default", JsonValue::Number(crate::json::JsonNumber::PosInt(30)));
        let mut props: Vec<(String, JsonValue)> = Vec::new();
        push_field(&mut props, "command", prop("string", Some("Shell command to execute")));
        push_field(&mut props, "timeout_secs", JsonValue::Object(timeout));
        tool_def("terminal", "Execute a shell command inside the workspace.", object_schema(props, one("command")))
    }

    pub fn risk_level(&self) -> (r: RiskLevel)
        ensures
            r == RiskLevel::R3,
    {
        RiskLevel::R3
    }

    pub fn allowed_agents(&self) -> (r: Vec<String>)
        ensures
            r@.map_values(|s: String| s@) == seq!["*"@],
    {
        allow_all()
    }

    /// Every command asks for permission.
    pub fn needs_permission(&self, _args: &JsonValue) -> (r: bool)
        ensures
            r,
    {
        true
    }

    /// The input check: a non-blank command, a timeout within bounds, and
    /// a first word that is not a denied command.
    pub fn validate(&self, input: &JsonValue, ctx: &ToolContext) -> (r: Result<(), String>)
        ensures
            unit_result(r) == terminal_check(*input, ctx.denied_commands@.map_values(|d: String| d@)),
    {
        terminal_validate(input, &ctx.denied_commands)
    }
}

impl TaskDoneTool {
    pub fn definition(&self) -> (r: ToolDef)
        ensures
            r.name@ == "task_done"@,
            r.description@ == "Mark the task as complete with a summary and list of changed files."@,
            object_schema_of(r.input_schema, seq!["summary"@]),
    {
        let mut files: Vec<(String, JsonValue)> = Vec::new();
        push_field(&mut files, "type", text("array"));
        push_field(&mut files, "items", prop("string", None));
        push_field(&mut files, "description", text("List of files that were modified"));
        let mut notes: Vec<(String, JsonValue)> = Vec::new();
        push_field(&mut notes, "type", text("array"));
        push_field(&mut notes, "items", prop("string", None));
        push_field(&mut notes, "description", text("Additional notes"));
        let mut props: Vec<(String, JsonValue)> = Vec::new();
        push_field(&mut props, "summary", prop("string", Some("Human-readable summary of what was done")));
        push_field(&mut props, "changed_files", JsonValue::Object(files));
        push_field(&mut props, "notes", JsonValue::Object(notes));
        tool_def(
            "task_done",
            "Mark the task as complete with a summary and list of changed files.",
            object_schema(props, one("summary")),
        )
    }

    pub fn risk_level(&self) -> (r: RiskLevel)
        ensures
            r == RiskLevel::R1,
    {
        RiskLevel::R1
    }

    pub fn allowed_agents(&self) -> (r: Vec<String>)
        ensures
            r@.map_values(|s: String| s@) == seq!["*"@],
    {
        allow_all()
    }

    pub fn needs_permission(&self, _args: &JsonValue) -> (r: bool)
        ensures
            !r,
    {
        false
    }

    /// The input check: a non-blank `summary` string.
    pub fn validate(&self, input: &JsonValue, _ctx: &ToolContext) -> (r: Result<(), String>)
        ensures
            unit_result(r) == task_done_check(*input),
    {
        task_done_validate(input)
    }

    /// The result of a valid call is its input, unchanged.
    pub fn execute(&self, input: &JsonValue) -> (r: Result<JsonValue, String>)
        ensures
            task_done_check(*input) matches Err(e) ==> (r matches Err(re) && re@ == e),
            task_done_check(*input) is Ok ==> (r matches Ok(v) && json_same(*input, v)),
    {
        match task_done_validate(input) {
            Ok(()) => Ok(input.duplicate()),
            Err(e) => Err(e),
        }
    }
}

impl SpeakTool {
    pub fn definition(&self) -> (r: ToolDef)
        ensures
            r.name@ == "speak"@,
            r.description@ == "Return a deterministic NPC utterance payload."@,
            object_schema_of(r.input_schema, seq!["text"@, "emotion"@]),
    {
        let mut props: Vec<(String, JsonValue)> = Vec::new();
        push_field(&mut props, "text", prop("string", None));
        push_field(&mut props, "emotion", enum_prop(&["calm", "defensive", "nervous", "anxious", "angry", "broken"]));
        tool_def("speak", "Return a deterministic NPC utterance payload.", object_schema(props, two("text", "emotion")))
    }

    pub fn risk_level(&self) -> (r: RiskLevel)
        ensures
            r == RiskLevel::R1,
    {
        RiskLevel::R1
    }

    pub fn allowed_agents(&self) -> (r: Vec<String>)
        ensures
            r@.map_values(|s: String| s@) == seq!["*"@],
    {
        allow_all()
    }

    pub fn needs_permission(&self, _args: &JsonValue) -> (r: bool)
        ensures
            !r,
    {
        false
    }

    pub fn validate(&self, input: &JsonValue, _ctx: &ToolContext) -> (r: Result<(), String>)
        ensures
            unit_result(r) == speak_check(*input),
    {
        speak_validate(input)
    }
}

impl UpdateConfessionStageTool {
    pub fn definition(&self) -> (r: ToolDef)
        ensures
            r.name@ == "update_confession_stage"@,
            r.description@ == "Return a deterministic confession stage change payload."@,
            object_schema_of(r.input_schema, seq!["new_stage"@, "reason"@]),
    {
        let mut props: Vec<(String, JsonValue)> = Vec::new();
        push_field(&mut props, "new_stage", enum_prop(&["denial", "vague", "partial", "breakdown"]));
        push_field(&mut props, "reason", prop("string", None));
        tool_def(
            "update_confession_stage",
            "Return a deterministic confession stage change payload.",
            object_schema(props, two("new_stage", "reason")),
        )
    }

    pub fn risk_level(&self) -> (r: RiskLevel)
        ensures
            r == RiskLevel::R1,
    {
        RiskLevel::R1
    }

    pub fn allowed_agents(&self) -> (r: Vec<String>)
        ensures
            r@.map_values(|s: String| s@) == seq!["*"@],
    {
        allow_all()
    }

    pub fn needs_permission(&self, _args: &JsonValue) -> (r: bool)
        ensures
            !r,
    {
        false
    }

    pub fn validate(&self, input: &JsonValue, _ctx: &ToolContext) -> (r: Result<(), String>)
        ensures
            unit_result(r) == stage_tool_check(*input),
    {
        update_stage_validate(input)
    }
}

impl RevealClueTool {
    pub fn definition(&self) -> (r: ToolDef)
        ensures
            r.name@ == "reveal_clue"@,
            r.description@ == "Return a deterministic clue unlock payload."@,
            object_schema_of(r.input_schema, seq!["clue_id"@]),
    {
        let mut props: Vec<(String, JsonValue)> = Vec::new();
        push_field(&mut props, "clue_id", prop("string", None));
        tool_def("reveal_clue", "Return a deterministic clue unlock payload.", object_schema(props, one("clue_id")))
    }

    pub fn risk_level(&self) -> (r: RiskLevel)
        ensures
            r == RiskLevel::R1,
    {
        RiskLevel::R1
    }

    pub fn allowed_agents(&self) -> (r: Vec<String>)
        ensures
            r@.map_values(|s: String| s@) == seq!["*"@],
    {
        allow_all()
    }

    pub fn needs_permission(&self, _args: &JsonValue) -> (r: bool)
        ensures
            !r,
    {
        false
    }

    pub fn validate(&self, input: &JsonValue, _ctx: &ToolContext) -> (r: Result<(), String>)
        ensures
            unit_result(r) == match non_empty_spec(*input, "clue_id"@, "reveal_clue"@) {
                Ok(_) => Ok(()),
                Err(e) => Err(e),
            },
    {
        single_field_validate(input, "clue_id", "reveal_clue")
    }
}

impl CheckKnowledgeTool {
    pub fn definition(&self) -> (r: ToolDef)
        ensures
            r.name@ == "check_knowledge"@,
            r.description@ == "Return a deterministic knowledge access decision."@,
            object_schema_of(r.input_schema, seq!["fact_id"@]),
    {
        let mut props: Vec<(String, JsonValue)> = Vec::new();
        push_field(&mut props, "fact_id", prop("string", None));
        tool_def("check_knowledge", "Return a deterministic knowledge access decision.", object_schema(props, one("fact_id")))
    }

    pub fn risk_level(&self) -> (r: RiskLevel)
        ensures
            r == RiskLevel::R1,
    {
        RiskLevel::R1
    }

    pub fn allowed_agents(&self) -> (r: Vec<String>)
        ensures
            r@.map_values(|s: String| s@) == seq!["*"@],
    {
        allow_all()
    }

    pub fn needs_permission(&self, _args: &JsonValue) -> (r: bool)
        ensures
            !r,
    {
        false
    }

    pub fn validate(&self, input: &JsonValue, _ctx: &ToolContext) -> (r: Result<(), String>)
        ensures
            unit_result(r) == match non_empty_spec(*input, "fact_id"@, "check_knowledge"@) {
                Ok(_) => Ok(()),
                Err(e) => Err(e),
            },
    {
        single_field_validate(input, "fact_id", "check_knowledge")
    }
}

impl LogInterrogationEventTool {
    pub fn definition(&self) -> (r: ToolDef)
        ensures
            r.name@ == "log_interrogation_event"@,
            r.description@ == "Return a deterministic interrogation event payload."@,
            object_schema_of(r.input_schema, seq!["type"@, "payload"@]),
    {
        let mut props: Vec<(String, JsonValue)> = Vec::new();
        push_field(&mut props, "type", prop("string", None));
        push_field(&mut props, "payload", prop("object", None));
        tool_def(
            "log_interrogation_event",
            "Return a deterministic interrogation event payload.",
            object_schema(props, two("type", "payload")),
        )
    }

    pub fn risk_level(&self) -> (r: RiskLevel)
        ensures
            r == RiskLevel::R1,
    {
        RiskLevel::R1
    }

    pub fn allowed_agents(&self) -> (r: Vec<String>)
        ensures
            r@.map_values(|s: String| s@) == seq!["*"@],
    {
        allow_all()
    }

    pub fn needs_permission(&self, _args: &JsonValue) -> (r: bool)
        ensures
            !r,
    {
        false
    }

    pub fn validate(&self, input: &JsonValue, _ctx: &ToolContext) -> (r: Result<(), String>)
        ensures
            unit_result(r) == log_event_check(*input),
    {
        log_event_validate(input)
    }
}


// ── the narrative tools' payloads ─────────────────────────────────────

/// A tool's input check failed: the error it becomes.
pub open spec fn check_failed(check: Result<(), Seq<char>>, r: Result<JsonValue, ToolError>) -> bool {
    check matches Err(e) && r matches Err(te) && match te {
        ToolError::Denied(m) => m@ == e,
        ToolError::InvalidInput(m) => m@ == e,
        _ => false,
    }
}

fn obj2(k1: &str, v1: JsonValue, k2: &str, v2: JsonValue) -> (r: JsonValue)
    requires
        k1@ != k2@,
    ensures
        member(r, k1@) == Some(v1),
        member(r, k2@) == Some(v2),
{
    let mut es: Vec<(String, JsonValue)> = Vec::new();
    push_field(&mut es, k1, v1);
    push_field(&mut es, k2, v2);
    JsonValue::Object(es)
}

fn obj3(k1: &str, v1: JsonValue, k2: &str, v2: JsonValue, k3: &str, v3: JsonValue) -> (r: JsonValue)
    requires
        k1@ != k2@,
        k1@ != k3@,
        k2@ != k3@,
    ensures
        member(r, k1@) == Some(v1),
        member(r, k2@) == Some(v2),
        member(r, k3@) == Some(v3),
{
    let mut es: Vec<(String, JsonValue)> = Vec::new();
    push_field(&mut es, k1, v1);
    push_field(&mut es, k2, v2);
    push_field(&mut es, k3, v3);
    JsonValue::Object(es)
}

/// The string member `field` of a checked input.
fn field_text(input: &JsonValue, field: &str) -> (r: JsonValue)
    requires
        member_str(*input, field@) is Some,
    ensures
        str_of(r) == member_str(*input, field@),
{
    match input.get(field) {
        Some(v) => match v.as_str() {
            Some(t) => text(t),
            None => JsonValue::Null,
        },
        None => JsonValue::Null,
    }
}

impl SpeakTool {
    /// `{"event_type": "utterance_complete", "text", "emotion"}` for a valid
    /// input, the text and emotion as given.
    pub fn execute(&self, input: &JsonValue) -> (r: Result<JsonValue, ToolError>)
        ensures
            speak_check(*input) is Err ==> check_failed(speak_check(*input), r),
            speak_check(*input) is Ok ==> (r matches Ok(v) && member_str(v, "event_type"@) == Some(
                "utterance_complete"@,
            ) && member_str(v, "text"@) == member_str(*input, "text"@) && member_str(v, "emotion"@)
                == member_str(*input, "emotion"@)),
    {
        proof {
            reveal_strlit("event_type");
            reveal_strlit("text");
            reveal_strlit("emotion");
            assert("event_type"@.len() == 10);
            assert("text"@.len() == 4);
            assert("emotion"@.len() == 7);
        }
        match speak_validate(input) {
            Err(e) => Err(crate::tools::map_validate_err(e)),
            Ok(()) => Ok(obj3(
                "event_type",
                text("utterance_complete"),
                "text",
                field_text(input, "text"),
                "emotion",
                field_text(input, "emotion"),
            )),
        }
    }
}

impl UpdateConfessionStageTool {
    /// `{"event_type": "stage_change", "new_stage", "reason"}` for a valid
    /// input.
    pub fn execute(&self, input: &JsonValue) -> (r: Result<JsonValue, ToolError>)
        ensures
            stage_tool_check(*input) is Err ==> check_failed(stage_tool_check(*input), r),
            stage_tool_check(*input) is Ok ==> (r matches Ok(v) && member_str(v, "event_type"@) == Some(
                "stage_change"@,
            ) && member_str(v, "new_stage"@) == member_str(*input, "new_stage"@) && member_str(
                v,
                "reason"@,
            ) == member_str(*input, "reason"@)),
    {
        proof {
            reveal_strlit("event_type");
            reveal_strlit("new_stage");
            reveal_strlit("reason");
            assert("event_type"@.len() == 10);
            assert("new_stage"@.len() == 9);
            assert("reason"@.len() == 6);
        }
        match update_stage_validate(input) {
            Err(e) => Err(crate::tools::map_validate_err(e)),
            Ok(()) => Ok(obj3(
                "event_type",
                text("stage_change"),
                "new_stage",
                field_text(input, "new_stage"),
                "reason",
                field_text(input, "reason"),
            )),
        }
    }
}

impl RevealClueTool {
    /// `{"event_type": "clue_unlocked", "clue_id"}` for a valid input.
    pub fn execute(&self, input: &JsonValue) -> (r: Result<JsonValue, ToolError>)
        ensures
            non_empty_spec(*input, "clue_id"@, "reveal_clue"@) matches Err(e) ==> check_failed(Err(e), r),
            non_empty_spec(*input, "clue_id"@, "reveal_clue"@) is Ok ==> (r matches Ok(v) && member_str(
                v,
                "event_type"@,
            ) == Some("clue_unlocked"@) && member_str(v, "clue_id"@) == member_str(*input, "clue_id"@)),
    {
        proof {
            reveal_strlit("event_type");
            reveal_strlit("clue_id");
            assert("event_type"@.len() == 10);
            assert("clue_id"@.len() == 7);
        }
        match single_field_validate(input, "clue_id", "reveal_clue") {
            Err(e) => Err(crate::tools::map_validate_err(e)),
            Ok(()) => Ok(obj2("event_type", text("clue_unlocked"), "clue_id", field_text(input, "clue_id"))),
        }
    }
}

impl CheckKnowledgeTool {
    /// `{"fact_id", "allowed": true}` for a valid input.
    pub fn execute(&self, input: &JsonValue) -> (r: Result<JsonValue, ToolError>)
        ensures
            non_empty_spec(*input, "fact_id"@, "check_knowledge"@) matches Err(e) ==> check_failed(Err(e), r),
            non_empty_spec(*input, "fact_id"@, "check_knowledge"@) is Ok ==> (r matches Ok(v) && member_str(
                v,
                "fact_id"@,
            ) == member_str(*input, "fact_id"@) && member(v, "allowed"@) == Some(JsonValue::Bool(true))),
    {
        proof {
            reveal_strlit("fact_id");
            reveal_strlit("allowed");
            assert("fact_id"@[0] != "allowed"@[0]);
        }
        match single_field_validate(input, "fact_id", "check_knowledge") {
            Err(e) => Err(crate::tools::map_validate_err(e)),
            Ok(()) => Ok(obj2("fact_id", field_text(input, "fact_id"), "allowed", JsonValue::Bool(true))),
        }
    }
}

impl LogInterrogationEventTool {
    /// `{"event_type": type, "payload"}` for a valid input, the payload
    /// copied.
    pub fn execute(&self, input: &JsonValue) -> (r: Result<JsonValue, ToolError>)
        ensures
            log_event_check(*input) is Err ==> check_failed(log_event_check(*input), r),
            log_event_check(*input) is Ok ==> (r matches Ok(v) && member_str(v, "event_type"@) == member_str(
                *input,
                "type"@,
            ) && (member(v, "payload"@) matches Some(p) && member(*input, "payload"@) matches Some(q)
                && json_same(q, p))),
    {
        proof {
            reveal_strlit("event_type");
            reveal_strlit("payload");
            reveal_strlit("type");
            assert("event_type"@.len() == 10);
            assert("payload"@.len() == 7);
        }
        match log_event_validate(input) {
            Err(e) => Err(crate::tools::map_validate_err(e)),
            Ok(()) => {
                let payload = match input.get("payload") {
                    Some(p) => p.duplicate(),
                    None => JsonValue::Null,
                };
                Ok(obj2("event_type", field_text(input, "type"), "payload", payload))
            },
        }
    }
}

/// The narrative tools, as the narrative agents are given them.
pub fn narrative_tools() -> (r: Vec<BuiltinTool>)
    ensures
        r@ == seq![
            BuiltinTool::CheckKnowledge,
            BuiltinTool::LogInterrogationEvent,
            BuiltinTool::RevealClue,
            BuiltinTool::Speak,
            BuiltinTool::UpdateConfessionStage,
        ],
{
    let mut v: Vec<BuiltinTool> = Vec::new();
    v.push(BuiltinTool::CheckKnowledge);
    v.push(BuiltinTool::LogInterrogationEvent);
    v.push(BuiltinTool::RevealClue);
    v.push(BuiltinTool::Speak);
    v.push(BuiltinTool::UpdateConfessionStage);
    v
}

// ── the registry ──────────────────────────────────────────────────────

/// A built-in tool.
#[derive(Debug, Clone, Copy, PartialEq, Eq, Structural)]
pub enum BuiltinTool {
    FileRead,
    FileWrite,
    Terminal,
    TaskDone,
    Speak,
    UpdateConfessionStage,
    RevealClue,
    CheckKnowledge,
    LogInterrogationEvent,
}

/// The name a tool's definition carries.
pub open spec fn tool_name(t: BuiltinTool) -> Seq<char> {
    match t {
        BuiltinTool::FileRead => "file_read"@,
        BuiltinTool::FileWrite => "file_write"@,
        BuiltinTool::Terminal => "terminal"@,
        BuiltinTool::TaskDone => "task_done"@,
        BuiltinTool::Speak => "speak"@,
        BuiltinTool::UpdateConfessionStage => "update_confession_stage"@,
        BuiltinTool::RevealClue => "reveal_clue"@,
        BuiltinTool::CheckKnowledge => "check_knowledge"@,
        BuiltinTool::LogInterrogationEvent => "log_interrogation_event"@,
    }
}

/// The description a tool's definition carries.
pub open spec fn tool_description(t: BuiltinTool) -> Seq<char> {
    match t {
        BuiltinTool::FileRead => "Read the contents of a file within the workspace."@,
        BuiltinTool::FileWrite => "Write content to a file within the workspace."@,
        BuiltinTool::Terminal => "Execute a shell command inside the workspace."@,
        BuiltinTool::TaskDone => "Mark the task as complete with a summary and list of changed files."@,
        BuiltinTool::Speak => "Return a deterministic NPC utterance payload."@,
        BuiltinTool::UpdateConfessionStage => "Return a deterministic confession stage change payload."@,
        BuiltinTool::RevealClue => "Return a deterministic clue unlock payload."@,
        BuiltinTool::CheckKnowledge => "Return a deterministic knowledge access decision."@,
        BuiltinTool::LogInterrogationEvent => "Return a deterministic interrogation event payload."@,
    }
}

/// The inputs a tool's schema marks required, in order.
pub open spec fn tool_required(t: BuiltinTool) -> Seq<Seq<char>> {
    match t {
        BuiltinTool::FileRead => seq!["path"@],
        BuiltinTool::FileWrite => seq!["path"@, "content"@],
        BuiltinTool::Terminal => seq!["command"@],
        BuiltinTool::TaskDone => seq!["summary"@],
        BuiltinTool::Speak => seq!["text"@, "emotion"@],
        BuiltinTool::UpdateConfessionStage => seq!["new_stage"@, "reason"@],
        BuiltinTool::RevealClue => seq!["clue_id"@],
        BuiltinTool::CheckKnowledge => seq!["fact_id"@],
        BuiltinTool::LogInterrogationEvent => seq!["type"@, "payload"@],
    }
}

/// Whether `d` is the definition of tool `t`: its name, its description
/// and an object schema with its required inputs.
pub open spec fn is_definition_of(t: BuiltinTool, d: ToolDef) -> bool {
    &&& d.name@ == tool_name(t)
    &&& d.description@ == tool_description(t)
    &&& object_schema_of(d.input_schema, tool_required(t))
}

impl BuiltinTool {
    /// The tool's definition.
    pub fn definition(&self) -> (r: ToolDef)
        ensures
            is_definition_of(*self, r),
    {
        match self {
            BuiltinTool::FileRead => FileReadTool.definition(),
            BuiltinTool::FileWrite => FileWriteTool.definition(),
            BuiltinTool::Terminal => TerminalTool.definition(),
            BuiltinTool::TaskDone => TaskDoneTool.definition(),
            BuiltinTool::Speak => SpeakTool.definition(),
            BuiltinTool::UpdateConfessionStage => UpdateConfessionStageTool.definition(),
            BuiltinTool::RevealClue => RevealClueTool.definition(),
            BuiltinTool::CheckKnowledge => CheckKnowledgeTool.definition(),
            BuiltinTool::LogInterrogationEvent => LogInterrogationEventTool.definition(),
        }
    }

    /// The tool's name.
    pub fn name(&self) -> (r: &'static str)
        ensures
            r@ == tool_name(*self),
    {
        match self {
            BuiltinTool::FileRead => "file_read",
            BuiltinTool::FileWrite => "file_write",
            BuiltinTool::Terminal => "terminal",
            BuiltinTool::TaskDone => "task_done",
            BuiltinTool::Speak => "speak",
            BuiltinTool::UpdateConfessionStage => "update_confession_stage",
            BuiltinTool::RevealClue => "reveal_clue",
            BuiltinTool::CheckKnowledge => "check_knowledge",
            BuiltinTool::LogInterrogationEvent => "log_interrogation_event",
        }
    }

    /// The tool's risk level.
    pub fn risk_level(&self) -> (r: RiskLevel)
        ensures
            r == match *self {
                BuiltinTool::FileWrite => RiskLevel::R2,
                BuiltinTool::Terminal => RiskLevel::R3,
                _ => RiskLevel::R1,
            },
    {
        match self {
            BuiltinTool::FileWrite => RiskLevel::R2,
            BuiltinTool::Terminal => RiskLevel::R3,
            _ => RiskLevel::R1,
        }
    }

    /// The agents that may call the tool: every built-in tool allows all.
    pub fn allowed_agents(&self) -> (r: Vec<String>)
        ensures
            r@.map_values(|s: String| s@) == seq!["*"@],
    {
        allow_all()
    }

    /// Whether a call needs a permission round-trip: writes and commands.
    pub fn needs_permission(&self, _args: &JsonValue) -> (r: bool)
        ensures
            r == (*self == BuiltinTool::FileWrite || *self == BuiltinTool::Terminal),
    {
        match self {
            BuiltinTool::FileWrite => true,
            BuiltinTool::Terminal => true,
            _ => false,
        }
    }
}

/// An error of the registry.
#[derive(Debug, Clone, PartialEq, Eq)]
pub enum ToolRegistryError {
    /// A tool of that name is already registered.
    DuplicateToolName(String),
}

impl ToolRegistryError {
    /// `duplicate tool name: {name}`.
    pub fn display_text(&self) -> (r: String)
        ensures
            match *self {
                ToolRegistryError::DuplicateToolName(n) => r@ == "duplicate tool name: "@ + n@,
            },
    {
        match self {
            ToolRegistryError::DuplicateToolName(n) => concat2("duplicate tool name: ", n.as_str()),
        }
    }
}

/// Tools by name.  They are kept in the order of their names, which
/// makes every name occur once.
pub struct ToolRegistry {
    tools: Vec<BuiltinTool>,
}

/// Strictly increasing names.
pub open spec fn names_sorted(ts: Seq<BuiltinTool>) -> bool {
    forall|i: int, j: int| 0 <= i < j < ts.len() ==> seq_lt(tool_name(#[trigger] ts[i]), tool_name(#[trigger] ts[j]))
}

/// Whether a tool of that name is among `ts`.
pub open spec fn has_name(ts: Seq<BuiltinTool>, name: Seq<char>) -> bool {
    exists|i: int| 0 <= i < ts.len() && tool_name(#[trigger] ts[i]) == name
}

impl ToolRegistry {
    /// The registered tools, in the order of their names.
    pub closed spec fn view(&self) -> Seq<BuiltinTool> {
        self.tools@
    }

    /// The registry's invariant: names strictly increasing.
    pub open spec fn wf(&self) -> bool {
        names_sorted(self.view())
    }

    /// An empty registry.
    pub fn new() -> (r: Self)
        ensures
            r.wf(),
            r.view() == Seq::<BuiltinTool>::empty(),
    {
        let r = ToolRegistry { tools: Vec::new() };
        assert(r.view() =~= Seq::<BuiltinTool>::empty());
        r
    }

    /// Registers a tool under its name; a name already taken is refused
    /// and the registry left as it was.
    pub fn register(&mut self, tool: BuiltinTool) -> (r: Result<(), ToolRegistryError>)
        requires
            old(self).wf(),
        ensures
            final(self).wf(),
            has_name(old(self).view(), tool_name(tool)) ==> (r matches Err(ToolRegistryError::DuplicateToolName(n))
                && n@ == tool_name(tool) && final(self).view() == old(self).view()),
            !has_name(old(self).view(), tool_name(tool)) ==> (r is Ok && final(self).view().len()
                == old(self).view().len() + 1 && forall|t: BuiltinTool| #[trigger]
                final(self).view().contains(t) <==> (old(self).view().contains(t) || t == tool)),
    {
        let name = tool.name();
        let ghost s = self.tools@;
        let mut i: usize = 0;
        while i < self.tools.len()
            invariant
                i <= self.tools@.len(),
                self.tools@ == s,
                names_sorted(s),
                name@ == tool_name(tool),
                forall|k: int| 0 <= k < i ==> seq_lt(tool_name(#[trigger] s[k]), name@),
            ensures
                i <= s.len(),
                self.tools@ == s,
                forall|k: int| 0 <= k < i ==> seq_lt(tool_name(#[trigger] s[k]), name@),
                i < s.len() ==> seq_lt(name@, tool_name(s[i as int])),
            decreases self.tools@.len() - i,
        {
            let n = self.tools[i].name();
            if str_eq(n, name) {
                proof {
                    assert(tool_name(s[i as int]) == tool_name(tool));
                }
                return Err(ToolRegistryError::DuplicateToolName(String::from_str(name)));
            }
            if str_lt(name, n) {
                break;
            }
            proof {
                lemma_seq_lt_total(name@, n@);
            }
            i = i + 1;
        }
        proof {
            assert forall|k: int| 0 <= k < s.len() implies tool_name(#[trigger] s[k]) != tool_name(tool) by {
                if k < i {
                    lemma_seq_lt_total(tool_name(s[k]), name@);
                } else {
                    if k > i {
                        lemma_seq_lt_trans(name@, tool_name(s[i as int]), tool_name(s[k]));
                    }
                    lemma_seq_lt_total(name@, tool_name(s[k]));
                }
            }
        }
        self.tools.insert(i, tool);
        proof {
            let t = self.tools@;
            assert(t == s.insert(i as int, tool));
            assert forall|a: int, b: int| 0 <= a < b < t.len() implies seq_lt(tool_name(#[trigger] t[a]), tool_name(#[trigger] t[b])) by {
                if b < i {
                } else if b == i {
                } else if a < i {
                    if b - 1 > i {
                        lemma_seq_lt_trans(name@, tool_name(s[i as int]), tool_name(s[b - 1]));
                    }
                    lemma_seq_lt_trans(tool_name(t[a]), name@, tool_name(t[b]));
                } else if a == i {
                    if b - 1 > i {
                        lemma_seq_lt_trans(name@, tool_name(s[i as int]), tool_name(s[b - 1]));
                    }
                } else {
                }
            }
            assert forall|x: BuiltinTool| #[trigger] t.contains(x) <==> (s.contains(x) || x == tool) by {
                if t.contains(x) {
                    let j = choose|j: int| 0 <= j < t.len() && t[j] == x;
                    if j < i {
                        assert(s[j] == x);
                    } else if j > i {
                        assert(s[j - 1] == x);
                    }
                }
                if s.contains(x) {
                    let j = choose|j: int| 0 <= j < s.len() && s[j] == x;
                    if j < i {
                        assert(t[j] == x);
                    } else {
                        assert(t[j + 1] == x);
                    }
                }
                if x == tool {
                    assert(t[i as int] == x);
                }
            }
        }
        Ok(())
    }

    /// The tool registered under `name`.
    pub fn get(&self, name: &str) -> (r: Option<BuiltinTool>)
        ensures
            match r {
                Some(t) => self.view().contains(t) && tool_name(t) == name@,
                None => !has_name(self.view(), name@),
            },
    {
        let mut i: usize = 0;
        while i < self.tools.len()
            invariant
                i <= self.tools@.len(),
                forall|k: int| 0 <= k < i ==> tool_name(#[trigger] self.tools@[k]) != name@,
            decreases self.tools@.len() - i,
        {
            let t = self.tools[i];
            if str_eq(t.name(), name) {
                return Some(t);
            }
            i = i + 1;
        }
        None
    }

    /// All definitions, in the order of their names.
    pub fn definitions(&self) -> (r: Vec<ToolDef>)
        requires
            self.wf(),
        ensures
            r@.len() == self.view().len(),
            forall|i: int| 0 <= i < r@.len() ==> is_definition_of(self.view()[i], #[trigger] r@[i]),
            forall|i: int, j: int| 0 <= i < j < r@.len() ==> seq_lt((#[trigger] r@[i]).name@, (#[trigger] r@[j]).name@),
    {
        let mut out: Vec<ToolDef> = Vec::new();
        let mut i: usize = 0;
        while i < self.tools.len()
            invariant
                i <= self.tools@.len(),
                out@.len() == i,
                forall|k: int| 0 <= k < i ==> is_definition_of(self.tools@[k], #[trigger] out@[k]),
            decreases self.tools@.len() - i,
        {
            out.push(self.tools[i].definition());
            i = i + 1;
        }
        proof {
            assert forall|a: int, b: int| 0 <= a < b < out@.len() implies seq_lt((#[trigger] out@[a]).name@, (#[trigger] out@[b]).name@) by {
                assert(seq_lt(tool_name(self.tools@[a]), tool_name(self.tools@[b])));
            }
        }
        out
    }

    /// The number of registered tools.
    pub fn len(&self) -> (r: usize)
        ensures
            r == self.view().len(),
    {
        self.tools.len()
    }

    /// Whether no tool is registered.
    pub fn is_empty(&self) -> (r: bool)
        ensures
            r == (self.view().len() == 0),
    {
        self.tools.len() == 0
    }
}

} // verus!
