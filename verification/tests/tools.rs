use std::path::PathBuf;

use daedalusd::json::{JsonNumber, JsonValue};
use daedalusd::tools::catalog::{
    BuiltinTool, CheckKnowledgeTool, FileReadTool, FileWriteTool, LogInterrogationEventTool,
    RevealClueTool, SpeakTool, TaskDoneTool, TerminalTool, ToolContext, ToolRegistry,
    ToolRegistryError, UpdateConfessionStageTool, narrative_tools,
};
use daedalusd::tools::checks::{file_read_path, file_write_path};
use daedalusd::tools::{map_validate_err, ToolError};
use daedalusd::types::{RiskLevel, ToolDef};
use serde_json::Value;

fn to_json(v: Value) -> JsonValue {
    match v {
        Value::Null => JsonValue::Null,
        Value::Bool(b) => JsonValue::Bool(b),
        Value::Number(n) => JsonValue::Number(number_of(&n)),
        Value::String(s) => JsonValue::String(s),
        Value::Array(a) => JsonValue::Array(a.into_iter().map(to_json).collect()),
        Value::Object(m) => {
            JsonValue::Object(m.into_iter().map(|(k, v)| (k, to_json(v))).collect())
        }
    }
}

fn number_of(n: &serde_json::Number) -> JsonNumber {
    if let Some(u) = n.as_u64() {
        JsonNumber::PosInt(u)
    } else if let Some(i) = n.as_i64() {
        JsonNumber::NegInt(i)
    } else {
        let bits = n.as_f64().unwrap().to_bits();
        let negative = bits >> 63 == 1;
        let e = ((bits >> 52) & 0x7ff) as i32;
        let frac = bits & ((1u64 << 52) - 1);
        if e == 0 {
            JsonNumber::Float { negative, mantissa: frac, exponent: -1074 }
        } else {
            JsonNumber::Float { negative, mantissa: frac | (1u64 << 52), exponent: e - 1075 }
        }
    }
}

fn from_json(v: JsonValue) -> Value {
    match v {
        JsonValue::Null => Value::Null,
        JsonValue::Bool(b) => Value::Bool(b),
        JsonValue::Number(JsonNumber::PosInt(u)) => Value::from(u),
        JsonValue::Number(JsonNumber::NegInt(i)) => Value::from(i),
        JsonValue::Number(JsonNumber::Float { negative, mantissa, exponent }) => {
            let f = (mantissa as f64) * 2f64.powi(exponent);
            Value::from(if negative { -f } else { f })
        }
        JsonValue::String(s) => Value::String(s),
        JsonValue::Array(a) => Value::Array(a.into_iter().map(from_json).collect()),
        JsonValue::Object(es) => {
            Value::Object(es.into_iter().map(|(k, v)| (k, from_json(v))).collect())
        }
    }
}


fn json(text: &str) -> JsonValue {
    to_json(serde_json::from_str::<Value>(text).unwrap())
}

fn def_json(def: ToolDef) -> String {
    let mut m = serde_json::Map::new();
    m.insert("name".to_string(), Value::String(def.name));
    m.insert("description".to_string(), Value::String(def.description));
    m.insert("input_schema".to_string(), from_json(def.input_schema));
    serde_json::to_string(&Value::Object(m)).unwrap()
}

fn ctx(work_dir: &str) -> ToolContext {
    ToolContext {
        agent_id: "test-agent".into(),
        work_dir: PathBuf::from(work_dir),
        must_keep: vec![],
        denied_commands: vec![],
    }
}

fn ctx_with_denied(work_dir: &str, denied: Vec<&str>) -> ToolContext {
    ToolContext {
        agent_id: "test-agent".into(),
        work_dir: PathBuf::from(work_dir),
        must_keep: vec![],
        denied_commands: denied.iter().map(|s| s.to_string()).collect(),
    }
}

// ── task_done ───────────────────────────────────────────────────────

#[test]
fn task_done_risk_and_permission() {
    let t = TaskDoneTool;
    assert_eq!(t.risk_level(), RiskLevel::R1);
    assert_eq!(t.allowed_agents(), vec!["*".to_string()]);
    assert!(!t.needs_permission(&json(r#"{"summary": "done"}"#)));
}

#[test]
fn task_done_definition_serializable() {
    let text = def_json(TaskDoneTool.definition());
    assert!(text.contains("task_done"));
}

#[test]
fn empty_summary_rejected() {
    let err = TaskDoneTool.validate(&json(r#"{"summary": ""}"#), &ctx("/tmp")).unwrap_err();
    assert!(err.contains("empty"));
}

#[test]
fn missing_summary_rejected() {
    let err = TaskDoneTool.validate(&json("{}"), &ctx("/tmp")).unwrap_err();
    assert!(err.contains("string"));
}

#[test]
fn task_done_execute_returns_its_input() {
    let input = json(r#"{"summary":"Fixed the bug","changed_files":["src/main.rs"],"notes":["tested locally"]}"#);
    let out = TaskDoneTool.execute(&input).unwrap();
    assert_eq!(from_json(out), from_json(input));
    assert!(TaskDoneTool.execute(&json("{}")).is_err());
}

// ── terminal ────────────────────────────────────────────────────────

#[test]
fn terminal_risk_and_permission() {
    let t = TerminalTool;
    assert_eq!(t.risk_level(), RiskLevel::R3);
    assert_eq!(t.allowed_agents(), vec!["*".to_string()]);
    assert!(t.needs_permission(&json(r#"{"command": "echo hi"}"#)));
}

#[test]
fn terminal_definition_serializable() {
    let text = def_json(TerminalTool.definition());
    assert!(text.contains("terminal"));
    assert!(text.contains("command"));
    assert!(text.contains("\"default\":30"));
}

#[test]
fn denied_command_rejected_by_validate() {
    let err = TerminalTool
        .validate(&json(r#"{"command": "rm -rf /"}"#), &ctx_with_denied("/tmp", vec!["rm"]))
        .unwrap_err();
    assert!(err.contains("denied"));
    assert!(err.contains("rm"));
}

#[test]
fn allowed_similar_not_denied() {
    let result = TerminalTool.validate(&json(r#"{"command": "norm_rm file"}"#), &ctx_with_denied("/tmp", vec!["rm"]));
    assert!(result.is_ok(), "norm_rm should not be denied: {result:?}");
}

#[test]
fn terminal_timeout_bounds() {
    let c = ctx("/tmp");
    assert!(TerminalTool.validate(&json(r#"{"command":"ls","timeout_secs":0}"#), &c).is_err());
    assert!(TerminalTool.validate(&json(r#"{"command":"ls","timeout_secs":301}"#), &c).is_err());
    assert!(TerminalTool.validate(&json(r#"{"command":"ls","timeout_secs":300}"#), &c).is_ok());
    assert!(TerminalTool.validate(&json(r#"{"command":"   "}"#), &c).is_err());
}

// ── file tools ──────────────────────────────────────────────────────

#[test]
fn file_read_risk_and_permission() {
    let t = FileReadTool;
    assert_eq!(t.risk_level(), RiskLevel::R1);
    assert_eq!(t.allowed_agents(), vec!["*".to_string()]);
    assert!(!t.needs_permission(&json(r#"{"path": "test.txt"}"#)));
}

#[test]
fn file_read_definition_serializable() {
    let text = def_json(FileReadTool.definition());
    assert!(text.contains("file_read"));
    assert!(text.contains("path"));
}

#[test]
fn file_write_risk_and_permission() {
    let t = FileWriteTool;
    assert_eq!(t.risk_level(), RiskLevel::R2);
    assert_eq!(t.allowed_agents(), vec!["*".to_string()]);
    assert!(t.needs_permission(&json(r#"{"path": "out.txt", "content": "x"}"#)));
}

#[test]
fn file_write_definition_serializable() {
    let text = def_json(FileWriteTool.definition());
    assert!(text.contains("file_write"));
}

#[test]
fn file_paths_are_checked_before_resolution() {
    assert_eq!(file_read_path(&json(r#"{"path":"a.txt"}"#)), Ok("a.txt".to_string()));
    assert_eq!(file_read_path(&json(r#"{"path":""}"#)), Err("file_read: 'path' must not be empty".to_string()));
    assert_eq!(file_read_path(&json(r#"{}"#)), Err("file_read: 'path' must be a string".to_string()));
    assert_eq!(file_write_path(&json(r#"{"path":"a.txt"}"#)), Err("file_write: 'content' must be a string".to_string()));
    assert_eq!(file_write_path(&json(r#"{"path":"a.txt","content":""}"#)), Ok("a.txt".to_string()));
}

// ── narrative tools ─────────────────────────────────────────────────

#[test]
fn narrative_tools_are_all_low_risk_without_permission() {
    let tools = narrative_tools();
    let names: Vec<&str> = tools.iter().map(|t| t.name()).collect();
    assert_eq!(names, vec!["check_knowledge", "log_interrogation_event", "reveal_clue", "speak", "update_confession_stage"]);
    for t in tools {
        assert_eq!(t.risk_level(), RiskLevel::R1);
        assert!(!t.needs_permission(&JsonValue::Null));
    }
    assert!(SpeakTool.allowed_agents() == vec!["*".to_string()]);
    assert!(!RevealClueTool.needs_permission(&JsonValue::Null));
}

#[test]
fn speak_payload_keeps_text_and_emotion() {
    let out = SpeakTool.execute(&json(r#"{"text":" Hi ","emotion":"calm"}"#)).unwrap();
    let v = from_json(out);
    assert_eq!(v["event_type"], "utterance_complete");
    assert_eq!(v["text"], " Hi ");
    assert_eq!(v["emotion"], "calm");
    assert!(SpeakTool.validate(&json(r#"{"text":"Hi","emotion":"happy"}"#), &ctx("/tmp")).is_err());
}

#[test]
fn speak_text_limit_is_500_characters() {
    let ok = format!(r#"{{"text":"{}","emotion":"calm"}}"#, "字".repeat(500));
    assert!(SpeakTool.validate(&json(&ok), &ctx("/tmp")).is_ok());
    let long = format!(r#"{{"text":"{}","emotion":"calm"}}"#, "a".repeat(501));
    let err = SpeakTool.validate(&json(&long), &ctx("/tmp")).unwrap_err();
    assert_eq!(err, "speak: 'text' must be at most 500 characters");
}

#[test]
fn stage_clue_knowledge_and_event_payloads() {
    let v = from_json(UpdateConfessionStageTool.execute(&json(r#"{"new_stage":"vague","reason":"pressed"}"#)).unwrap());
    assert_eq!(v["event_type"], "stage_change");
    assert_eq!(v["new_stage"], "vague");
    assert!(UpdateConfessionStageTool.execute(&json(r#"{"new_stage":"confessed","reason":"x"}"#)).is_err());
    let v = from_json(RevealClueTool.execute(&json(r#"{"clue_id":"c1"}"#)).unwrap());
    assert_eq!(v["event_type"], "clue_unlocked");
    assert_eq!(v["clue_id"], "c1");
    let v = from_json(CheckKnowledgeTool.execute(&json(r#"{"fact_id":"f1"}"#)).unwrap());
    assert_eq!(v["fact_id"], "f1");
    assert_eq!(v["allowed"], true);
    let v = from_json(LogInterrogationEventTool.execute(&json(r#"{"type":"note","payload":{"a":1}}"#)).unwrap());
    assert_eq!(v["event_type"], "note");
    assert_eq!(v["payload"]["a"], 1);
    let err = LogInterrogationEventTool.execute(&json(r#"{"type":"note","payload":[1]}"#)).unwrap_err();
    assert!(matches!(err, ToolError::InvalidInput(m) if m == "log_interrogation_event: 'payload' must be a JSON object"));
}

#[test]
fn validation_errors_become_tool_errors() {
    assert!(matches!(map_validate_err("terminal: command 'rm' is denied".into()), ToolError::Denied(_)));
    assert!(matches!(map_validate_err("path under must_keep".into()), ToolError::Denied(_)));
    assert!(matches!(map_validate_err("speak: 'text' must be a string".into()), ToolError::InvalidInput(_)));
    assert_eq!(ToolError::Denied("x".into()).display_text(), "denied: x");
    assert_eq!(ToolError::InvalidInput("y".into()).display_text(), "invalid input: y");
    assert_eq!(ToolError::Execution("z".into()).display_text(), "execution error: z");
}

// ── registry ────────────────────────────────────────────────────────

#[test]
fn register_and_get() {
    let mut r = ToolRegistry::new();
    r.register(BuiltinTool::FileRead).unwrap();
    let found = r.get("file_read").expect("should find file_read");
    assert_eq!(found.definition().name, "file_read");
}

#[test]
fn duplicate_register_rejected() {
    let mut r = ToolRegistry::new();
    r.register(BuiltinTool::FileRead).unwrap();
    let err = r.register(BuiltinTool::FileRead).unwrap_err();
    assert_eq!(err, ToolRegistryError::DuplicateToolName("file_read".into()));
    assert_eq!(err.display_text(), "duplicate tool name: file_read");
    assert_eq!(r.len(), 1);
}

#[test]
fn unknown_tool_returns_none() {
    let r = ToolRegistry::new();
    assert!(r.get("nonexistent").is_none());
}

#[test]
fn definitions_sorted_by_name() {
    let mut r = ToolRegistry::new();
    r.register(BuiltinTool::FileWrite).unwrap();
    r.register(BuiltinTool::FileRead).unwrap();
    let defs = r.definitions();
    assert_eq!(defs.len(), 2);
    assert_eq!(defs[0].name, "file_read");
    assert_eq!(defs[1].name, "file_write");
}

#[test]
fn definitions_empty_registry() {
    let r = ToolRegistry::new();
    assert!(r.definitions().is_empty());
    assert!(r.is_empty());
}

#[test]
fn every_builtin_tool_registers_once_in_name_order() {
    let all = [
        BuiltinTool::Terminal, BuiltinTool::Speak, BuiltinTool::FileWrite, BuiltinTool::TaskDone,
        BuiltinTool::RevealClue, BuiltinTool::LogInterrogationEvent, BuiltinTool::FileRead,
        BuiltinTool::UpdateConfessionStage, BuiltinTool::CheckKnowledge,
    ];
    let mut r = ToolRegistry::new();
    for t in all {
        r.register(t).unwrap();
    }
    for t in all {
        assert!(r.register(t).is_err());
    }
    let names: Vec<String> = r.definitions().into_iter().map(|d| d.name).collect();
    let mut sorted = names.clone();
    sorted.sort();
    assert_eq!(names, sorted);
    assert_eq!(names.len(), 9);
}

#[test]
fn tool_errors_become_tool_failures() {
    let e = ToolError::Execution("terminal: timed out after 5s".into()).into_agent_error();
    assert_eq!(e.reason, daedalusd::error::ErrorKind::ToolFailure);
    assert_eq!(e.detail, "execution error: terminal: timed out after 5s");
    let e = ToolError::Denied("no".into()).into_agent_error();
    assert_eq!(e.detail, "denied: no");
}

#[test]
fn every_builtin_tool_allows_all_agents() {
    for t in [BuiltinTool::FileRead, BuiltinTool::Terminal, BuiltinTool::Speak, BuiltinTool::TaskDone] {
        assert_eq!(t.allowed_agents(), vec!["*".to_string()]);
    }
}
