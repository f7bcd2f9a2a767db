use daedalusd::daemon::{first_run, spawn_step, SpawnAction, SpawnEvent, TASK_TIMEOUT_SECS};
use daedalusd::error::ErrorCode;
use daedalusd::gate::{tags_of_lowered, SemanticTag};
use daedalusd::agent::capabilities::AgentCapabilities;
use daedalusd::agent::machine::{AgentLoopState, LoopAction};
use daedalusd::agent::prompt_sources::preferences_section;
use daedalusd::error::{AgentError, ErrorKind, ProviderError};
use daedalusd::ipc::session::PermissionTable;
use daedalusd::json::parse_json_text;
use daedalusd::llm::ApiKey;
use daedalusd::pipeline::status::{TaskRow, TaskStatus};
use daedalusd::tools::catalog::{BuiltinTool, ToolRegistry};
use daedalusd::types::{Message, StreamChunk, SystemErrorCode};

#[test]
fn preferences_member_is_pretty_printed() {
    let s = preferences_section(r#"{"preferences":{"tone":"terse","depth":2}}"#).unwrap();
    assert_eq!(s, "{\n  \"depth\": 2,\n  \"tone\": \"terse\"\n}");
}

#[test]
fn preferences_member_keeps_floats() {
    let s = preferences_section(r#"{"preferences":{"temperature":0.7}}"#).unwrap();
    assert_eq!(s, "{\n  \"temperature\": 0.7\n}");
}

#[test]
fn preferences_missing_member_is_null() {
    assert_eq!(preferences_section(r#"{"other":1}"#).unwrap(), "null");
}

#[test]
fn preferences_not_an_object_is_refused() {
    assert_eq!(preferences_section("[1,2]").unwrap_err(), "invalid type: expected a JSON object");
}

#[test]
fn preferences_invalid_json_gives_the_parser_error() {
    let e = preferences_section("{oops").unwrap_err();
    assert!(e.contains("line 1 column 2"), "{e}");
}

#[test]
fn json_pointer_keys_with_slash_and_tilde_are_read() {
    let v = parse_json_text(r#"{"a/b":{"c~d":[1,{"e":true}]}}"#).unwrap();
    let inner = v.get("a/b").unwrap().get("c~d").unwrap().as_array().unwrap();
    assert_eq!(inner.len(), 2);
    assert_eq!(inner[1].get("e").unwrap().as_bool(), Some(true));
}

#[test]
fn mismatched_permission_answer_keeps_it_pending_and_replies_invalid() {
    let mut t = PermissionTable::new();
    t.insert("perm-1".into(), "real-req".into());
    let reply = t.respond("perm-1", "wrong-req", "2026-06-15T10:00:00.000Z".into());
    match reply {
        Some(Message::SystemError(e)) => {
            assert_eq!(e.error, SystemErrorCode::InvalidMessage);
            assert_eq!(e.req_id.as_deref(), Some("wrong-req"));
            assert!(e.detail.contains("req_id mismatch"));
            assert_eq!(e.ts, "2026-06-15T10:00:00.000Z");
        }
        other => panic!("expected an error reply, got {:?}", other),
    }
    assert!(t.respond("perm-1", "real-req", "t".into()).is_none());
    match t.respond("perm-1", "real-req", "t".into()) {
        Some(Message::SystemError(e)) => assert_eq!(e.detail, "unknown permission id 'perm-1'"),
        other => panic!("expected an error reply, got {:?}", other),
    }
}

#[test]
fn loop_capabilities_list_the_registry() {
    let mut r = ToolRegistry::new();
    r.register(BuiltinTool::Terminal).unwrap();
    r.register(BuiltinTool::FileRead).unwrap();
    let c = AgentCapabilities::of_loop("coder", &r);
    assert_eq!(c.agent_id, "coder");
    assert_eq!(c.description, "Built-in Rust agent loop");
    assert_eq!(c.tool_names, vec!["file_read".to_string(), "terminal".to_string()]);
}

#[test]
fn task_row_reads_unknown_status_as_created() {
    let r = TaskRow::from_columns(7, "t1".into(), None, "bogus", 10, 11);
    assert_eq!(r.status, TaskStatus::Created);
    let r = TaskRow::from_columns(7, "t1".into(), Some("a".into()), "running", 10, 11);
    assert_eq!(r.status, TaskStatus::Running);
    assert_eq!((r.id, r.created_at, r.updated_at), (7, 10, 11));
}

#[test]
fn definitions_carry_each_tool_whole() {
    let mut r = ToolRegistry::new();
    r.register(BuiltinTool::FileWrite).unwrap();
    let defs = r.definitions();
    assert_eq!(defs[0].description, "Write content to a file within the workspace.");
    let req = defs[0].input_schema.get("required").unwrap().as_array().unwrap();
    assert_eq!(req.len(), 2);
}

#[test]
fn key_from_string_exposes_it() {
    let k = ApiKey::from("sk-1".to_string());
    assert_eq!(k.expose(), "sk-1");
}

#[test]
fn streamed_tool_call_is_kept_whole() {
    let mut s = AgentLoopState::new("t1".into(), "coder".into(), None);
    s.on_prompt(Ok("sys".into()));
    assert!(matches!(s.on_stream_opened(Ok(())), LoopAction::ReadChunk));
    let input = parse_json_text(r#"{"path":"src/a.rs"}"#).unwrap();
    s.on_chunk(Ok(Some(StreamChunk::ToolCall { id: "c9".into(), name: "file_read".into(), input })));
    assert!(matches!(s.on_chunk(Ok(None)), LoopAction::LookUpTool));
    let c = s.current_call().unwrap();
    assert_eq!(c.id, "c9");
    assert_eq!(c.name, "file_read");
    assert_eq!(c.input.get("path").unwrap().as_str(), Some("src/a.rs"));
}

#[test]
fn stream_open_failure_keeps_the_provider_error() {
    let mut s = AgentLoopState::new("t1".into(), "coder".into(), None);
    s.on_prompt(Ok("sys".into()));
    let e = AgentError {
        reason: ErrorKind::ProviderExhausted,
        detail: "all models failed".into(),
        provider_error: Some(ProviderError::Timeout),
    };
    match s.on_stream_opened(Err(e)) {
        LoopAction::Fail(x) => {
            assert_eq!(x.detail, "all models failed");
            assert!(matches!(x.provider_error, Some(ProviderError::Timeout)));
        }
        other => panic!("expected failure, got {:?}", other),
    }
}

#[test]
fn cloned_key_keeps_its_secret() {
    let k = ApiKey::new("sk-2");
    assert_eq!(k.clone().expose(), "sk-2");
}

#[test]
fn tags_of_lowered_text() {
    assert_eq!(tags_of_lowered(ErrorCode::ToolFailure, "permission denied"), vec![SemanticTag::Permanent, SemanticTag::PermissionDenied]);
    assert_eq!(tags_of_lowered(ErrorCode::ToolFailure, "file not found"), vec![SemanticTag::Transient]);
    assert_eq!(tags_of_lowered(ErrorCode::ProviderExhausted, "dns failure"), vec![SemanticTag::Transient]);
    assert_eq!(tags_of_lowered(ErrorCode::ProviderExhausted, "quota"), vec![SemanticTag::Transient, SemanticTag::ResourceExhausted]);
}

#[test]
fn starting_a_task_step_by_step() {
    assert!(matches!(spawn_step("t1", SpawnEvent::Built(Ok(()))), SpawnAction::InsertRun));
    assert!(matches!(spawn_step("t1", SpawnEvent::Built(Err("no model".into()))), SpawnAction::Refuse(m) if m == "failed to build AgentLoop: no model"));
    assert!(matches!(spawn_step("t1", SpawnEvent::RunInserted(Ok(()))), SpawnAction::CreateTask));
    assert!(matches!(spawn_step("t1", SpawnEvent::RunInserted(Err("locked".into()))), SpawnAction::Refuse(m) if m == "failed to insert agent_runs row: locked"));
    assert!(matches!(spawn_step("t1", SpawnEvent::TaskCreated(Ok(()))), SpawnAction::Launch));
    assert!(matches!(spawn_step("t1", SpawnEvent::TaskCreated(Err("dup".into()))), SpawnAction::LogAndLaunch(m) if m == "daedalusd pipeline: failed to create task t1: dup"));
    let r = first_run("r1".into(), "coder".into(), "t1".into(), 42);
    assert_eq!((r.spawn_depth, r.spawned_at, r.timeout_seconds), (0, 42, Some(TASK_TIMEOUT_SECS)));
    assert!(r.parent_run_id.is_none());
}
