use daedalusd::agent::machine::{AgentLoopState, LoopAction};
use daedalusd::error::{AgentError, ErrorKind};
use daedalusd::json::{parse_json_text, JsonValue};
use daedalusd::types::{PermissionDecision, StreamChunk, ToolResult};

fn text(s: &str) -> Result<Option<StreamChunk>, AgentError> {
    Ok(Some(StreamChunk::Text { content: s.into() }))
}

fn call(id: &str, name: &str) -> Result<Option<StreamChunk>, AgentError> {
    Ok(Some(StreamChunk::ToolCall { id: id.into(), name: name.into(), input: parse_json_text("{}").unwrap() }))
}

fn ok(output: &str) -> Result<ToolResult, AgentError> {
    Ok(ToolResult { output: output.into(), is_error: false })
}

fn roles(s: &AgentLoopState) -> Vec<(String, String)> {
    s.messages().iter().map(|m| (m.role.clone(), m.content.clone())).collect()
}

fn to_stream(s: &mut AgentLoopState) {
    assert!(matches!(s.on_stream_opened(Ok(())), LoopAction::ReadChunk));
}

#[test]
fn plain_reply_finishes_with_its_text() {
    let mut s = AgentLoopState::new("t1".into(), "coder".into(), Some("try again".into()));
    assert!(matches!(s.start(), LoopAction::BuildPrompt));
    assert!(matches!(s.on_prompt(Ok("system prompt".into())), LoopAction::SendToModel));
    assert_eq!(roles(&s), vec![("system".to_string(), "system prompt".to_string()), ("system".to_string(), "try again".to_string())]);
    to_stream(&mut s);
    assert!(matches!(s.on_chunk(text("Hello ")), LoopAction::ReadChunk));
    assert!(matches!(s.on_chunk(text("world")), LoopAction::ReadChunk));
    match s.on_chunk(Ok(None)) {
        LoopAction::Finish(o) => {
            assert_eq!(o.summary, "Hello world");
            assert_eq!(o.task_id, "t1");
            assert_eq!(o.status, "waiting_for_verification");
        }
        other => panic!("expected finish, got {:?}", other),
    }
}

#[test]
fn done_chunk_summarises_every_assistant_message() {
    let mut s = AgentLoopState::new("t1".into(), "coder".into(), None);
    s.on_prompt(Ok("sys".into()));
    to_stream(&mut s);
    s.on_chunk(text("first"));
    s.on_chunk(call("c1", "file_read"));
    assert!(matches!(s.on_chunk(Ok(Some(StreamChunk::Done))), LoopAction::LookUpTool));
    assert_eq!(s.current_call().unwrap().name, "file_read");
    assert!(matches!(s.on_tool_lookup(Some((vec!["*".into()], false))), LoopAction::RunTool));
    assert!(matches!(s.on_tool_result(ok("contents")), LoopAction::SendToModel));
    to_stream(&mut s);
    s.on_chunk(text("second"));
    match s.on_chunk(Ok(Some(StreamChunk::Done))) {
        LoopAction::Finish(o) => assert_eq!(o.summary, "first\nsecond"),
        other => panic!("expected finish, got {:?}", other),
    }
}

#[test]
fn task_done_ends_the_loop_and_drops_waiting_calls() {
    let mut s = AgentLoopState::new("t1".into(), "coder".into(), None);
    s.on_prompt(Ok("sys".into()));
    to_stream(&mut s);
    s.on_chunk(call("c1", "task_done"));
    s.on_chunk(call("c2", "file_read"));
    assert!(matches!(s.on_chunk(Ok(None)), LoopAction::LookUpTool));
    assert!(matches!(s.on_tool_lookup(Some((vec!["*".into()], false))), LoopAction::RunTool));
    match s.on_tool_result(ok("{\"summary\":\"fixed\"}")) {
        LoopAction::Finish(o) => assert_eq!(o.summary, "{\"summary\":\"fixed\"}"),
        other => panic!("expected finish, got {:?}", other),
    }
}

#[test]
fn failed_task_done_moves_to_the_next_call() {
    let mut s = AgentLoopState::new("t1".into(), "coder".into(), None);
    s.on_prompt(Ok("sys".into()));
    to_stream(&mut s);
    s.on_chunk(call("c1", "task_done"));
    s.on_chunk(call("c2", "file_read"));
    s.on_chunk(Ok(None));
    s.on_tool_lookup(Some((vec!["*".into()], false)));
    let r = s.on_tool_result(Ok(ToolResult { output: "bad".into(), is_error: true }));
    assert!(matches!(r, LoopAction::LookUpTool));
    assert_eq!(s.current_call().unwrap().name, "file_read");
}

#[test]
fn permission_is_asked_once_and_denial_goes_back_to_the_model() {
    let mut s = AgentLoopState::new("t1".into(), "coder".into(), None);
    s.on_prompt(Ok("sys".into()));
    to_stream(&mut s);
    s.on_chunk(call("c1", "terminal"));
    s.on_chunk(Ok(None));
    assert!(matches!(s.on_tool_lookup(Some((vec!["*".into()], true))), LoopAction::RequestPermission));
    assert!(matches!(s.on_permission(Some(PermissionDecision::Approved)), LoopAction::LookUpTool));
    assert!(matches!(s.on_tool_lookup(Some((vec!["*".into()], true))), LoopAction::RunTool));
    assert!(matches!(s.on_tool_result(ok("ran")), LoopAction::SendToModel));
    to_stream(&mut s);
    s.on_chunk(call("c2", "terminal"));
    s.on_chunk(Ok(None));
    assert!(matches!(s.on_tool_lookup(Some((vec!["*".into()], true))), LoopAction::RequestPermission));
    assert!(matches!(s.on_permission(Some(PermissionDecision::Denied)), LoopAction::SendToModel));
    assert_eq!(s.messages().last().unwrap().content, "denied");
}

#[test]
fn unknown_or_forbidden_tools_fail_the_task() {
    let mut s = AgentLoopState::new("t1".into(), "coder".into(), None);
    s.on_prompt(Ok("sys".into()));
    to_stream(&mut s);
    s.on_chunk(call("c1", "ghost"));
    s.on_chunk(Ok(None));
    match s.on_tool_lookup(None) {
        LoopAction::Fail(e) => {
            assert_eq!(e.reason, ErrorKind::ToolFailure);
            assert_eq!(e.detail, "unknown tool: ghost");
        }
        other => panic!("expected failure, got {:?}", other),
    }
    assert_eq!(s.messages().last().unwrap().content, "error: agent error (ToolFailure): unknown tool: ghost");
    let mut t = AgentLoopState::new("t1".into(), "coder".into(), None);
    t.on_prompt(Ok("sys".into()));
    to_stream(&mut t);
    t.on_chunk(call("c1", "terminal"));
    t.on_chunk(Ok(None));
    match t.on_tool_lookup(Some((vec!["planner".into()], false))) {
        LoopAction::Fail(e) => assert_eq!(e.detail, "agent 'coder' is not allowed to use tool 'terminal'"),
        other => panic!("expected failure, got {:?}", other),
    }
}

#[test]
fn thirty_round_trips_at_most() {
    let mut s = AgentLoopState::new("t1".into(), "coder".into(), None);
    let mut action = s.on_prompt(Ok("sys".into()));
    let mut rounds = 0;
    while let LoopAction::SendToModel = action {
        rounds += 1;
        to_stream(&mut s);
        s.on_chunk(call("c", "file_read"));
        s.on_chunk(Ok(None));
        s.on_tool_lookup(Some((vec!["*".into()], false)));
        action = s.on_tool_result(ok("x"));
    }
    assert_eq!(rounds, 30);
    match action {
        LoopAction::Fail(e) => {
            assert_eq!(e.reason, ErrorKind::MaxIterations);
            assert_eq!(e.detail, "exceeded 30 LLM round-trips");
        }
        other => panic!("expected failure, got {:?}", other),
    }
}

#[test]
fn failures_along_the_way() {
    let mut s = AgentLoopState::new("t1".into(), "coder".into(), None);
    match s.on_prompt(Err("SOUL.md missing".into())) {
        LoopAction::Fail(e) => assert_eq!(e.detail, "prompt: SOUL.md missing"),
        other => panic!("expected failure, got {:?}", other),
    }
    let mut s = AgentLoopState::new("t1".into(), "coder".into(), None);
    s.on_prompt(Ok("sys".into()));
    to_stream(&mut s);
    s.on_chunk(text("partial"));
    let e = AgentError { reason: ErrorKind::Cancelled, detail: "cancelled".into(), provider_error: None };
    assert!(matches!(s.on_chunk(Err(e)), LoopAction::Fail(x) if x.reason == ErrorKind::Cancelled));
    assert_eq!(s.messages().last().unwrap().content, "partial");
    let mut s = AgentLoopState::new("t1".into(), "coder".into(), None);
    s.on_prompt(Ok("sys".into()));
    to_stream(&mut s);
    s.on_chunk(call("c1", "terminal"));
    s.on_chunk(Ok(None));
    s.on_tool_lookup(Some((vec!["*".into()], true)));
    assert!(matches!(s.on_interrupted(ErrorKind::TaskTimeout), LoopAction::Fail(x) if x.detail == "permission interrupted" && x.reason == ErrorKind::TaskTimeout));
    let _unused: Option<JsonValue> = None;
}
