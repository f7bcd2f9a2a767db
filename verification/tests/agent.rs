use daedalusd::agent::heartbeat::{keep_beating, HeartbeatTick};
use daedalusd::agent::prompt::compose_prompt;
use daedalusd::agent::sections::{
    agent_section, authority_section, feedback_section, history_section, join_strings, knowledge_target,
    permission_or_default, project_section, skills_section, rank_skills, AuthorityRule, FeedbackEntry, PastRun,
    SkillDoc,
};
use daedalusd::agent::steps::{
    after_tool_result, check_tool_access, done_summary, must_keep_of, next_iteration, retry_feedback, AfterTool,
    OutboxBuilder,
};
use daedalusd::config::{ModelEntry, ModelsConfig, ProviderEntry, ThinkingMode};
use daedalusd::daemon::{after_failure, gate_context, AfterFailure, AttemptState};
use daedalusd::db::registry::AgentRunStatus;
use daedalusd::error::{AgentError, DaedalusError, ErrorCode, ErrorKind, ProviderError};
use daedalusd::gate::{CriteriaRegistry, GateAction, GateCriteria, GateRouter};
use daedalusd::http::tasks::http_task_card;
use daedalusd::json::{parse_json_text, JsonNumber, JsonValue};
use daedalusd::llm::anthropic::AnthropicStreamState;
use daedalusd::llm::openai_compat::OpenAiStreamState;
use daedalusd::llm::router::{after_provider_error, api_key_var, chain_exhausted, not_registered, provider_kind, resolve_model, Fallback, ProviderKind};
use daedalusd::types::{ChatMessage, StreamChunk};
use serde_json::Value;

fn from_json(v: JsonValue) -> Value {
    match v {
        JsonValue::Null => Value::Null,
        JsonValue::Bool(b) => Value::Bool(b),
        JsonValue::Number(JsonNumber::PosInt(u)) => Value::from(u),
        JsonValue::Number(JsonNumber::NegInt(i)) => Value::from(i),
        JsonValue::Number(JsonNumber::Float { negative, mantissa, exponent }) => {
            let f = (mantissa as f64) * 2f64.powi(exponent);
            Value::from(if negative { -f } else { f })
        }
        JsonValue::String(s) => Value::String(s),
        JsonValue::Array(a) => Value::Array(a.into_iter().map(from_json).collect()),
        JsonValue::Object(es) => {
            Value::Object(es.into_iter().map(|(k, v)| (k, from_json(v))).collect())
        }
    }
}


fn json(text: &str) -> JsonValue {
    parse_json_text(text).unwrap()
}

fn strings(items: &[&str]) -> Vec<String> {
    items.iter().map(|s| s.to_string()).collect()
}

fn msg(role: &str, content: &str) -> ChatMessage {
    ChatMessage { role: role.into(), content: content.into(), tool_call_id: None, tool_calls: vec![] }
}

fn err(reason: ErrorKind, detail: &str) -> AgentError {
    AgentError { reason, detail: detail.into(), provider_error: None }
}

fn parse_text(e: &ProviderError) -> String {
    match e {
        ProviderError::Parse(m) => m.clone(),
        other => panic!("expected a parse error, got {:?}", other),
    }
}

// ── Anthropic stream ────────────────────────────────────────────────

#[test]
fn anthropic_stream_text_tool_and_done() {
    let mut s = AnthropicStreamState::new();
    let c = s.on_data(r#"{"type":"content_block_delta","delta":{"type":"text_delta","text":"Hi"}}"#).unwrap();
    assert!(matches!(c, Some(StreamChunk::Text { content }) if content == "Hi"));
    assert!(s.on_data(r#"{"type":"content_block_delta","delta":{"type":"text_delta","text":""}}"#).unwrap().is_none());
    assert!(s.on_data(r#"{"type":"content_block_start","content_block":{"type":"tool_use","id":"t1","name":"file_read"}}"#).unwrap().is_none());
    assert!(s.on_data(r#"{"type":"content_block_delta","delta":{"type":"input_json_delta","partial_json":"{\"path\":"}}"#).unwrap().is_none());
    assert!(s.on_data(r#"{"type":"content_block_delta","delta":{"type":"input_json_delta","partial_json":"\"/x\"}"}}"#).unwrap().is_none());
    match s.on_data(r#"{"type":"content_block_stop"}"#).unwrap() {
        Some(StreamChunk::ToolCall { id, name, input }) => {
            assert_eq!((id.as_str(), name.as_str()), ("t1", "file_read"));
            assert_eq!(from_json(input)["path"], "/x");
        }
        other => panic!("expected a tool call, got {:?}", other),
    }
    assert!(matches!(s.on_data(r#"{"type":"message_stop"}"#).unwrap(), Some(StreamChunk::Done)));
    assert!(s.on_data(r#"{"type":"message_stop"}"#).unwrap().is_none());
    assert!(s.finish().unwrap().is_none());
}

#[test]
fn anthropic_stream_errors() {
    let mut s = AnthropicStreamState::new();
    assert!(parse_text(&s.on_data("{oops").unwrap_err()).starts_with("Anthropic SSE JSON: "));
    let e = s.on_data(r#"{"type":"content_block_start","content_block":{"type":"tool_use","name":"x"}}"#).unwrap_err();
    assert_eq!(parse_text(&e), "Anthropic SSE: tool_use missing id");
    let e = s.on_data(r#"{"type":"content_block_start","content_block":{"type":"tool_use","id":"","name":"x"}}"#).unwrap_err();
    assert_eq!(parse_text(&e), "Anthropic SSE: tool_use id or name empty");
    s.on_data(r#"{"type":"content_block_start","content_block":{"type":"tool_use","id":"t","name":"x"}}"#).unwrap();
    s.on_data(r#"{"type":"content_block_delta","delta":{"type":"input_json_delta","partial_json":"{bad"}}"#).unwrap();
    assert!(parse_text(&s.on_data(r#"{"type":"content_block_stop"}"#).unwrap_err()).starts_with("tool input JSON: "));
    let mut open = AnthropicStreamState::new();
    open.on_data(r#"{"type":"content_block_start","content_block":{"type":"tool_use","id":"t","name":"x"}}"#).unwrap();
    assert_eq!(parse_text(&open.finish().unwrap_err()), "Anthropic: incomplete tool_use at EOF");
    let mut fresh = AnthropicStreamState::new();
    assert!(matches!(fresh.finish().unwrap(), Some(StreamChunk::Done)));
}

// ── OpenAI-compatible stream ────────────────────────────────────────

#[test]
fn openai_stream_assembles_tool_calls_by_index() {
    let mut s = OpenAiStreamState::new();
    let (c, e) = s.on_data(r#"{"choices":[{"delta":{"content":"Hel"}}]}"#);
    assert!(e.is_none());
    assert!(matches!(&c[..], [StreamChunk::Text { content }] if content == "Hel"));
    let (c, e) = s.on_data(r#"{"choices":[{"delta":{"tool_calls":[{"index":0,"id":"c1","function":{"name":"file_read","arguments":"{\"pa"}}]}}]}"#);
    assert!(c.is_empty() && e.is_none());
    let (c, e) = s.on_data(r#"{"choices":[{"delta":{"tool_calls":[{"index":0,"function":{"arguments":"th\":1}"}}]}}]}"#);
    assert!(c.is_empty() && e.is_none());
    let (c, e) = s.on_data(r#"{"choices":[{"delta":{},"finish_reason":"tool_calls"}]}"#);
    assert!(e.is_none());
    assert_eq!(c.len(), 2);
    match &c[0] {
        StreamChunk::ToolCall { id, name, input } => {
            assert_eq!((id.as_str(), name.as_str()), ("c1", "file_read"));
            assert!(matches!(input, JsonValue::Object(es) if es.len() == 1));
        }
        other => panic!("expected a tool call, got {:?}", other),
    }
    assert!(matches!(c[1], StreamChunk::Done));
    let (c, e) = s.on_data("[DONE]");
    assert!(c.is_empty() && e.is_none());
    assert!(s.finish().unwrap().is_none());
}

#[test]
fn openai_stream_errors() {
    let mut s = OpenAiStreamState::new();
    let (_, e) = s.on_data("not json");
    assert!(parse_text(&e.unwrap()).starts_with("OpenAI SSE JSON: "));
    let (_, e) = s.on_data(r#"{"choices":[]}"#);
    assert_eq!(parse_text(&e.unwrap()), "OpenAI SSE: empty 'choices' array");
    let (_, e) = s.on_data(r#"{"x":1}"#);
    assert_eq!(parse_text(&e.unwrap()), "OpenAI SSE: missing or invalid 'choices' array");
    let mut t = OpenAiStreamState::new();
    t.on_data(r#"{"choices":[{"delta":{"tool_calls":[{"index":0,"id":"c1","function":{"name":"x","arguments":"{nope"}}]}}]}"#);
    let (_, e) = t.on_data(r#"{"choices":[{"delta":{},"finish_reason":"stop"}]}"#);
    assert!(parse_text(&e.unwrap()).starts_with("tool arguments: "));
    let mut u = OpenAiStreamState::new();
    u.on_data(r#"{"choices":[{"delta":{"tool_calls":[{"index":0,"function":{"arguments":"{}"}}]}}]}"#);
    assert_eq!(parse_text(&u.finish().unwrap_err()), "OpenAI: streaming tool_call incomplete at EOF");
    let mut v = OpenAiStreamState::new();
    let (c, _) = v.on_data("[DONE]");
    assert!(matches!(&c[..], [StreamChunk::Done]));
}

// ── agent loop steps ────────────────────────────────────────────────

#[test]
fn iteration_limit_is_thirty_round_trips() {
    assert_eq!(next_iteration(0).unwrap(), 1);
    assert_eq!(next_iteration(29).unwrap(), 30);
    let e = next_iteration(30).unwrap_err();
    assert_eq!(e.reason, ErrorKind::MaxIterations);
    assert_eq!(e.detail, "exceeded 30 LLM round-trips");
}

#[test]
fn what_follows_a_tool_result() {
    assert_eq!(after_tool_result("task_done", false, 3), AfterTool::Respond);
    assert_eq!(after_tool_result("task_done", true, 1), AfterTool::NextTool);
    assert_eq!(after_tool_result("file_read", false, 0), AfterTool::AskModel);
}

#[test]
fn tool_access_rules() {
    assert!(check_tool_access("t", Some(&strings(&["*"])), "a").is_ok());
    assert!(check_tool_access("t", Some(&strings(&["a", "b"])), "b").is_ok());
    let e = check_tool_access("t", Some(&strings(&["a"])), "c").unwrap_err();
    assert_eq!(e.detail, "agent 'c' is not allowed to use tool 't'");
    let e = check_tool_access("t", None, "c").unwrap_err();
    assert_eq!(e.detail, "unknown tool: t");
    assert_eq!(e.reason, ErrorKind::ToolFailure);
}

#[test]
fn summaries_feedback_and_outbox() {
    let ms = vec![msg("system", "s"), msg("assistant", "one"), msg("user", "u"), msg("assistant", "two")];
    assert_eq!(done_summary(&ms), "one\ntwo");
    assert_eq!(done_summary(&vec![msg("user", "u")]), "");
    assert_eq!(retry_feedback("boom"), "Previous attempt failed: boom\nPlease analyse the failure and try a different approach.");
    assert_eq!(must_keep_of(&json(r#"{"must_keep":["a",1,"b"]}"#)), strings(&["a", "b"]));
    assert!(must_keep_of(&json(r#"{"must_keep":"a"}"#)).is_empty());
    let o = OutboxBuilder::new("t1".into(), "a1".into()).build("done".into());
    assert_eq!(o.status, "waiting_for_verification");
    assert_eq!(o.summary, "done");
    assert!(!o.needs_human_review);
}

#[test]
fn prompt_sections_are_joined_by_rules() {
    let parts = vec![("soul".to_string(), Some("be kind".to_string())), ("memory".to_string(), None), ("user".to_string(), Some("u".to_string()))];
    assert_eq!(compose_prompt(&parts), "[soul]\nbe kind\n\n---\n\n[user]\nu");
    assert_eq!(compose_prompt(&vec![]), "");
}

#[test]
fn heartbeat_keeps_going_while_the_run_exists() {
    assert!(keep_beating(HeartbeatTick::Touched(1)));
    assert!(!keep_beating(HeartbeatTick::Touched(0)));
    assert!(keep_beating(HeartbeatTick::DbError));
    assert!(!keep_beating(HeartbeatTick::Crashed));
}

// ── daemon retries ──────────────────────────────────────────────────

#[test]
fn failure_routing_retries_then_stops() {
    let mut registry = CriteriaRegistry::defaults();
    registry.prepend(vec![GateCriteria {
        error_code: ErrorCode::ToolFailure,
        require_tags: None,
        action: GateAction::AutoRevision,
        max_retries: Some(2),
        reason: "retry tool failures".into(),
    }]);
    let router = GateRouter::new(registry, 3);
    let e = err(ErrorKind::ToolFailure, "tool failed: file not found");
    let state = AttemptState { retry_count: 0, agent_id: "coder".into() };
    let ctx = gate_context(&state, "t1", &e);
    assert_eq!(ctx.error_code, ErrorCode::ToolFailure);
    let (next, action) = after_failure(&router, state, &ctx, &e);
    match action {
        AfterFailure::Retry { agent_id, feedback, switched } => {
            assert!(!switched);
            assert_eq!(agent_id, "coder");
            assert!(feedback.starts_with("Previous attempt failed: tool failed"));
            assert_eq!(next.retry_count, 1);
        }
        AfterFailure::Report { .. } => panic!("expected a retry"),
    }
    let cancelled = err(ErrorKind::Cancelled, "cancelled by user");
    let state = AttemptState { retry_count: 0, agent_id: "coder".into() };
    let ctx = gate_context(&state, "t1", &cancelled);
    let (next, action) = after_failure(&router, state, &ctx, &cancelled);
    assert!(matches!(action, AfterFailure::Report { taxonomy, .. } if taxonomy == "cancelled"));
    assert_eq!(next.retry_count, 0);
}

// ── model routing ───────────────────────────────────────────────────

fn models() -> ModelsConfig {
    ModelsConfig {
        providers: vec![
            ("anth".into(), ProviderEntry { provider_type: "anthropic".into(), api_key_env: Some("ANTHROPIC_API_KEY".into()) }),
            ("local".into(), ProviderEntry { provider_type: "openai_compat".into(), api_key_env: None }),
        ],
        models: vec![
            ModelEntry { id: "fast".into(), provider: "anth".into(), model_id: "upstream-fast".into(), base_url: None, api_key_env: None, thinking: None },
            ModelEntry { id: "lm".into(), provider: "local".into(), model_id: "llama".into(), base_url: Some("http://127.0.0.1:8080".into()), api_key_env: Some("LM_KEY".into()), thinking: Some(ThinkingMode::Disabled) },
            ModelEntry { id: "lost".into(), provider: "nowhere".into(), model_id: "x".into(), base_url: None, api_key_env: None, thinking: None },
        ],
    }
}

#[test]
fn resolving_models() {
    let cfg = models();
    let (m, p, key) = resolve_model(&cfg, "fast").unwrap();
    assert_eq!(m.model_id, "upstream-fast");
    assert_eq!(p.provider_type, "anthropic");
    assert_eq!(key.as_deref(), Some("ANTHROPIC_API_KEY"));
    let (m, p, key) = resolve_model(&cfg, "lm").unwrap();
    assert_eq!(key.as_deref(), Some("LM_KEY"));
    assert!(matches!(provider_kind(&m, &p).unwrap(), ProviderKind::OpenAiCompat { base_url, .. } if base_url == "http://127.0.0.1:8080"));
    assert!(matches!(resolve_model(&cfg, "ghost"), Err(DaedalusError::UnknownModel { .. })));
    assert!(matches!(resolve_model(&cfg, "lost"), Err(DaedalusError::UnknownProvider { .. })));
    assert_eq!(api_key_var(Some("K")).unwrap(), "K");
    assert!(matches!(api_key_var(None), Err(DaedalusError::MissingApiKey { env_var }) if env_var == "(none specified)"));
}

#[test]
fn fallback_chain_decisions() {
    assert!(matches!(after_provider_error(ProviderError::Timeout), Fallback::Next(_)));
    assert!(matches!(after_provider_error(ProviderError::Http { status: 503, body: String::new() }), Fallback::Next(_)));
    assert!(matches!(after_provider_error(ProviderError::Http { status: 400, body: String::new() }), Fallback::Stop(_)));
    assert!(matches!(after_provider_error(ProviderError::Auth { status: 401, body: String::new() }), Fallback::Stop(_)));
    assert!(matches!(not_registered("m"), ProviderError::ModelNotFound(s) if s == "model 'm' not registered"));
    assert!(matches!(chain_exhausted(None), ProviderError::ModelNotFound(s) if s == "no provider in chain"));
    assert!(matches!(chain_exhausted(Some(ProviderError::Timeout)), ProviderError::Timeout));
}

// ── prompt sources ──────────────────────────────────────────────────

#[test]
fn source_sections() {
    assert_eq!(permission_or_default(""), "ask_user");
    assert_eq!(permission_or_default("auto"), "auto");
    assert_eq!(agent_section("coder", &strings(&["file_read", "terminal"]), "ask_user"), "角色: coder\n工具: file_read, terminal\n权限: ask_user");
    assert_eq!(join_strings(&vec![], ", "), "");
    assert_eq!(feedback_section(&vec![]), None);
    let fb = vec![
        FeedbackEntry { task_id: "t".into(), timestamp: "2026-01-01".into(), feedback: "good".into(), category: Some("style".into()) },
        FeedbackEntry { task_id: "u".into(), timestamp: "2026-01-02".into(), feedback: "slow".into(), category: None },
    ];
    assert_eq!(feedback_section(&fb).unwrap(), "最近反馈:\n- 2026-01-01 [style]: good\n- 2026-01-02: slow");
    assert_eq!(project_section("p", None, &vec![]), "项目: p");
    assert_eq!(project_section("p", Some("d"), &strings(&["a", "b"])), "项目: p\n描述: d\n约定: a, b");
    assert_eq!(authority_section(&vec![]), None);
    let rules = vec![AuthorityRule { tool: "terminal".into(), risk_level: "R3".into(), approver: "user".into() }];
    assert_eq!(authority_section(&rules).unwrap(), "权限规则:\n  terminal (risk=R3) → user");
    let runs = vec![
        PastRun { task_id: "t1".into(), status: AgentRunStatus::Done, outbox_summary: Some("ok".into()) },
        PastRun { task_id: "t2".into(), status: AgentRunStatus::Error, outbox_summary: None },
    ];
    assert_eq!(history_section(&runs).unwrap(), "最近任务历史:\n- t1 (done): ok\n- t2 (error): —");
    assert_eq!(history_section(&vec![]), None);
}

#[test]
fn character_knowledge_target() {
    let mut card = http_task_card("t".into(), "agent", "g".into(), "ts".into());
    assert!(knowledge_target(&card, "agent").is_none());
    card.compiled_intent = json(r#"{"current_confession_stage":"vague"}"#);
    assert_eq!(knowledge_target(&card, "agent"), Some(("agent".to_string(), "vague".to_string())));
    card.compiled_intent = json(r#"{"current_confession_stage":"vague","npc_id":"npc_b"}"#);
    assert_eq!(knowledge_target(&card, "agent"), Some(("npc_b".to_string(), "vague".to_string())));
}

#[test]
fn skills_rank_by_overlap_then_path() {
    let doc = |path: &str, desc: &str| SkillDoc { path: path.into(), description: desc.into(), content: format!("body of {path}") };
    let docs = vec![
        doc("skills/b.md", "fix rust bugs"),
        doc("skills/a.md", "rust formatting"),
        doc("skills/c.md", "python scripts"),
        doc("skills/d.md", "fix bugs in rust code"),
    ];
    let corpus = "Please fix the rust bugs in the parser";
    assert_eq!(rank_skills(corpus, &docs), vec![0, 3, 1]);
    assert_eq!(skills_section(corpus, &docs).unwrap(), "body of skills/b.md\n\nbody of skills/d.md\n\nbody of skills/a.md");
    assert_eq!(skills_section("nothing matches here", &docs), None);
    let many: Vec<SkillDoc> = (0..7).map(|i| doc(&format!("skills/{i}.md"), "rust")).collect();
    let text = skills_section("rust", &many).unwrap();
    assert_eq!(text.matches("body of").count(), 5);
    assert!(text.starts_with("body of skills/0.md"));
}

#[test]
fn failure_routing_switches_agent() {
    let mut registry = CriteriaRegistry::defaults();
    registry.prepend(vec![GateCriteria {
        error_code: ErrorCode::ProviderFatal,
        require_tags: None,
        action: GateAction::SwitchAgent { agent_id: "backup".into() },
        max_retries: None,
        reason: "another provider".into(),
    }]);
    let router = GateRouter::new(registry, 3);
    let e = err(ErrorKind::ProviderFatal, "bad request");
    let state = AttemptState { retry_count: 1, agent_id: "coder".into() };
    let ctx = gate_context(&state, "t9", &e);
    let (next, action) = after_failure(&router, state, &ctx, &e);
    match action {
        AfterFailure::Retry { agent_id, feedback, switched } => {
            assert!(switched);
            assert_eq!(agent_id, "backup");
            assert!(feedback.starts_with("Previous attempt failed: Previous agent 'coder' failed: bad request"));
            assert_eq!(next.agent_id, "backup");
            assert_eq!(next.retry_count, 2);
        }
        AfterFailure::Report { .. } => panic!("expected a switch"),
    }
}
