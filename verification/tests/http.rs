use daedalusd::config::{ModelEntry, ModelsConfig, ProviderEntry};
use daedalusd::db::registry::AgentRunStatus;
use daedalusd::error::ProviderError;
use daedalusd::http::config::model_summaries;
use daedalusd::http::session::{
    append_jsonl, message_admission, reconcile_speak, start_session_fields, turn_inputs, turn_records,
    validate_session_speak, SafeSpeakEvent, SessionError,
};
use daedalusd::http::tasks::{check_run_id, create_task_fields, http_task_card, list_filter, wait_step, WaitStep};
use daedalusd::http::validate::{known_model, probe_response, required_model_id, ProbeOutcome};
use daedalusd::json::{parse_json_text, JsonNumber, JsonValue};
use daedalusd::narrative::reply::{fallback_reply, NarrativeReply};
use serde_json::Value;

fn from_json(v: JsonValue) -> Value {
    match v {
        JsonValue::Null => Value::Null,
        JsonValue::Bool(b) => Value::Bool(b),
        JsonValue::Number(JsonNumber::PosInt(u)) => Value::from(u),
        JsonValue::Number(JsonNumber::NegInt(i)) => Value::from(i),
        JsonValue::Number(JsonNumber::Float { negative, mantissa, exponent }) => {
            let f = (mantissa as f64) * 2f64.powi(exponent);
            Value::from(if negative { -f } else { f })
        }
        JsonValue::String(s) => Value::String(s),
        JsonValue::Array(a) => Value::Array(a.into_iter().map(from_json).collect()),
        JsonValue::Object(es) => {
            Value::Object(es.into_iter().map(|(k, v)| (k, from_json(v))).collect())
        }
    }
}


fn json(text: &str) -> JsonValue {
    parse_json_text(text).unwrap()
}

fn model(id: &str, provider: &str) -> ModelEntry {
    ModelEntry { id: id.into(), provider: provider.into(), model_id: format!("{id}-upstream"), base_url: None, api_key_env: None, thinking: None }
}

fn reply(utterance: &str, emotion: &str) -> NarrativeReply {
    NarrativeReply {
        utterance: utterance.into(),
        emotion: emotion.into(),
        confession_stage: "vague".into(),
        revealed_clues: vec!["c1".into()],
        validation_status: "validated".into(),
        validation_error: None,
        stage_change_reason: Some("pressed".into()),
    }
}

// ── sessions ────────────────────────────────────────────────────────

#[test]
fn session_errors_map_to_statuses() {
    assert_eq!(SessionError::BadRequest("x".into()).status(), 400);
    assert_eq!(SessionError::NotFound("x".into()).status(), 404);
    assert_eq!(SessionError::Conflict("x".into()).status(), 409);
    assert_eq!(SessionError::Gone("x".into()).status(), 410);
    assert_eq!(SessionError::Internal("boom".into()).status(), 500);
    assert_eq!(SessionError::Internal("boom".into()).message(), "boom");
}

#[test]
fn new_session_fields() {
    let gs = json(r#"{"case_id":"case-7"}"#);
    let (npc, stage, case_id) = start_session_fields("  npc_a ", None, &gs).unwrap();
    assert_eq!((npc.as_str(), stage.as_str(), case_id.as_str()), ("npc_a", "denial", "case-7"));
    let (_, stage, case_id) = start_session_fields("npc_a", Some(" vague "), &json("{}")).unwrap();
    assert_eq!((stage.as_str(), case_id.as_str()), ("vague", "unknown"));
    assert!(matches!(start_session_fields(" ", None, &gs), Err(SessionError::BadRequest(m)) if m == "npc_id must not be empty"));
    assert!(matches!(start_session_fields("n", Some(""), &gs), Err(SessionError::BadRequest(m)) if m == "initial_confession_stage must not be empty"));
}

#[test]
fn message_admission_rules() {
    assert!(matches!(message_admission("s1", None, false), Err(SessionError::NotFound(m)) if m == "session not found: s1"));
    assert!(matches!(message_admission("s1", Some(true), false), Err(SessionError::Conflict(m)) if m == "session is already processing: s1"));
    assert!(matches!(message_admission("s1", Some(false), true), Err(SessionError::Gone(m)) if m == "session has ended: s1"));
    assert!(message_admission("s1", Some(false), false).is_ok());
}

#[test]
fn turn_input_defaults() {
    let t = turn_inputs("  where?  ", Some(" knife "), None).unwrap();
    assert_eq!(t.player_text, "where?");
    assert_eq!(t.pressure_level, "normal");
    assert_eq!(t.default_revealed_clues, vec!["knife".to_string()]);
    let t = turn_inputs("x", Some("  "), Some("aggressive")).unwrap();
    assert!(t.default_revealed_clues.is_empty());
    assert_eq!(t.pressure_level, "aggressive");
    assert!(matches!(turn_inputs("   ", None, None), Err(SessionError::BadRequest(m)) if m == "player_text must not be empty"));
}

#[test]
fn streamed_speak_checks() {
    let gs = json(r#"{"forbidden_terms":["secret"]}"#);
    assert!(validate_session_speak(" hello ", "calm", &gs));
    assert!(!validate_session_speak("   ", "calm", &gs));
    assert!(!validate_session_speak("hello", "happy", &gs));
    assert!(!validate_session_speak("the secret", "calm", &gs));
    assert!(!validate_session_speak(&"x".repeat(501), "calm", &gs));
}

#[test]
fn speak_mismatch_falls_back_to_what_was_shown() {
    let shown = SafeSpeakEvent { text: "shown".into(), emotion: "calm".into() };
    let default = fallback_reply("denial".into(), vec![]);
    let r = reconcile_speak(reply("other", "calm"), Some(&shown), default);
    assert_eq!(r.utterance, "shown");
    assert_eq!(r.validation_status, "fallback");
    assert_eq!(r.validation_error.as_deref(), Some("speak_summary_mismatch"));
    assert_eq!(r.confession_stage, "denial");
    let same = SafeSpeakEvent { text: "shown".into(), emotion: "calm".into() };
    let r = reconcile_speak(reply("shown", "calm"), Some(&same), fallback_reply("denial".into(), vec![]));
    assert_eq!(r.validation_status, "validated");
    let r = reconcile_speak(reply("x", "calm"), None, fallback_reply("denial".into(), vec![]));
    assert_eq!(r.utterance, "x");
}

#[test]
fn jsonl_appends_on_a_new_line() {
    assert_eq!(append_jsonl(String::new(), "{}"), "{}\n");
    assert_eq!(append_jsonl("a\n".into(), "b"), "a\nb\n");
    assert_eq!(append_jsonl("a".into(), "b"), "a\nb\n");
}

#[test]
fn one_turn_records_its_events_in_order() {
    let r = reply("answer", "nervous");
    let rec = turn_records("s1", "npc", "denial", "question", Some(" knife "), "normal", &r, Some("pressed"), 1000);
    let types: Vec<&str> = rec.events.iter().map(|e| e.0).collect();
    assert_eq!(types, vec!["player_message", "stage_change", "npc_reply", "clue_unlocked"]);
    let pm = from_json(rec.player_message);
    assert_eq!(pm["evidence_id"], "knife");
    assert_eq!(pm["text"], "question");
    let nm = from_json(rec.npc_message);
    assert_eq!(nm["text"], "answer");
    let mut quiet = reply("answer", "calm");
    quiet.revealed_clues.clear();
    let rec = turn_records("s1", "npc", "vague", "q", None, "normal", &quiet, None, 1);
    let types: Vec<&str> = rec.events.iter().map(|e| e.0).collect();
    assert_eq!(types, vec!["player_message", "npc_reply"]);
}

// ── tasks ───────────────────────────────────────────────────────────

#[test]
fn list_query_reading() {
    let f = list_filter(None, None, None).unwrap();
    assert_eq!((f.status, f.agent_id, f.limit), (None, None, 50));
    let f = list_filter(Some("running"), Some("coder"), Some("10")).unwrap();
    assert_eq!(f.status, Some(AgentRunStatus::Running));
    assert_eq!(f.agent_id.as_deref(), Some("coder"));
    assert_eq!(f.limit, 10);
    assert_eq!(list_filter(Some(""), Some(""), Some("")).unwrap().limit, 50);
    assert_eq!(list_filter(Some("bogus"), None, None).unwrap_err(), "invalid status: bogus");
    assert_eq!(list_filter(None, None, Some("0")).unwrap_err(), "limit must be 1..=100, got 0");
    assert_eq!(list_filter(None, None, Some("101")).unwrap_err(), "limit must be 1..=100, got 101");
    assert_eq!(list_filter(None, None, Some("x")).unwrap_err(), "limit must be 1..=100, got x");
    assert_eq!(list_filter(None, None, Some("100")).unwrap().limit, 100);
}

#[test]
fn new_task_fields() {
    let (a, g) = create_task_fields(" coder ", " fix it ", Some(" in main.rs ")).unwrap();
    assert_eq!(a, "coder");
    assert_eq!(g, "fix it\n\nContext: in main.rs");
    assert_eq!(create_task_fields(" ", "g", None).unwrap_err(), "agent_id must not be empty");
    assert_eq!(create_task_fields("a", "  ", None).unwrap_err(), "goal must not be empty");
    let card = http_task_card("t1".into(), "coder", "fix it".into(), "2026-01-01T00:00:00Z".into());
    assert_eq!(card.project, "http-api");
    assert_eq!(card.schema_version, "2.8");
    assert_eq!(from_json(card.compiled_intent)["action"], "fix it");
    assert_eq!(from_json(card.execution_plan)["primary_agent"], "coder");
}

#[test]
fn waiting_for_a_run() {
    assert!(matches!(wait_step("r1", None, false), WaitStep::NotFound(m) if m == "run not found: r1"));
    assert!(matches!(wait_step("r1", Some(AgentRunStatus::Done), true), WaitStep::Finished));
    assert!(matches!(wait_step("r1", Some(AgentRunStatus::Running), false), WaitStep::KeepWaiting));
    assert!(matches!(wait_step("r1", Some(AgentRunStatus::Queued), true), WaitStep::TimedOut(m) if m == "task still running (status: queued), poll GET /api/tasks/r1"));
    assert!(check_run_id("r1").is_ok());
    assert_eq!(check_run_id("").unwrap_err(), "run_id must not be empty");
}

// ── models ──────────────────────────────────────────────────────────

#[test]
fn model_summaries_need_known_providers() {
    let cfg = ModelsConfig {
        providers: vec![("anth".into(), ProviderEntry { provider_type: "anthropic".into(), api_key_env: None })],
        models: vec![model("m1", "anth")],
    };
    let s = model_summaries(&cfg).unwrap();
    assert_eq!(s.len(), 1);
    assert_eq!(s[0].provider_type, "anthropic");
    let bad = ModelsConfig { providers: vec![], models: vec![model("m2", "ghost")] };
    assert_eq!(model_summaries(&bad).unwrap_err(), "model 'm2' references unknown provider 'ghost'");
}

#[test]
fn model_validation_steps() {
    assert_eq!(required_model_id(Some("m1")).unwrap(), "m1");
    assert_eq!(required_model_id(Some("")).unwrap_err(), "model_id is required");
    assert_eq!(required_model_id(None).unwrap_err(), "model_id is required");
    let models = vec![model("m1", "p")];
    assert!(known_model(&models, "m1").is_ok());
    assert_eq!(known_model(&models, "m9").unwrap_err(), "unknown model_id: m9");
    let ok = probe_response("m1".into(), ProbeOutcome::Reached(12));
    assert!(ok.reachable && ok.latency_ms == Some(12) && ok.error.is_none());
    let t = probe_response("m1".into(), ProbeOutcome::TimedOut);
    assert_eq!(t.error.as_deref(), Some("timeout after 10s"));
    let f = probe_response("m1".into(), ProbeOutcome::Failed(ProviderError::Timeout));
    assert!(!f.reachable);
    assert_eq!(f.error, Some(ProviderError::Timeout.to_display_string()));
}

#[test]
fn turn_records_carry_every_member() {
    let r = reply("answer", "nervous");
    let rec = turn_records("s1", "npc", "denial", "question", Some(" knife "), "normal", &r, Some("pressed"), 1000);
    assert_eq!(
        from_json(rec.player_message),
        jv(r#"{"role":"player","text":"question","evidence_id":"knife","pressure_level":"normal","ts":1000}"#)
    );
    assert_eq!(
        from_json(rec.npc_message),
        jv(r#"{"role":"npc","text":"answer","emotion":"nervous","confession_stage":"vague","revealed_clues":["c1"],"ts":1000}"#)
    );
    let evs: Vec<Value> = rec.events.into_iter().map(|e| from_json(e.1)).collect();
    assert_eq!(
        evs[0],
        jv(r#"{"session_id":"s1","npc_id":"npc","player_text":"question","evidence_id":"knife","pressure_level":"normal","confession_stage":"vague"}"#)
    );
    assert_eq!(
        evs[1],
        jv(r#"{"session_id":"s1","npc_id":"npc","old_stage":"denial","new_stage":"vague","reason":"pressed"}"#)
    );
    assert_eq!(evs[2]["validation_status"], "validated");
    assert_eq!(evs[2]["validation_error"], Value::Null);
    assert_eq!(evs[3], jv(r#"{"session_id":"s1","npc_id":"npc","clue_id":"c1","clue_ids":["c1"]}"#));
}

#[test]
fn http_task_card_members() {
    let card = http_task_card("t1".into(), "coder", "fix it".into(), "ts".into());
    assert_eq!(from_json(card.compiled_intent), jv(r#"{"action":"fix it"}"#));
    assert_eq!(from_json(card.execution_plan), jv(r#"{"primary_agent":"coder"}"#));
    assert_eq!(from_json(card.context.user_preferences), jv(r#"{}"#));
    assert_eq!(from_json(card.context.project_context.data), jv(r#"{}"#));
    assert_eq!(from_json(card.context.relevant_feedback), jv(r#"[]"#));
    assert_eq!(from_json(card.acceptance_criteria), jv(r#"{}"#));
    assert_eq!(from_json(card.output_contract), jv(r#"{}"#));
    assert_eq!(from_json(card.review_gate_criteria), jv(r#"{}"#));
}

fn jv(text: &str) -> Value {
    serde_json::from_str(text).unwrap()
}
