use daedalusd::json::{parse_json_text, JsonNumber, JsonValue};
use daedalusd::narrative::events;
use daedalusd::narrative::knowledge::{prompt_snapshot, KnowledgeRead, PromptHiddenFact, PromptKnowledgeFile, PromptKnownFact};
use daedalusd::narrative::message_log;
use daedalusd::narrative::reply::{fallback_reply, fallback_utterance, from_task_summary, merge_revealed_clues, NarrativeReply};
use daedalusd::narrative::session_adapter::{build_task_dispatch, SessionTaskInput};
use daedalusd::narrative::stage::{default_confession_stage, stage_change_reason, StageChangeReasonInput};
use daedalusd::narrative::state::{derive_session_state, EventView};
use daedalusd::narrative::stream_events::{message_events, utterance_chunk_events, MessageStreamInput};
use daedalusd::narrative::validator::{
    has_required_stage_evidence, is_allowed_reveal, is_valid_stage_transition, utterance_contains_forbidden_term,
    validate_task_summary,
};
use daedalusd::narrative::{confession_stage_rank, output_contract_text, stage_name, unlock_condition_rank};
use serde_json::Value;

fn from_json(v: JsonValue) -> Value {
    match v {
        JsonValue::Null => Value::Null,
        JsonValue::Bool(b) => Value::Bool(b),
        JsonValue::Number(JsonNumber::PosInt(u)) => Value::from(u),
        JsonValue::Number(JsonNumber::NegInt(i)) => Value::from(i),
        JsonValue::Number(JsonNumber::Float { negative, mantissa, exponent }) => {
            let f = (mantissa as f64) * 2f64.powi(exponent);
            Value::from(if negative { -f } else { f })
        }
        JsonValue::String(s) => Value::String(s),
        JsonValue::Array(a) => Value::Array(a.into_iter().map(from_json).collect()),
        JsonValue::Object(es) => {
            Value::Object(es.into_iter().map(|(k, v)| (k, from_json(v))).collect())
        }
    }
}


fn json(text: &str) -> JsonValue {
    parse_json_text(text).unwrap()
}

fn strings(items: &[&str]) -> Vec<String> {
    items.iter().map(|s| s.to_string()).collect()
}

const GOOD: &str = r#"{"utterance":"我没去过那里。","emotion":"nervous","stage_delta":{"should_change":false,"new_stage":null,"reason":null},"reveals":[],"confidence":0.8}"#;

fn code_of(summary: &str, stage: &str, gs: &JsonValue, ev: Option<&str>) -> String {
    match validate_task_summary(summary, stage, gs, ev) {
        Ok(_) => "ok".to_string(),
        Err(e) => e.code().to_string(),
    }
}

// ── stages ──────────────────────────────────────────────────────────

#[test]
fn stage_names_and_ranks() {
    assert_eq!(stage_name(0), "denial");
    assert_eq!(stage_name(3), "breakdown");
    assert_eq!(confession_stage_rank("partial"), Some(2));
    assert_eq!(confession_stage_rank("confessed"), None);
    assert_eq!(unlock_condition_rank(None), Some(0));
    assert_eq!(unlock_condition_rank(Some(" stage >= vague ")), Some(1));
    assert_eq!(unlock_condition_rank(Some("vague")), None);
    assert!(output_contract_text().contains("task_done"));
}

#[test]
fn aggressive_pressure_moves_denial_to_vague() {
    assert_eq!(default_confession_stage("denial", "aggressive"), "vague");
    assert_eq!(default_confession_stage("denial", "normal"), "denial");
    assert_eq!(default_confession_stage("partial", "aggressive"), "partial");
}

#[test]
fn stage_change_reasons() {
    let same = StageChangeReasonInput { current_stage: "vague", reply_stage: "vague", default_stage: "vague", pressure_level: "aggressive", reply_reason: Some("x".into()) };
    assert_eq!(stage_change_reason(same), None);
    let given = StageChangeReasonInput { current_stage: "vague", reply_stage: "partial", default_stage: "vague", pressure_level: "normal", reply_reason: Some("evidence".into()) };
    assert_eq!(stage_change_reason(given), Some("evidence".to_string()));
    let pressure = StageChangeReasonInput { current_stage: "denial", reply_stage: "vague", default_stage: "vague", pressure_level: "aggressive", reply_reason: None };
    assert_eq!(stage_change_reason(pressure), Some("aggressive_pressure".to_string()));
    let agent = StageChangeReasonInput { current_stage: "vague", reply_stage: "partial", default_stage: "vague", pressure_level: "normal", reply_reason: None };
    assert_eq!(stage_change_reason(agent), Some("agent_output".to_string()));
}

#[test]
fn stage_transitions_move_one_step_up() {
    assert!(is_valid_stage_transition("denial", "vague"));
    assert!(is_valid_stage_transition("partial", "breakdown"));
    assert!(!is_valid_stage_transition("denial", "partial"));
    assert!(!is_valid_stage_transition("vague", "denial"));
    assert!(!is_valid_stage_transition("nope", "vague"));
}

// ── replies ─────────────────────────────────────────────────────────

#[test]
fn fallback_lines() {
    assert_eq!(fallback_utterance("denial"), "我不知道你在说什么。");
    assert_eq!(fallback_utterance("vague"), "我需要再想想。");
    let r = fallback_reply("denial".into(), strings(&["c1"]));
    assert_eq!(r.emotion, "defensive");
    assert_eq!(r.validation_status, "fallback");
    assert_eq!(r.revealed_clues, strings(&["c1"]));
    assert!(r.validation_error.is_none() && r.stage_change_reason.is_none());
}

#[test]
fn merge_keeps_defaults_first_and_adds_each_new_clue_once() {
    let merged = merge_revealed_clues(&strings(&["a", "b"]), &strings(&["b", "c", "c", "d"]));
    assert_eq!(merged, strings(&["a", "b", "c", "d"]));
    assert_eq!(merge_revealed_clues(&strings(&["a"]), &vec![]), strings(&["a"]));
    // merging what is already merged changes nothing
    let again = merge_revealed_clues(&merged, &strings(&["c", "a"]));
    assert_eq!(again, merged);
}

#[test]
fn valid_summary_becomes_the_reply() {
    let gs = json("{}");
    let default = fallback_reply("denial".into(), strings(&["d1"]));
    let r = from_task_summary(GOOD, "denial", &gs, None, default);
    assert_eq!(r.utterance, "我没去过那里。");
    assert_eq!(r.emotion, "nervous");
    assert_eq!(r.confession_stage, "denial");
    assert_eq!(r.validation_status, "validated");
    assert_eq!(r.revealed_clues, strings(&["d1"]));
}

#[test]
fn invalid_summary_keeps_the_default_with_its_code() {
    let gs = json("{}");
    let default = fallback_reply("denial".into(), vec![]);
    let r = from_task_summary("not json", "denial", &gs, None, default);
    assert_eq!(r.validation_error.as_deref(), Some("summary_not_json_object"));
    assert_eq!(r.validation_status, "fallback");
    assert_eq!(r.utterance, "我不知道你在说什么。");
}

// ── validation ──────────────────────────────────────────────────────

#[test]
fn validation_codes() {
    let gs = json(r#"{"forbidden_terms":["凶器"],"unlocked_evidence_ids":["knife"]}"#);
    assert_eq!(code_of(GOOD, "denial", &gs, None), "ok");
    assert_eq!(code_of("   ", "denial", &gs, None), "summary_not_json_object");
    assert_eq!(code_of("[1]", "denial", &gs, None), "summary_not_json_object");
    assert_eq!(code_of(r#"{"utterance":"x","inner_thought":"y"}"#, "denial", &gs, None), "forbidden_field");
    assert_eq!(code_of(r#"{"utterance":"x","mood":"y"}"#, "denial", &gs, None), "invalid_field");
    assert_eq!(code_of(&GOOD.replace("我没去过那里。", "  "), "denial", &gs, None), "invalid_utterance");
    assert_eq!(code_of(&GOOD.replace("我没去过那里。", "那把凶器"), "denial", &gs, None), "forbidden_term");
    assert_eq!(code_of(&GOOD.replace("nervous", "happy"), "denial", &gs, None), "invalid_emotion");
    assert_eq!(code_of(&GOOD.replace("0.8", "1.5"), "denial", &gs, None), "invalid_confidence");
    assert_eq!(code_of(&GOOD.replace("0.8", "-0.1"), "denial", &gs, None), "invalid_confidence");
    assert_eq!(code_of(&GOOD.replace("0.8", "1"), "denial", &gs, None), "ok");
    assert_eq!(code_of(&GOOD.replace(r#""reveals":[]"#, r#""reveals":["knife"]"#), "denial", &gs, None), "ok");
    assert_eq!(code_of(&GOOD.replace(r#""reveals":[]"#, r#""reveals":["rope"]"#), "denial", &gs, None), "invalid_reveal");
    assert_eq!(code_of(&GOOD.replace(r#""reveals":[]"#, r#""reveals":["rope"]"#), "denial", &gs, Some(" rope ")), "ok");
    assert_eq!(code_of(&GOOD.replace(r#""confidence""#, r#""debug_tags":["nervous_pause"],"confidence""#), "denial", &gs, None), "ok");
    assert_eq!(code_of(&GOOD.replace(r#""confidence""#, r#""debug_tags":["bored"],"confidence""#), "denial", &gs, None), "invalid_debug_tag");
}

#[test]
fn stage_delta_rules() {
    let gs = json(r#"{"stage_requirements":{"partial":{"required_evidence_ids":["photo"]}}}"#);
    let change = |stage: &str| GOOD.replace(r#"{"should_change":false,"new_stage":null,"reason":null}"#, &format!(r#"{{"should_change":true,"new_stage":"{stage}","reason":"pressed"}}"#));
    assert_eq!(code_of(&change("vague"), "denial", &gs, None), "ok");
    assert_eq!(code_of(&change("partial"), "denial", &gs, None), "invalid_stage_transition");
    assert_eq!(code_of(&change("partial"), "vague", &gs, None), "missing_required_evidence");
    assert_eq!(code_of(&change("partial"), "vague", &gs, Some("photo")), "ok");
    assert_eq!(code_of(&change("confessed"), "vague", &gs, None), "invalid_stage_delta");
    let stray = GOOD.replace(r#""new_stage":null"#, r#""new_stage":"vague""#);
    assert_eq!(code_of(&stray, "denial", &gs, None), "invalid_stage_delta");
    let r = validate_task_summary(&change("vague"), "denial", &gs, None).unwrap();
    assert_eq!(r.confession_stage.as_deref(), Some("vague"));
    assert_eq!(r.stage_change_reason.as_deref(), Some("pressed"));
}

#[test]
fn evidence_terms_and_reveals() {
    let gs = json(r#"{"stage_requirements":{"vague":{"required_evidence_id":" knife "}},"forbidden_terms":["  ","truth"],"unlocked_evidence_ids":["c1"]}"#);
    assert!(!has_required_stage_evidence(&gs, "vague", None));
    assert!(has_required_stage_evidence(&gs, "vague", Some("knife")));
    assert!(has_required_stage_evidence(&gs, "partial", None));
    assert!(utterance_contains_forbidden_term("the truth is", &gs));
    assert!(!utterance_contains_forbidden_term("nothing here", &gs));
    assert!(is_allowed_reveal("c1", &gs, None));
    assert!(is_allowed_reveal("c2", &gs, Some(" c2")));
    assert!(!is_allowed_reveal("c2", &gs, None));
}

// ── session state ───────────────────────────────────────────────────

#[test]
fn session_state_from_messages_and_events() {
    let messages = vec![
        json(r#"{"role":"player","text":"hi"}"#),
        json(r#"{"role":"npc","text":"...","emotion":"nervous"}"#),
        json(r#"{"role":"npc","text":"...","emotion":"angry"}"#),
        json(r#"{"role":"player","text":"?"}"#),
    ];
    let p1 = json(r#"{"clue_id":"a","clue_ids":["a","b"]}"#);
    let p2 = json(r#"{"clue_ids":["b","c"]}"#);
    let p3 = json(r#"{}"#);
    let events = vec![
        EventView { event_type: "clue_unlocked", payload: &p1 },
        EventView { event_type: "player_message", payload: &p3 },
        EventView { event_type: "clue_unlocked", payload: &p2 },
    ];
    let s = derive_session_state(&messages, &events);
    assert_eq!(s.emotional_state, "angry");
    assert_eq!(s.turn_count, 2);
    assert_eq!(s.unlocked_clues, strings(&["a", "b", "c"]));
    assert!(!s.is_ended);
    let ended = vec![EventView { event_type: "session_end", payload: &p3 }];
    let s2 = derive_session_state(&vec![], &ended);
    assert_eq!(s2.emotional_state, "calm");
    assert_eq!(s2.turn_count, 0);
    assert!(s2.is_ended);
}

// ── events and messages ─────────────────────────────────────────────

#[test]
fn event_payloads() {
    let v = from_json(events::session_start("s1", "npc", "case", "denial"));
    assert_eq!(v["session_id"], "s1");
    assert_eq!(v["case_id"], "case");
    let v = from_json(events::player_message("s1", "npc", "where?", None, "normal", "denial"));
    assert_eq!(v["evidence_id"], Value::Null);
    assert_eq!(v["player_text"], "where?");
    let v = from_json(events::stage_change("s1", "npc", "denial", "vague", "pressed"));
    assert_eq!(v["old_stage"], "denial");
    assert_eq!(v["new_stage"], "vague");
    assert!(events::clue_unlocked("s1", "npc", &[]).is_none());
    let v = from_json(events::clue_unlocked("s1", "npc", &strings(&["a", "b"])).unwrap());
    assert_eq!(v["clue_id"], "a");
    assert_eq!(v["clue_ids"][1], "b");
    let reply = fallback_reply("denial".into(), strings(&["a"]));
    let v = from_json(events::npc_reply("s1", "npc", &reply));
    assert_eq!(v["utterance"], "我不知道你在说什么。");
    assert_eq!(v["validation_error"], Value::Null);
    assert_eq!(v["revealed_clues"][0], "a");
    let v = from_json(events::session_end("s1", "npc", "player_left", "vague"));
    assert_eq!(v["final_stage"], "vague");
}

#[test]
fn message_log_records() {
    let v = from_json(message_log::player_message("hello", Some("knife"), "calm", 42));
    assert_eq!(v["role"], "player");
    assert_eq!(v["evidence_id"], "knife");
    assert_eq!(v["ts"], 42);
    let reply = fallback_reply("vague".into(), vec![]);
    let v = from_json(message_log::npc_message(&reply, -5));
    assert_eq!(v["role"], "npc");
    assert_eq!(v["emotion"], "defensive");
    assert_eq!(v["ts"], -5);
}

#[test]
fn utterance_streams_one_character_at_a_time() {
    let evs = utterance_chunk_events("s", "n", "你好!");
    assert_eq!(evs.len(), 3);
    let last = from_json(evs.into_iter().last().unwrap().payload);
    assert_eq!(last["text"], "!");
    assert_eq!(last["cumulative"], "你好!");
}

#[test]
fn message_events_in_order() {
    let clues = strings(&["c1", "c2"]);
    let evs = message_events(MessageStreamInput {
        session_id: "s",
        npc_id: "n",
        utterance: "ab",
        emotion: "calm",
        old_confession_stage: "denial",
        confession_stage: "vague",
        stage_change_reason: Some("pressed"),
        revealed_clues: &clues,
    });
    let names: Vec<&str> = evs.iter().map(|e| e.event).collect();
    assert_eq!(names, vec!["utterance_chunk", "utterance_chunk", "utterance_complete", "stage_change", "clue_unlocked", "clue_unlocked", "done"]);
    let evs2 = message_events(MessageStreamInput {
        session_id: "s",
        npc_id: "n",
        utterance: "",
        emotion: "calm",
        old_confession_stage: "vague",
        confession_stage: "vague",
        stage_change_reason: None,
        revealed_clues: &[],
    });
    let names2: Vec<&str> = evs2.iter().map(|e| e.event).collect();
    assert_eq!(names2, vec!["utterance_complete", "done"]);
}

// ── knowledge ───────────────────────────────────────────────────────

#[test]
fn knowledge_snapshot_by_stage() {
    assert_eq!(from_json(prompt_snapshot(KnowledgeRead::Missing, "n", "denial"))["knowledge_status"], "missing");
    assert_eq!(from_json(prompt_snapshot(KnowledgeRead::Invalid, "n", "denial"))["knowledge_status"], "invalid");
    let file = PromptKnowledgeFile {
        npc_id: "n".into(),
        knows: vec![
            PromptKnownFact { fact_id: "f0".into(), content: "always".into(), unlock_condition: None },
            PromptKnownFact { fact_id: "f1".into(), content: "later".into(), unlock_condition: Some("stage >= partial".into()) },
            PromptKnownFact { fact_id: "f2".into(), content: "odd".into(), unlock_condition: Some("someday".into()) },
        ],
        hides: vec![PromptHiddenFact { fact_id: "h1".into(), content: None, reveal_stage: None }],
    };
    assert_eq!(from_json(prompt_snapshot(KnowledgeRead::Parsed(file.clone()), "other", "denial"))["knowledge_status"], "npc_mismatch");
    assert_eq!(from_json(prompt_snapshot(KnowledgeRead::Parsed(file.clone()), "n", "bogus"))["knowledge_status"], "invalid");
    let v = from_json(prompt_snapshot(KnowledgeRead::Parsed(file.clone()), "n", "vague"));
    assert_eq!(v["knowledge_status"], "ok");
    assert_eq!(v["visible_facts"].as_array().unwrap().len(), 1);
    assert_eq!(v["visible_facts"][0]["content"], "always");
    assert_eq!(v["locked_facts"][0]["unlock_stage"], "partial");
    assert_eq!(v["locked_facts"][1]["unlock_stage"], "invalid_rule");
    assert_eq!(v["locked_facts"][2]["reveal_stage"], "breakdown");
    let v = from_json(prompt_snapshot(KnowledgeRead::Parsed(file), "n", "breakdown"));
    assert_eq!(v["visible_facts"].as_array().unwrap().len(), 2);
}

// ── task dispatch ───────────────────────────────────────────────────

#[test]
fn session_task_dispatch() {
    let gs = json(r#"{"case":"c"}"#);
    let history = vec![json(r#"{"role":"player"}"#)];
    let kb = json(r#"{"knowledge_status":"ok"}"#);
    let input = SessionTaskInput {
        session_id: "s1",
        npc_id: "npc_a",
        case_id: "case1",
        confession_stage: "denial",
        game_state: &gs,
        history: &history,
        player_text: "where were you?",
        evidence_id: None,
        pressure_level: "normal",
    };
    let d = build_task_dispatch(input, "t1".into(), "r1".into(), "2026-01-01T00:00:00Z".into(), kb);
    assert_eq!(d.agent_id, "npc_a");
    assert_eq!(d.task_id, "t1");
    assert_eq!(d.task_card.project, "narrative-session");
    assert!(d.task_card.goal.starts_with("Reply in character as npc_a"));
    let intent = from_json(d.task_card.compiled_intent);
    assert_eq!(intent["player_text"], "where were you?");
    assert_eq!(intent["evidence_id"], Value::Null);
    assert_eq!(intent["history"].as_array().unwrap().len(), 1);
    let data = from_json(d.task_card.context.project_context.data);
    assert_eq!(data["game_state"]["case"], "c");
    let contract = from_json(d.task_card.output_contract);
    assert!(contract["summary_shape"]["utterance"].is_string());
}

#[test]
fn session_task_dispatch_carries_inputs_whole() {
    let gs = json(r#"{"case":"c","turn":3}"#);
    let history = vec![json(r#"{"role":"player","content":"hi"}"#), json(r#"{"role":"npc","content":"go away"}"#)];
    let kb = json(r#"{"knowledge_status":"ok","visible_facts":["f1"]}"#);
    let input = SessionTaskInput {
        session_id: "s1",
        npc_id: "npc_a",
        case_id: "case1",
        confession_stage: "denial",
        game_state: &gs,
        history: &history,
        player_text: "where were you?",
        evidence_id: Some("knife".into()),
        pressure_level: "high",
    };
    let d = build_task_dispatch(input, "t1".into(), "r1".into(), "ts".into(), kb);
    let intent = from_json(d.task_card.compiled_intent);
    assert_eq!(intent["knowledge_boundary"]["visible_facts"][0], "f1");
    assert_eq!(intent["history"][1]["role"], "npc");
    assert_eq!(intent["history"][1]["content"], "go away");
    assert_eq!(intent["evidence_id"], "knife");
    let data = from_json(d.task_card.context.project_context.data);
    assert_eq!(data["game_state"]["turn"], 3);
    assert_eq!(data["knowledge_boundary"]["knowledge_status"], "ok");
    assert_eq!(data["history"][0]["content"], "hi");
}
