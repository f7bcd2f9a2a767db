use daedalusd::ipc::decode::{decode_message, encode_message};
use daedalusd::ipc::protocol::{self, validate_timestamp, ProtocolError};
use daedalusd::json::{JsonNumber, JsonValue};
use daedalusd::types::{
    Message, PermissionDecision, SystemError, SystemErrorCode, SystemPing, SystemPong,
};
use serde_json::Value;

fn to_json(v: Value) -> JsonValue {
    match v {
        Value::Null => JsonValue::Null,
        Value::Bool(b) => JsonValue::Bool(b),
        Value::Number(n) => JsonValue::Number(number_of(&n)),
        Value::String(s) => JsonValue::String(s),
        Value::Array(a) => JsonValue::Array(a.into_iter().map(to_json).collect()),
        Value::Object(m) => {
            JsonValue::Object(m.into_iter().map(|(k, v)| (k, to_json(v))).collect())
        }
    }
}

fn number_of(n: &serde_json::Number) -> JsonNumber {
    if let Some(u) = n.as_u64() {
        JsonNumber::PosInt(u)
    } else if let Some(i) = n.as_i64() {
        JsonNumber::NegInt(i)
    } else {
        let bits = n.as_f64().unwrap().to_bits();
        let negative = bits >> 63 == 1;
        let e = ((bits >> 52) & 0x7ff) as i32;
        let frac = bits & ((1u64 << 52) - 1);
        if e == 0 {
            JsonNumber::Float { negative, mantissa: frac, exponent: -1074 }
        } else {
            JsonNumber::Float { negative, mantissa: frac | (1u64 << 52), exponent: e - 1075 }
        }
    }
}

fn from_json(v: JsonValue) -> Value {
    match v {
        JsonValue::Null => Value::Null,
        JsonValue::Bool(b) => Value::Bool(b),
        JsonValue::Number(JsonNumber::PosInt(u)) => Value::from(u),
        JsonValue::Number(JsonNumber::NegInt(i)) => Value::from(i),
        JsonValue::Number(JsonNumber::Float { negative, mantissa, exponent }) => {
            let f = (mantissa as f64) * 2f64.powi(exponent);
            Value::from(if negative { -f } else { f })
        }
        JsonValue::String(s) => Value::String(s),
        JsonValue::Array(a) => Value::Array(a.into_iter().map(from_json).collect()),
        JsonValue::Object(es) => {
            Value::Object(es.into_iter().map(|(k, v)| (k, from_json(v))).collect())
        }
    }
}

/// One NDJSON line in, as the daemon's reader hands it to the library.
fn parse_message(line: &str) -> Result<Message, ProtocolError> {
    protocol::parse_message(line)
}

/// One message out, as the daemon's writer renders it.
fn serialize_message(msg: Message) -> String {
    serde_json::to_string(&from_json(encode_message(msg))).unwrap()
}

fn now_utc() -> String {
    chrono::Utc::now().to_rfc3339_opts(chrono::SecondsFormat::Millis, true)
}

fn make_pong(req_id: String) -> Message {
    protocol::make_pong(req_id, now_utc())
}

fn make_error(code: SystemErrorCode, req_id: Option<String>, detail: String) -> Message {
    protocol::make_error(code, req_id, detail, now_utc())
}

// ── happy-path roundtrips ──────────────────────────────────────

#[test]
fn ping_roundtrip() {
    let json = r#"{"type":"system.ping","ts":"2026-06-15T10:00:00.000Z","req_id":"abc-123"}"#;
    let msg = parse_message(json).unwrap();
    match &msg {
        Message::SystemPing(p) => {
            assert_eq!(p.ts, "2026-06-15T10:00:00.000Z");
            assert_eq!(p.req_id, "abc-123");
        }
        _ => panic!("expected SystemPing"),
    }
    // Re-serialize and parse again (full roundtrip).
    let json2 = serialize_message(msg);
    let msg2 = parse_message(&json2).unwrap();
    match msg2 {
        Message::SystemPing(p) => {
            assert_eq!(p.req_id, "abc-123");
        }
        _ => panic!("expected SystemPing after roundtrip"),
    }
}

#[test]
fn pong_roundtrip() {
    let json = r#"{"type":"system.pong","ts":"2026-06-15T10:00:00.500Z","req_id":"xyz-456"}"#;
    let msg = parse_message(json).unwrap();
    match &msg {
        Message::SystemPong(p) => {
            assert_eq!(p.ts, "2026-06-15T10:00:00.500Z");
            assert_eq!(p.req_id, "xyz-456");
        }
        _ => panic!("expected SystemPong"),
    }
    let json2 = serialize_message(msg);
    assert!(json2.contains("\"type\":\"system.pong\""));
}

#[test]
fn error_roundtrip() {
    let json = r#"{"type":"system.error","ts":"2026-06-15T10:00:01.000Z","req_id":"req-1","error":"unknown_message_type","detail":"Unknown message type: foo.bar"}"#;
    let msg = parse_message(json).unwrap();
    match &msg {
        Message::SystemError(e) => {
            assert_eq!(e.error, SystemErrorCode::UnknownMessageType);
            assert_eq!(e.req_id.as_deref(), Some("req-1"));
        }
        _ => panic!("expected SystemError"),
    }
}

#[test]
fn error_without_req_id_roundtrip() {
    let json = r#"{"type":"system.error","ts":"2026-06-15T10:00:01.000Z","error":"malformed_json","detail":"Failed to parse JSON"}"#;
    let msg = parse_message(json).unwrap();
    match &msg {
        Message::SystemError(e) => {
            assert_eq!(e.error, SystemErrorCode::MalformedJson);
            assert_eq!(e.req_id, None);
        }
        _ => panic!("expected SystemError"),
    }
}

// ── timestamp validation ───────────────────────────────────────

#[test]
fn valid_rfc3339_utc() {
    let json = r#"{"type":"system.ping","ts":"2026-06-15T10:00:00.000Z","req_id":"r1"}"#;
    assert!(parse_message(json).is_ok());
}

#[test]
fn valid_rfc3339_with_offset() {
    let json = r#"{"type":"system.ping","ts":"2026-06-15T18:30:00.123+08:00","req_id":"r1"}"#;
    assert!(parse_message(json).is_ok());
}

#[test]
fn valid_rfc3339_without_millis() {
    // RFC 3339 allows omitting fractional seconds.
    let json = r#"{"type":"system.ping","ts":"2026-06-15T10:00:00Z","req_id":"r1"}"#;
    assert!(parse_message(json).is_ok());
}

#[test]
fn invalid_timestamp_rejected() {
    let json = r#"{"type":"system.ping","ts":"not-a-timestamp","req_id":"r1"}"#;
    let err = parse_message(json).unwrap_err();
    assert_eq!(err.code, SystemErrorCode::InvalidMessage);
    assert!(err.detail.contains("timestamp"));
    assert_eq!(err.req_id.as_deref(), Some("r1"));
}

#[test]
fn invalid_timestamp_in_pong_rejected() {
    let json = r#"{"type":"system.pong","ts":"yesterday","req_id":"r1"}"#;
    let err = parse_message(json).unwrap_err();
    assert_eq!(err.code, SystemErrorCode::InvalidMessage);
    assert!(err.detail.contains("timestamp"));
}

// ── server timestamp output ────────────────────────────────────

#[test]
fn server_timestamp_is_utc_with_millis() {
    let ts = now_utc();
    // Must parse as valid RFC 3339.
    assert!(validate_timestamp(&ts));
    // Must contain 'Z' (UTC).
    assert!(ts.ends_with("Z"), "expected UTC Z suffix, got: {}", ts);
    // Must contain fractional seconds (dot + digits before Z).
    let dot_pos = ts.find('.').expect("expected millisecond dot");
    let z_pos = ts.find('Z').unwrap();
    let frac: String = ts[dot_pos + 1..z_pos].to_string();
    assert_eq!(
        frac.len(),
        3,
        "expected 3-digit milliseconds, got: {}",
        frac
    );
}

#[test]
fn make_pong_uses_fresh_utc_timestamp() {
    let pong = make_pong("abc".to_string());
    match pong {
        Message::SystemPong(p) => {
            assert!(validate_timestamp(&p.ts));
            assert!(p.ts.ends_with("Z"));
            assert_eq!(p.req_id, "abc");
        }
        _ => panic!("expected SystemPong"),
    }
}

#[test]
fn make_error_uses_fresh_utc_timestamp() {
    let err = make_error(
        SystemErrorCode::UnknownMessageType,
        Some("r1".to_string()),
        "test error".to_string(),
    );
    match err {
        Message::SystemError(e) => {
            assert!(validate_timestamp(&e.ts));
            assert!(e.ts.ends_with("Z"));
            assert_eq!(e.req_id.as_deref(), Some("r1"));
        }
        _ => panic!("expected SystemError"),
    }
}

// ── malformed JSON ─────────────────────────────────────────────

#[test]
fn malformed_json_not_valid_utf8() {
    // Use invalid JSON literal.
    let result = parse_message("not json at all");
    let err = result.unwrap_err();
    assert_eq!(err.code, SystemErrorCode::MalformedJson);
    assert_eq!(err.req_id, None);
}

#[test]
fn malformed_json_truncated() {
    let result = parse_message(r#"{"type":"system.ping""#);
    let err = result.unwrap_err();
    assert_eq!(err.code, SystemErrorCode::MalformedJson);
}

// ── top-level non-object ───────────────────────────────────────

#[test]
fn top_level_array_rejected() {
    let result = parse_message(r#"["system.ping"]"#);
    let err = result.unwrap_err();
    assert_eq!(err.code, SystemErrorCode::InvalidMessage);
    assert!(err.detail.contains("object"));
    assert_eq!(err.req_id, None);
}

#[test]
fn top_level_string_rejected() {
    let result = parse_message(r#""system.ping""#);
    let err = result.unwrap_err();
    assert_eq!(err.code, SystemErrorCode::InvalidMessage);
    assert_eq!(err.req_id, None);
}

#[test]
fn top_level_number_rejected() {
    let result = parse_message("42");
    let err = result.unwrap_err();
    assert_eq!(err.code, SystemErrorCode::InvalidMessage);
    assert_eq!(err.req_id, None);
}

#[test]
fn top_level_null_rejected() {
    let result = parse_message("null");
    let err = result.unwrap_err();
    assert_eq!(err.code, SystemErrorCode::InvalidMessage);
}

// ── missing type ───────────────────────────────────────────────

#[test]
fn missing_type_field() {
    let json = r#"{"ts":"2026-06-15T10:00:00.000Z","req_id":"r1"}"#;
    let err = parse_message(json).unwrap_err();
    assert_eq!(err.code, SystemErrorCode::MissingType);
    assert_eq!(err.req_id.as_deref(), Some("r1"));
}

#[test]
fn missing_type_no_req_id_either() {
    let json = r#"{"ts":"2026-06-15T10:00:00.000Z"}"#;
    let err = parse_message(json).unwrap_err();
    assert_eq!(err.code, SystemErrorCode::MissingType);
    assert_eq!(err.req_id, None);
}

// ── non-string type ────────────────────────────────────────────

#[test]
fn type_is_number() {
    let json = r#"{"type":42,"ts":"2026-06-15T10:00:00.000Z","req_id":"r1"}"#;
    let err = parse_message(json).unwrap_err();
    assert_eq!(err.code, SystemErrorCode::InvalidMessage);
    assert!(err.detail.contains("string"));
    assert_eq!(err.req_id.as_deref(), Some("r1"));
}

#[test]
fn type_is_bool() {
    let json = r#"{"type":true,"ts":"2026-06-15T10:00:00.000Z"}"#;
    let err = parse_message(json).unwrap_err();
    assert_eq!(err.code, SystemErrorCode::InvalidMessage);
    assert_eq!(err.req_id, None);
}

#[test]
fn type_is_null() {
    let json = r#"{"type":null,"ts":"2026-06-15T10:00:00.000Z","req_id":"r1"}"#;
    let err = parse_message(json).unwrap_err();
    assert_eq!(err.code, SystemErrorCode::InvalidMessage);
    assert_eq!(err.req_id.as_deref(), Some("r1"));
}

// ── unknown message type ───────────────────────────────────────

#[test]
fn unknown_message_type() {
    let json = r#"{"type":"not.a.real.type","ts":"2026-06-15T10:00:00.000Z","req_id":"r1"}"#;
    let err = parse_message(json).unwrap_err();
    assert_eq!(err.code, SystemErrorCode::UnknownMessageType);
    assert!(err.detail.contains("not.a.real.type"));
}

#[test]
fn unknown_type_with_req_id() {
    let json = r#"{"type":"foo.bar","ts":"2026-06-15T10:00:00.000Z","req_id":"my-req"}"#;
    let err = parse_message(json).unwrap_err();
    assert_eq!(err.code, SystemErrorCode::UnknownMessageType);
    assert_eq!(err.req_id.as_deref(), Some("my-req"));
}

// ── known type but invalid body ────────────────────────────────

#[test]
fn ping_missing_req_id_field() {
    let json = r#"{"type":"system.ping","ts":"2026-06-15T10:00:00.000Z"}"#;
    let err = parse_message(json).unwrap_err();
    assert_eq!(err.code, SystemErrorCode::InvalidMessage);
    // req_id was not in the JSON, so can't be extracted.
    assert_eq!(err.req_id, None);
}

#[test]
fn ping_missing_ts_field() {
    let json = r#"{"type":"system.ping","req_id":"r1"}"#;
    let err = parse_message(json).unwrap_err();
    assert_eq!(err.code, SystemErrorCode::InvalidMessage);
    assert_eq!(err.req_id.as_deref(), Some("r1"));
}

#[test]
fn pong_missing_req_id() {
    let json = r#"{"type":"system.pong","ts":"2026-06-15T10:00:00.000Z"}"#;
    let err = parse_message(json).unwrap_err();
    assert_eq!(err.code, SystemErrorCode::InvalidMessage);
    assert_eq!(err.req_id, None);
}

// ── empty req_id ───────────────────────────────────────────────

#[test]
fn ping_empty_req_id_rejected() {
    let json = r#"{"type":"system.ping","ts":"2026-06-15T10:00:00.000Z","req_id":""}"#;
    let err = parse_message(json).unwrap_err();
    assert_eq!(err.code, SystemErrorCode::InvalidMessage);
    assert!(err.detail.contains("req_id"));
    assert_eq!(err.req_id, None);
}

#[test]
fn pong_empty_req_id_rejected() {
    let json = r#"{"type":"system.pong","ts":"2026-06-15T10:00:00.000Z","req_id":""}"#;
    let err = parse_message(json).unwrap_err();
    assert_eq!(err.code, SystemErrorCode::InvalidMessage);
    assert!(err.detail.contains("req_id"));
    assert_eq!(err.req_id, None);
}

#[test]
fn error_empty_req_id_rejected() {
    let json = r#"{"type":"system.error","ts":"2026-06-15T10:00:01.000Z","req_id":"","error":"malformed_json","detail":"x"}"#;
    let err = parse_message(json).unwrap_err();
    assert_eq!(err.code, SystemErrorCode::InvalidMessage);
    assert!(err.detail.contains("req_id"));
    assert_eq!(err.req_id, None);
}

#[test]
fn error_null_req_id_accepted() {
    let json = r#"{"type":"system.error","ts":"2026-06-15T10:00:01.000Z","req_id":null,"error":"malformed_json","detail":"x"}"#;
    let msg = parse_message(json).unwrap();
    match msg {
        Message::SystemError(e) => assert_eq!(e.req_id, None),
        _ => panic!("expected SystemError"),
    }
}

#[test]
fn error_missing_req_id_accepted() {
    let json = r#"{"type":"system.error","ts":"2026-06-15T10:00:01.000Z","error":"malformed_json","detail":"x"}"#;
    let msg = parse_message(json).unwrap();
    match msg {
        Message::SystemError(e) => assert_eq!(e.req_id, None),
        _ => panic!("expected SystemError"),
    }
}

// ── NDJSON line discipline ─────────────────────────────────────

#[test]
fn serialize_produces_single_line() {
    let msg = Message::SystemPing(SystemPing {
        ts: "2026-06-15T10:00:00.000Z".to_string(),
        req_id: "abc".to_string(),
    });
    let line = serialize_message(msg);
    assert!(!line.contains('\n'), "NDJSON must be single line");
    assert!(!line.contains('\r'), "NDJSON must not contain CR");
}

#[test]
fn parse_rejects_trailing_garbage() {
    // Extra bytes after a complete JSON object should fail.
    // (serde_json does not accept trailing data by default.)
    let result = parse_message(
        r#"{"type":"system.ping","ts":"2026-06-15T10:00:00.000Z","req_id":"r1"} extra"#,
    );
    assert!(result.is_err());
}

// ── ProtocolError → Message conversion ─────────────────────────

#[test]
fn protocol_error_into_message_generates_fresh_ts() {
    let pe = ProtocolError {
        code: SystemErrorCode::UnknownMessageType,
        req_id: Some("r99".to_string()),
        detail: "Unknown message type: test.x".to_string(),
    };
    let msg = pe.into_message(now_utc());
    match msg {
        Message::SystemError(e) => {
            assert_eq!(e.error, SystemErrorCode::UnknownMessageType);
            assert_eq!(e.req_id.as_deref(), Some("r99"));
            assert!(validate_timestamp(&e.ts));
            assert!(e.ts.ends_with("Z"));
        }
        _ => panic!("expected SystemError"),
    }
}

// ── system.error detail is brief ───────────────────────────────

#[test]
fn error_detail_does_not_echo_original_message() {
    // Malformed JSON should have a generic detail, not the raw input.
    let result = parse_message("garbage {{{");
    let err = result.unwrap_err();
    assert!(!err.detail.contains("{{{"));
    assert!(err.detail.len() < 100);
}

// ── Phase 2: event_id validation ─────────────────────────────────

#[test]
fn event_id_some_empty_rejected_on_phase2() {
    // event_id on a Phase 2 message: Some("") must be rejected.
    let json = r#"{"type":"permission.response","ts":"2026-06-15T10:00:00.000Z","event_id":"","permission_id":"perm-1","req_id":"r1","decision":"approved"}"#;
    let err = parse_message(json).unwrap_err();
    assert_eq!(err.code, SystemErrorCode::InvalidMessage);
    assert!(err.detail.contains("event_id"));
}

#[test]
fn ping_without_event_id_still_parses() {
    // Phase 1 messages never had event_id; they parse fine without it.
    let json = r#"{"type":"system.ping","ts":"2026-06-15T10:00:00.000Z","req_id":"r1"}"#;
    assert!(parse_message(json).is_ok());
}

// ── Phase 2: task.dispatch ──────────────────────────────────────

#[test]
fn task_dispatch_missing_req_id_rejected() {
    // `req_id: String` is required by serde — missing field → deserialization failure.
    let card = r#"{"schema_version":"2.8","task_card_id":"t1","project":"p","created_at":"2026-01-01T00:00:00Z","status":"open","goal":"g","compiled_intent":{},"context":{"user_preferences":{},"project_context":{"name":"p","data":{},"global_must_avoid":[]},"relevant_feedback":{}},"execution_plan":{},"acceptance_criteria":{},"allowed_files":[],"safety":{"allowed_paths":[],"denied_commands":[]},"output_contract":{},"review_gate_criteria":{}}"#;
    let json = format!(
        r#"{{"type":"task.dispatch","ts":"2026-06-15T10:00:00.000Z","agent_id":"coder","task_id":"t1","task_card":{}}}"#,
        card
    );
    let err = parse_message(&json).unwrap_err();
    assert_eq!(err.code, SystemErrorCode::InvalidMessage);
}

#[test]
fn task_dispatch_empty_req_id_rejected() {
    // Use a valid task_card so serde succeeds; validation then catches empty req_id.
    let card = r#"{"schema_version":"2.8","task_card_id":"t1","project":"p","created_at":"2026-01-01T00:00:00Z","status":"open","goal":"g","compiled_intent":{},"context":{"user_preferences":{},"project_context":{"name":"p","data":{},"global_must_avoid":[]},"relevant_feedback":{}},"execution_plan":{},"acceptance_criteria":{},"allowed_files":[],"safety":{"allowed_paths":[],"denied_commands":[]},"output_contract":{},"review_gate_criteria":{}}"#;
    let json = format!(
        r#"{{"type":"task.dispatch","ts":"2026-06-15T10:00:00.000Z","req_id":"","agent_id":"coder","task_id":"t1","task_card":{}}}"#,
        card
    );
    let err = parse_message(&json).unwrap_err();
    assert_eq!(err.code, SystemErrorCode::InvalidMessage);
    assert!(err.detail.contains("req_id"));
}

#[test]
fn task_dispatch_valid_roundtrip() {
    let json = r#"{"type":"task.dispatch","ts":"2026-06-15T10:00:00.000Z","event_id":"ev-1","req_id":"r1","agent_id":"coder","task_id":"t1","task_card":{"schema_version":"2.8","task_card_id":"t1","project":"test","created_at":"2026-01-01T00:00:00Z","status":"open","goal":"test","compiled_intent":{},"context":{"user_preferences":{},"project_context":{"name":"p","data":{},"global_must_avoid":[]},"relevant_feedback":{}},"execution_plan":{},"acceptance_criteria":{},"allowed_files":[],"safety":{"allowed_paths":[],"denied_commands":[]},"output_contract":{},"review_gate_criteria":{}}}"#;
    let msg = parse_message(json).unwrap();
    match msg {
        Message::TaskDispatch(td) => {
            assert_eq!(td.req_id, "r1");
            assert_eq!(td.event_id.as_deref(), Some("ev-1"));
            assert_eq!(td.agent_id, "coder");
            assert_eq!(td.task_id, "t1");
        }
        _ => panic!("expected TaskDispatch"),
    }
}

// ── Phase 2: permission.request / permission.response ────────────

#[test]
fn permission_request_valid() {
    let json = r#"{"type":"permission.request","ts":"2026-06-15T10:00:00.000Z","permission_id":"perm-1","req_id":"r1","agent_id":"coder","tool":"bash","args":{}}"#;
    let msg = parse_message(json).unwrap();
    match msg {
        Message::PermissionRequest(pr) => {
            assert_eq!(pr.permission_id, "perm-1");
            assert_eq!(pr.req_id, "r1");
        }
        _ => panic!("expected PermissionRequest"),
    }
}

#[test]
fn permission_request_empty_req_id_rejected() {
    let json = r#"{"type":"permission.request","ts":"2026-06-15T10:00:00.000Z","permission_id":"perm-1","req_id":"","agent_id":"coder","tool":"bash","args":{}}"#;
    let err = parse_message(json).unwrap_err();
    assert_eq!(err.code, SystemErrorCode::InvalidMessage);
    assert!(err.detail.contains("req_id"));
}

#[test]
fn permission_request_empty_permission_id_rejected() {
    let json = r#"{"type":"permission.request","ts":"2026-06-15T10:00:00.000Z","permission_id":"","req_id":"r1","agent_id":"coder","tool":"bash","args":{}}"#;
    let err = parse_message(json).unwrap_err();
    assert_eq!(err.code, SystemErrorCode::InvalidMessage);
    assert!(err.detail.contains("permission_id"));
}

#[test]
fn permission_response_valid() {
    let json = r#"{"type":"permission.response","ts":"2026-06-15T10:00:00.000Z","permission_id":"perm-1","req_id":"r1","decision":"approved"}"#;
    let msg = parse_message(json).unwrap();
    match msg {
        Message::PermissionResponse(pr) => {
            assert_eq!(pr.permission_id, "perm-1");
            assert_eq!(pr.req_id, "r1");
            assert_eq!(pr.decision, PermissionDecision::Approved);
        }
        _ => panic!("expected PermissionResponse"),
    }
}

#[test]
fn permission_response_empty_req_id_rejected() {
    let json = r#"{"type":"permission.response","ts":"2026-06-15T10:00:00.000Z","permission_id":"perm-1","req_id":"","decision":"approved"}"#;
    let err = parse_message(json).unwrap_err();
    assert_eq!(err.code, SystemErrorCode::InvalidMessage);
    assert!(err.detail.contains("req_id"));
}

// ── Phase 2: session.rejoin ──────────────────────────────────────

#[test]
fn session_rejoin_valid_without_last_event_id() {
    let json = r#"{"type":"session.rejoin","ts":"2026-06-15T10:00:00.000Z","req_id":"r1","task_id":"t1"}"#;
    let msg = parse_message(json).unwrap();
    match msg {
        Message::SessionRejoin(sr) => {
            assert_eq!(sr.req_id, "r1");
            assert_eq!(sr.task_id, "t1");
            assert_eq!(sr.last_event_id, None);
        }
        _ => panic!("expected SessionRejoin"),
    }
}

#[test]
fn session_rejoin_valid_with_last_event_id() {
    let json = r#"{"type":"session.rejoin","ts":"2026-06-15T10:00:00.000Z","req_id":"r1","task_id":"t1","last_event_id":"ev-99"}"#;
    let msg = parse_message(json).unwrap();
    match msg {
        Message::SessionRejoin(sr) => {
            assert_eq!(sr.last_event_id.as_deref(), Some("ev-99"));
        }
        _ => panic!("expected SessionRejoin"),
    }
}

#[test]
fn session_rejoin_empty_req_id_rejected() {
    let json = r#"{"type":"session.rejoin","ts":"2026-06-15T10:00:00.000Z","req_id":"","task_id":"t1"}"#;
    let err = parse_message(json).unwrap_err();
    assert_eq!(err.code, SystemErrorCode::InvalidMessage);
    assert!(err.detail.contains("req_id"));
}

#[test]
fn session_rejoin_empty_task_id_rejected() {
    let json = r#"{"type":"session.rejoin","ts":"2026-06-15T10:00:00.000Z","req_id":"r1","task_id":""}"#;
    let err = parse_message(json).unwrap_err();
    assert_eq!(err.code, SystemErrorCode::InvalidMessage);
    assert!(err.detail.contains("task_id"));
}

#[test]
fn session_rejoin_last_event_id_empty_rejected() {
    let json = r#"{"type":"session.rejoin","ts":"2026-06-15T10:00:00.000Z","req_id":"r1","task_id":"t1","last_event_id":""}"#;
    let err = parse_message(json).unwrap_err();
    assert_eq!(err.code, SystemErrorCode::InvalidMessage);
    assert!(err.detail.contains("last_event_id"));
}

// ── Phase 2: event_id on Phase 2 types ───────────────────────────

#[test]
fn event_id_roundtrip_preserved() {
    // PermissionResponse with event_id.
    let json = r#"{"type":"permission.response","ts":"2026-06-15T10:00:00.000Z","event_id":"ev-100","permission_id":"perm-1","req_id":"r1","decision":"approved"}"#;
    let msg = parse_message(json).unwrap();
    let out = serialize_message(msg);
    let msg2 = parse_message(&out).unwrap();
    match msg2 {
        Message::PermissionResponse(pr) => {
            assert_eq!(pr.event_id.as_deref(), Some("ev-100"));
            assert_eq!(pr.decision, PermissionDecision::Approved);
        }
        _ => panic!("expected PermissionResponse"),
    }
}

// ── the message types on the wire ─────────────────────────────────

#[test]
fn serialize_ping_has_type_field() {
    let ping = Message::SystemPing(SystemPing {
        ts: "2026-06-15T10:00:00.000Z".to_string(),
        req_id: "abc-123".to_string(),
    });
    let json = serialize_message(ping);
    assert!(json.contains("\"type\":\"system.ping\""));
    let parsed: Value = serde_json::from_str(&json).unwrap();
    assert_eq!(parsed.get("type").and_then(|v| v.as_str()), Some("system.ping"));
    assert!(parsed.get("req_id").is_some());
}

#[test]
fn deserialize_ping_roundtrip() {
    let json = r#"{"type":"system.ping","ts":"2026-06-15T10:00:00.000Z","req_id":"abc-123"}"#;
    let msg = decode_message(to_json(serde_json::from_str::<Value>(json).unwrap())).unwrap();
    match msg {
        Message::SystemPing(ping) => {
            assert_eq!(ping.ts, "2026-06-15T10:00:00.000Z");
            assert_eq!(ping.req_id, "abc-123");
        }
        _ => panic!("expected SystemPing"),
    }
}

#[test]
fn serialize_pong_has_type_field() {
    let pong = Message::SystemPong(SystemPong {
        ts: "2026-06-15T10:00:00.500Z".to_string(),
        req_id: "xyz-456".to_string(),
    });
    let json = serialize_message(pong);
    assert!(json.contains("\"type\":\"system.pong\""));
}

#[test]
fn serialize_error_has_type_field() {
    let err = Message::SystemError(SystemError {
        ts: "2026-06-15T10:00:01.000Z".to_string(),
        req_id: Some("req-1".to_string()),
        error: SystemErrorCode::UnknownMessageType,
        detail: "Unknown message type: foo.bar".to_string(),
    });
    let json = serialize_message(err);
    assert!(json.contains("\"type\":\"system.error\""));
    let parsed: Value = serde_json::from_str(&json).unwrap();
    assert_eq!(parsed.get("type").and_then(|v| v.as_str()), Some("system.error"));
}

#[test]
fn system_error_code_serialization() {
    let codes = vec![
        (SystemErrorCode::MalformedJson, "malformed_json"),
        (SystemErrorCode::MissingType, "missing_type"),
        (SystemErrorCode::UnknownMessageType, "unknown_message_type"),
        (SystemErrorCode::InvalidMessage, "invalid_message"),
    ];
    for (code, expected) in codes {
        let msg = make_error(code, None, "x".to_string());
        let parsed: Value = serde_json::from_str(&serialize_message(msg)).unwrap();
        let json = serde_json::to_string(&parsed["error"]).unwrap();
        assert_eq!(json, format!("\"{}\"", expected));
        assert_eq!(code.as_str(), expected);
    }
}
