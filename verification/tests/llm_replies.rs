use daedalusd::error::ProviderError;
use daedalusd::json::{JsonNumber, JsonValue};
use daedalusd::llm::anthropic;
use daedalusd::llm::openai_compat;
use serde_json::Value;

fn to_json(v: Value) -> JsonValue {
    match v {
        Value::Null => JsonValue::Null,
        Value::Bool(b) => JsonValue::Bool(b),
        Value::Number(n) => JsonValue::Number(number_of(&n)),
        Value::String(s) => JsonValue::String(s),
        Value::Array(a) => JsonValue::Array(a.into_iter().map(to_json).collect()),
        Value::Object(m) => {
            JsonValue::Object(m.into_iter().map(|(k, v)| (k, to_json(v))).collect())
        }
    }
}

fn number_of(n: &serde_json::Number) -> JsonNumber {
    if let Some(u) = n.as_u64() {
        JsonNumber::PosInt(u)
    } else if let Some(i) = n.as_i64() {
        JsonNumber::NegInt(i)
    } else {
        let bits = n.as_f64().unwrap().to_bits();
        let negative = bits >> 63 == 1;
        let e = ((bits >> 52) & 0x7ff) as i32;
        let frac = bits & ((1u64 << 52) - 1);
        if e == 0 {
            JsonNumber::Float { negative, mantissa: frac, exponent: -1074 }
        } else {
            JsonNumber::Float { negative, mantissa: frac | (1u64 << 52), exponent: e - 1075 }
        }
    }
}


fn json(text: &str) -> JsonValue {
    to_json(serde_json::from_str::<Value>(text).unwrap())
}

fn parse_message_text(err: &ProviderError) -> String {
    match err {
        ProviderError::Parse(m) => m.clone(),
        other => panic!("expected a parse error, got {:?}", other),
    }
}

// ── Anthropic ───────────────────────────────────────────────────────

#[test]
fn anthropic_parse_text_response() {
    let v = json(r#"{"id":"msg_1","type":"message","role":"assistant","content":[{"type":"text","text":"Hello, world!"}],"stop_reason":"end_turn"}"#);
    let r = anthropic::parse_chat_response(&v).unwrap();
    assert_eq!(r.content, "Hello, world!");
    assert!(r.tool_calls.is_empty());
}

#[test]
fn parse_tool_use_response() {
    let v = json(r#"{"content":[{"type":"tool_use","id":"toolu_1","name":"file_read","input":{"path":"/tmp/x"}}]}"#);
    let r = anthropic::parse_chat_response(&v).unwrap();
    assert_eq!(r.tool_calls.len(), 1);
    assert_eq!(r.tool_calls[0].name, "file_read");
    assert_eq!(r.tool_calls[0].id, "toolu_1");
    assert_eq!(r.tool_calls[0].input.get("path").and_then(|p| p.as_str()), Some("/tmp/x"));
}

#[test]
fn tool_use_missing_id_rejected() {
    let v = json(r#"{"content":[{"type":"tool_use","name":"x","input":{}}]}"#);
    let err = anthropic::parse_chat_response(&v).unwrap_err();
    assert!(matches!(err, ProviderError::Parse(_)));
}

#[test]
fn tool_use_missing_name_rejected() {
    let v = json(r#"{"content":[{"type":"tool_use","id":"id1","input":{}}]}"#);
    let err = anthropic::parse_chat_response(&v).unwrap_err();
    assert!(matches!(err, ProviderError::Parse(_)));
}

#[test]
fn text_block_missing_text_rejected() {
    let v = json(r#"{"content":[{"type":"text"}]}"#);
    let err = anthropic::parse_chat_response(&v).unwrap_err();
    assert!(matches!(err, ProviderError::Parse(_)));
    assert!(err.to_display_string().contains("text"));
}

#[test]
fn tool_use_missing_input_rejected() {
    let v = json(r#"{"content":[{"type":"tool_use","id":"toolu_1","name":"read"}]}"#);
    let err = anthropic::parse_chat_response(&v).unwrap_err();
    assert!(matches!(err, ProviderError::Parse(_)));
    assert!(err.to_display_string().contains("input"));
}

#[test]
fn anthropic_text_blocks_join_and_others_are_skipped() {
    let v = json(r#"{"content":[{"type":"text","text":"a"},{"type":"thinking","x":1},{"type":"text","text":"b"},{"type":"tool_use","id":"t1","name":"n","input":null}]}"#);
    let r = anthropic::parse_chat_response(&v).unwrap();
    assert_eq!(r.content, "ab");
    assert_eq!(r.tool_calls.len(), 1);
    assert!(r.tool_calls[0].input.is_null());
}

#[test]
fn anthropic_missing_content_array() {
    let err = anthropic::parse_chat_response(&json(r#"{"content":"text"}"#)).unwrap_err();
    assert_eq!(parse_message_text(&err), "Anthropic: missing 'content' array");
}

#[test]
fn anthropic_first_bad_block_decides() {
    let v = json(r#"{"content":[{"type":"tool_use","id":"t","name":"n"},{"type":"text"}]}"#);
    let err = anthropic::parse_chat_response(&v).unwrap_err();
    assert_eq!(parse_message_text(&err), "Anthropic: tool_use missing 'input' field");
}

// ── OpenAI-compatible ───────────────────────────────────────────────

#[test]
fn openai_compat_parse_text_response() {
    let v = json(r#"{"choices":[{"index":0,"message":{"role":"assistant","content":"Hello"},"finish_reason":"stop"}]}"#);
    let r = openai_compat::parse_chat_response(&v).unwrap();
    assert_eq!(r.content, "Hello");
    assert!(r.tool_calls.is_empty());
}

#[test]
fn parse_tool_call_response() {
    let v = json(r#"{"choices":[{"index":0,"message":{"role":"assistant","content":null,"tool_calls":[{"id":"call_1","type":"function","function":{"name":"file_read","arguments":"{\"path\":\"/x\"}"}}]},"finish_reason":"tool_calls"}]}"#);
    let r = openai_compat::parse_chat_response(&v).unwrap();
    assert_eq!(r.tool_calls.len(), 1);
    assert_eq!(r.tool_calls[0].id, "call_1");
    assert_eq!(r.tool_calls[0].name, "file_read");
    assert_eq!(r.tool_calls[0].input.get("path").and_then(|p| p.as_str()), Some("/x"));
}

#[test]
fn null_content_becomes_empty() {
    let v = json(r#"{"choices":[{"index":0,"message":{"role":"assistant","content":null},"finish_reason":"stop"}]}"#);
    let r = openai_compat::parse_chat_response(&v).unwrap();
    assert_eq!(r.content, "");
}

#[test]
fn missing_choices_rejected() {
    let err = openai_compat::parse_chat_response(&json("{}")).unwrap_err();
    assert!(matches!(err, ProviderError::Parse(_)));
    assert_eq!(parse_message_text(&err), "OpenAI: missing 'choices' array");
}

#[test]
fn empty_choices_rejected() {
    let err = openai_compat::parse_chat_response(&json(r#"{"choices": []}"#)).unwrap_err();
    assert!(matches!(err, ProviderError::Parse(_)));
    assert_eq!(parse_message_text(&err), "OpenAI: empty 'choices'");
}

#[test]
fn tool_call_missing_id_rejected() {
    let v = json(r#"{"choices":[{"message":{"tool_calls":[{"function":{"name":"x","arguments":"{}"}}]}}]}"#);
    let err = openai_compat::parse_chat_response(&v).unwrap_err();
    assert!(matches!(err, ProviderError::Parse(_)));
}

#[test]
fn openai_missing_arguments_read_as_empty_object() {
    let v = json(r#"{"choices":[{"message":{"tool_calls":[{"id":"c","function":{"name":"x"}}]}}]}"#);
    let r = openai_compat::parse_chat_response(&v).unwrap();
    assert!(matches!(&r.tool_calls[0].input, JsonValue::Object(es) if es.is_empty()));
}

#[test]
fn openai_bad_arguments_are_a_parse_error() {
    let v = json(r#"{"choices":[{"message":{"tool_calls":[{"id":"c","function":{"name":"x","arguments":"{nope"}}]}}]}"#);
    let err = openai_compat::parse_chat_response(&v).unwrap_err();
    assert!(parse_message_text(&err).starts_with("tool arguments JSON: "));
}
