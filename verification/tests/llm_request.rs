use daedalusd::json::{parse_json_text, JsonNumber, JsonValue};
use daedalusd::llm::request::{anthropic_request, openai_request};
use daedalusd::types::{ChatMessage, ToolDef};

fn msg(role: &str, content: &str) -> ChatMessage {
    ChatMessage { role: role.into(), content: content.into(), tool_call_id: None, tool_calls: vec![] }
}

fn tool(name: &str) -> ToolDef {
    ToolDef {
        name: name.into(),
        description: format!("{} tool", name),
        input_schema: parse_json_text("{\"type\":\"object\"}").unwrap(),
    }
}

fn half() -> JsonNumber {
    // 0.5 == 1 * 2^-1
    JsonNumber::Float { negative: false, mantissa: 1, exponent: -1 }
}

fn s<'a>(v: &'a JsonValue, key: &str) -> &'a str {
    v.get(key).and_then(|x| x.as_str()).unwrap()
}

#[test]
fn anthropic_body_joins_system_messages() {
    let messages = vec![msg("system", "one"), msg("user", "hi"), msg("system", "two"), msg("assistant", "yo")];
    let body = anthropic_request(&messages, &vec![tool("file_read")], "sonnet-x", 1024, half(), true);
    assert_eq!(s(&body, "model"), "sonnet-x");
    assert_eq!(body.get("max_tokens").and_then(|v| v.as_number()).and_then(|n| n.as_u64()), Some(1024));
    assert_eq!(body.get("stream").and_then(|v| v.as_bool()), Some(true));
    assert!(matches!(body.get("temperature"), Some(JsonValue::Number(n)) if *n == half()));
    assert_eq!(s(&body, "system"), "one\n\ntwo");
    let items = body.get("messages").and_then(|v| v.as_array()).unwrap();
    assert_eq!(items.len(), 2);
    assert_eq!(s(&items[0], "role"), "user");
    assert_eq!(s(&items[0], "content"), "hi");
    assert_eq!(s(&items[1], "role"), "assistant");
    let tools = body.get("tools").and_then(|v| v.as_array()).unwrap();
    assert_eq!(tools.len(), 1);
    assert_eq!(s(&tools[0], "name"), "file_read");
    assert_eq!(s(&tools[0], "description"), "file_read tool");
    assert_eq!(s(tools[0].get("input_schema").unwrap(), "type"), "object");
}

#[test]
fn anthropic_body_leaves_out_empty_system_and_tools() {
    let body = anthropic_request(&vec![msg("user", "hi")], &vec![], "m", 10, JsonNumber::PosInt(0), false);
    assert!(body.get("system").is_none());
    assert!(body.get("tools").is_none());
    assert_eq!(body.get("stream").and_then(|v| v.as_bool()), Some(false));
}

#[test]
fn openai_body_keeps_every_message_and_wraps_tools() {
    let messages = vec![msg("system", "rules"), msg("user", "hi")];
    let body = openai_request(&messages, &vec![tool("bash")], "gpt", 256, half(), false);
    assert!(body.get("system").is_none());
    let items = body.get("messages").and_then(|v| v.as_array()).unwrap();
    assert_eq!(items.len(), 2);
    assert_eq!(s(&items[0], "role"), "system");
    assert_eq!(s(&items[0], "content"), "rules");
    let tools = body.get("tools").and_then(|v| v.as_array()).unwrap();
    assert_eq!(s(&tools[0], "type"), "function");
    let f = tools[0].get("function").unwrap();
    assert_eq!(s(f, "name"), "bash");
    assert_eq!(s(f.get("parameters").unwrap(), "type"), "object");
}

#[test]
fn openai_body_without_tools() {
    let body = openai_request(&vec![], &vec![], "gpt", 1, JsonNumber::PosInt(1), true);
    assert!(body.get("tools").is_none());
    assert_eq!(body.get("messages").and_then(|v| v.as_array()).map(|a| a.len()), Some(0));
}
