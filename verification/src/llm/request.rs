//! The request bodies sent to the two provider APIs.
use vstd::prelude::*;

use crate::agent::prompt::joined;
use crate::agent::sections::join_strings;
use crate::json::{json_same, lookup, member, member_str, push_field, str_of, JsonNumber, JsonValue};
use crate::text::str_eq;
use crate::types::{ChatMessage, ToolDef};

verus! {

/// The contents of the system messages, in order.
pub open spec fn system_parts(ms: Seq<ChatMessage>) -> Seq<Seq<char>>
    decreases ms.len(),
{
    if ms.len() == 0 {
        seq![]
    } else if ms.last().role@ == "system"@ {
        system_parts(ms.drop_last()).push(ms.last().content@)
    } else {
        system_parts(ms.drop_last())
    }
}

/// The other messages as role and content, in order.
pub open spec fn chat_parts(ms: Seq<ChatMessage>) -> Seq<(Seq<char>, Seq<char>)>
    decreases ms.len(),
{
    if ms.len() == 0 {
        seq![]
    } else if ms.last().role@ == "system"@ {
        chat_parts(ms.drop_last())
    } else {
        chat_parts(ms.drop_last()).push((ms.last().role@, ms.last().content@))
    }
}

/// Every message as role and content.
pub open spec fn all_parts(ms: Seq<ChatMessage>) -> Seq<(Seq<char>, Seq<char>)> {
    ms.map_values(|m: ChatMessage| (m.role@, m.content@))
}

/// `items` are `{"role", "content"}` objects for `parts`, in order.
pub open spec fn messages_are(items: Seq<JsonValue>, parts: Seq<(Seq<char>, Seq<char>)>) -> bool {
    &&& items.len() == parts.len()
    &&& forall|i: int|
        0 <= i < items.len() ==> member_str(#[trigger] items[i], "role"@) == Some(parts[i].0) && member_str(
            items[i],
            "content"@,
        ) == Some(parts[i].1)
}

/// The settings every body carries.
pub open spec fn settings_are(body: JsonValue, model: Seq<char>, max_tokens: u32, temperature: JsonNumber, stream: bool) -> bool {
    &&& member_str(body, "model"@) == Some(model)
    &&& member(body, "max_tokens"@) == Some(JsonValue::Number(JsonNumber::PosInt(max_tokens as u64)))
    &&& member(body, "temperature"@) == Some(JsonValue::Number(temperature))
    &&& member(body, "stream"@) == Some(JsonValue::Bool(stream))
}

fn text(s: &str) -> (r: JsonValue)
    ensures
        str_of(r) == Some(s@),
{
    JsonValue::String(String::from_str(s))
}

fn message_value(role: &str, content: &str) -> (r: JsonValue)
    ensures
        member_str(r, "role"@) == Some(role@),
        member_str(r, "content"@) == Some(content@),
{
    let mut es: Vec<(String, JsonValue)> = Vec::new();
    push_field(&mut es, "role", text(role));
    push_field(&mut es, "content", text(content));
    proof {
        reveal_strlit("role");
        reveal_strlit("content");
        assert("role"@.len() == 4);
        assert("content"@.len() == 7);
    }
    JsonValue::Object(es)
}

/// The messages with the system ones left out (`skip_system`) or not, and
/// the contents of the system ones.
fn split_messages(messages: &Vec<ChatMessage>, skip_system: bool) -> (r: (Vec<JsonValue>, Vec<String>))
    ensures
        skip_system ==> messages_are(r.0@, chat_parts(messages@)),
        !skip_system ==> messages_are(r.0@, all_parts(messages@)),
        r.1@.map_values(|s: String| s@) == system_parts(messages@),
{
    let mut items: Vec<JsonValue> = Vec::new();
    let mut systems: Vec<String> = Vec::new();
    let mut i: usize = 0;
    while i < messages.len()
        invariant
            i <= messages@.len(),
            skip_system ==> messages_are(items@, chat_parts(messages@.subrange(0, i as int))),
            !skip_system ==> messages_are(items@, all_parts(messages@.subrange(0, i as int))),
            systems@.map_values(|s: String| s@) == system_parts(messages@.subrange(0, i as int)),
        decreases messages@.len() - i,
    {
        let m = &messages[i];
        let ghost pre = messages@.subrange(0, i as int);
        let ghost post = messages@.subrange(0, i + 1);
        proof {
            assert(post.drop_last() =~= pre);
            assert(post.last() == *m);
            assert(all_parts(post) =~= all_parts(pre).push((m.role@, m.content@)));
            reveal_strlit("system");
        }
        let is_system = str_eq(m.role.as_str(), "system");
        let ghost old_systems = systems@;
        if is_system {
            systems.push(m.content.clone());
            proof {
                assert(systems@.map_values(|s: String| s@) =~= old_systems.map_values(|s: String| s@).push(m.content@));
            }
        } else {
            assert(systems@.map_values(|s: String| s@) =~= system_parts(post));
        }
        if !skip_system || !is_system {
            let ghost old_items = items@;
            items.push(message_value(m.role.as_str(), m.content.as_str()));
            proof {
                if skip_system {
                    assert(chat_parts(post) == chat_parts(pre).push((m.role@, m.content@)));
                }
                assert forall|k: int| 0 <= k < items@.len() implies member_str(#[trigger] items@[k], "role"@) == Some(
                    (if skip_system { chat_parts(post) } else { all_parts(post) })[k].0,
                ) && member_str(items@[k], "content"@) == Some(
                    (if skip_system { chat_parts(post) } else { all_parts(post) })[k].1,
                ) by {
                    if k < old_items.len() {
                        assert(items@[k] == old_items[k]);
                    }
                }
            }
        } else {
            assert(chat_parts(post) == chat_parts(pre));
        }
        i = i + 1;
    }
    assert(messages@.subrange(0, messages@.len() as int) =~= messages@);
    (items, systems)
}

/// A tool as the Anthropic API lists it.
pub open spec fn anthropic_tool(item: JsonValue, t: ToolDef) -> bool {
    &&& member_str(item, "name"@) == Some(t.name@)
    &&& member_str(item, "description"@) == Some(t.description@)
    &&& member(item, "input_schema"@) matches Some(s) && json_same(t.input_schema, s)
}

/// A tool as the Chat Completions API lists it.
pub open spec fn openai_tool(item: JsonValue, t: ToolDef) -> bool {
    &&& member_str(item, "type"@) == Some("function"@)
    &&& member(item, "function"@) matches Some(f) && {
        &&& member_str(f, "name"@) == Some(t.name@)
        &&& member_str(f, "description"@) == Some(t.description@)
        &&& member(f, "parameters"@) matches Some(s) && json_same(t.input_schema, s)
    }
}

/// `tools` as the Anthropic API lists them.
pub open spec fn anthropic_tools_are(items: Seq<JsonValue>, tools: Seq<ToolDef>) -> bool {
    &&& items.len() == tools.len()
    &&& forall|i: int| 0 <= i < items.len() ==> anthropic_tool(#[trigger] items[i], tools[i])
}

/// `tools` as the Chat Completions API lists them.
pub open spec fn openai_tools_are(items: Seq<JsonValue>, tools: Seq<ToolDef>) -> bool {
    &&& items.len() == tools.len()
    &&& forall|i: int| 0 <= i < items.len() ==> openai_tool(#[trigger] items[i], tools[i])
}

fn tool_entries(tools: &Vec<ToolDef>, openai: bool) -> (r: Vec<JsonValue>)
    ensures
        openai ==> openai_tools_are(r@, tools@),
        !openai ==> anthropic_tools_are(r@, tools@),
{
    let mut out: Vec<JsonValue> = Vec::new();
    let mut i: usize = 0;
    while i < tools.len()
        invariant
            i <= tools@.len(),
            out@.len() == i,
            openai ==> forall|k: int| 0 <= k < i ==> openai_tool(#[trigger] out@[k], tools@[k]),
            !openai ==> forall|k: int| 0 <= k < i ==> anthropic_tool(#[trigger] out@[k], tools@[k]),
        decreases tools@.len() - i,
    {
        proof {
            reveal_strlit("name");
            reveal_strlit("description");
            reveal_strlit("input_schema");
            reveal_strlit("parameters");
            reveal_strlit("type");
            reveal_strlit("function");
            assert("name"@.len() == 4);
            assert("description"@.len() == 11);
            assert("input_schema"@.len() == 12);
            assert("parameters"@.len() == 10);
            assert("type"@.len() == 4);
            assert("function"@.len() == 8);
            assert("name"@[0] != "type"@[0]);
        }
        let t = &tools[i];
        let mut es: Vec<(String, JsonValue)> = Vec::new();
        let nv = text(t.name.as_str());
        let dv = text(t.description.as_str());
        let sv = t.input_schema.duplicate();
        let ghost (n0, d0, s0) = (nv, dv, sv);
        push_field(&mut es, "name", nv);
        push_field(&mut es, "description", dv);
        let entry = if openai {
            push_field(&mut es, "parameters", sv);
            assert(lookup(es@, "name"@) == Some(n0));
            assert(lookup(es@, "description"@) == Some(d0));
            assert(lookup(es@, "parameters"@) == Some(s0));
            let inner = JsonValue::Object(es);
            let ghost iv = inner;
            let mut outer: Vec<(String, JsonValue)> = Vec::new();
            push_field(&mut outer, "type", text("function"));
            push_field(&mut outer, "function", inner);
            assert(lookup(outer@, "function"@) == Some(iv));
            JsonValue::Object(outer)
        } else {
            push_field(&mut es, "input_schema", sv);
            assert(lookup(es@, "name"@) == Some(n0));
            assert(lookup(es@, "description"@) == Some(d0));
            assert(lookup(es@, "input_schema"@) == Some(s0));
            JsonValue::Object(es)
        };
        proof {
            if openai {
                assert(openai_tool(entry, tools@[i as int]));
            } else {
                assert(anthropic_tool(entry, tools@[i as int]));
            }
        }
        let ghost old_out = out@;
        out.push(entry);
        proof {
            assert forall|k: int| 0 <= k < i implies #[trigger] out@[k] == old_out[k] by {}
        }
        i = i + 1;
    }
    out
}

fn settings(model: &str, max_tokens: u32, temperature: JsonNumber, stream: bool) -> (r: Vec<(String, JsonValue)>)
    ensures
        settings_are(JsonValue::Object(r), model@, max_tokens, temperature, stream),
        forall|k: Seq<char>| k != "model"@ && k != "max_tokens"@ && k != "temperature"@ && k != "stream"@
            ==> #[trigger] lookup(r@, k) is None,
{
    let mut es: Vec<(String, JsonValue)> = Vec::new();
    push_field(&mut es, "model", text(model));
    push_field(&mut es, "max_tokens", JsonValue::Number(JsonNumber::PosInt(max_tokens as u64)));
    push_field(&mut es, "temperature", JsonValue::Number(temperature));
    push_field(&mut es, "stream", JsonValue::Bool(stream));
    proof {
        reveal_strlit("model");
        reveal_strlit("max_tokens");
        reveal_strlit("temperature");
        reveal_strlit("stream");
        assert("model"@.len() == 5);
        assert("max_tokens"@.len() == 10);
        assert("temperature"@.len() == 11);
        assert("stream"@.len() == 6);
    }
    es
}

/// The Messages API request: the settings, the system messages joined
/// into `system` (left out when there are none), the other messages, and
/// the tools (left out when there are none).
pub fn anthropic_request(
    messages: &Vec<ChatMessage>,
    tools: &Vec<ToolDef>,
    model: &str,
    max_tokens: u32,
    temperature: JsonNumber,
    stream: bool,
) -> (r: JsonValue)
    ensures
        settings_are(r, model@, max_tokens, temperature, stream),
        system_parts(messages@).len() > 0 ==> member_str(r, "system"@) == Some(
            joined(system_parts(messages@), "\n\n"@),
        ),
        system_parts(messages@).len() == 0 ==> member(r, "system"@) is None,
        member(r, "messages"@) matches Some(JsonValue::Array(items)) && messages_are(items@, chat_parts(messages@)),
        tools@.len() > 0 ==> (member(r, "tools"@) matches Some(JsonValue::Array(items)) && anthropic_tools_are(
            items@,
            tools@,
        )),
        tools@.len() == 0 ==> member(r, "tools"@) is None,
{
    proof {
        reveal_strlit("model");
        reveal_strlit("max_tokens");
        reveal_strlit("temperature");
        reveal_strlit("stream");
        reveal_strlit("system");
        reveal_strlit("messages");
        reveal_strlit("tools");
        assert("model"@.len() == 5);
        assert("max_tokens"@.len() == 10);
        assert("temperature"@.len() == 11);
        assert("stream"@.len() == 6);
        assert("system"@[1] != "stream"@[1]);
        assert("messages"@.len() == 8);
        assert("tools"@[0] != "model"@[0]);
    }
    let mut es = settings(model, max_tokens, temperature, stream);
    let (items, systems) = split_messages(messages, true);
    if systems.len() > 0 {
        let s = join_strings(&systems, "\n\n");
        push_field(&mut es, "system", text(s.as_str()));
    }
    push_field(&mut es, "messages", JsonValue::Array(items));
    if tools.len() > 0 {
        push_field(&mut es, "tools", JsonValue::Array(tool_entries(tools, false)));
    }
    JsonValue::Object(es)
}

/// The Chat Completions request: the settings, every message, and the
/// tools as functions (left out when there are none).
pub fn openai_request(
    messages: &Vec<ChatMessage>,
    tools: &Vec<ToolDef>,
    model: &str,
    max_tokens: u32,
    temperature: JsonNumber,
    stream: bool,
) -> (r: JsonValue)
    ensures
        settings_are(r, model@, max_tokens, temperature, stream),
        member(r, "messages"@) matches Some(JsonValue::Array(items)) && messages_are(items@, all_parts(messages@)),
        tools@.len() > 0 ==> (member(r, "tools"@) matches Some(JsonValue::Array(items)) && openai_tools_are(
            items@,
            tools@,
        )),
        tools@.len() == 0 ==> member(r, "tools"@) is None,
{
    proof {
        reveal_strlit("model");
        reveal_strlit("max_tokens");
        reveal_strlit("temperature");
        reveal_strlit("stream");
        reveal_strlit("messages");
        reveal_strlit("tools");
        assert("model"@.len() == 5);
        assert("max_tokens"@.len() == 10);
        assert("temperature"@.len() == 11);
        assert("stream"@.len() == 6);
        assert("messages"@.len() == 8);
        assert("tools"@[0] != "model"@[0]);
    }
    let mut es = settings(model, max_tokens, temperature, stream);
    let (items, _systems) = split_messages(messages, false);
    push_field(&mut es, "messages", JsonValue::Array(items));
    if tools.len() > 0 {
        push_field(&mut es, "tools", JsonValue::Array(tool_entries(tools, true)));
    }
    JsonValue::Object(es)
}

} // verus!
