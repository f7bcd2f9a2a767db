//! Anthropic Messages API: classification of HTTP error responses and
//! the reading of its event stream.
use vstd::prelude::*;

use crate::error::ProviderError;
use crate::json::{json_parse_error, json_same, json_value, member, member_str, parse_json_text, JsonValue};
use crate::types::{ChatResponse, StreamChunk, ToolCall};
use crate::llm::{chunk_is, chunk_view, opt_step, to_chunk, truncate_body, truncated, ChunkView, StepView, StreamStep};
use crate::text::{concat2, push_str, str_eq};

verus! {

/// The provider error an HTTP failure status maps to, with its body cut
/// as [`truncate_body`] does: 401 and 403 are authentication failures,
/// 429 is a rate limit, anything else is a plain HTTP error.
pub fn classify_http_error(status: u16, body: String) -> (r: ProviderError)
    ensures
        match r {
            ProviderError::Auth { status: s, body: b } => (status == 401 || status == 403)
                && s == status && b@ == truncated(body@),
            ProviderError::RateLimited { status: s, body: b } => status == 429 && s == status
                && b@ == truncated(body@),
            ProviderError::Http { status: s, body: b } => status != 401 && status != 403 && status
                != 429 && s == status && b@ == truncated(body@),
            _ => false,
        },
{
    let body = truncate_body(body);
    if status == 401 || status == 403 {
        ProviderError::Auth { status, body }
    } else if status == 429 {
        ProviderError::RateLimited { status, body }
    } else {
        ProviderError::Http { status, body }
    }
}

/// What the Anthropic stream reader remembers between events: the tool
/// call being streamed (id, name, input text so far) and whether `Done`
/// was handed on.
#[derive(Debug)]
pub struct AnthropicStreamState {
    pub tool_id: String,
    pub tool_name: String,
    pub tool_input: String,
    pub done_sent: bool,
}

pub type AState = (Seq<char>, Seq<char>, Seq<char>, bool);

impl AnthropicStreamState {
    pub open spec fn view(self) -> AState {
        (self.tool_id@, self.tool_name@, self.tool_input@, self.done_sent)
    }

    /// The state before the first event.
    pub fn new() -> (r: Self)
        ensures
            r.view() == (Seq::<char>::empty(), Seq::<char>::empty(), Seq::<char>::empty(), false),
    {
        AnthropicStreamState {
            tool_id: String::new(),
            tool_name: String::new(),
            tool_input: String::new(),
            done_sent: false,
        }
    }
}

pub open spec fn or_empty(o: Option<Seq<char>>) -> Seq<char> {
    match o {
        Some(s) => s,
        None => Seq::<char>::empty(),
    }
}

/// `content_block_start`: a `tool_use` block opens a tool call, which
/// needs a non-empty id and name.
pub open spec fn block_start(s: AState, ev: JsonValue) -> Result<(AState, Option<StepView>), Seq<char>> {
    match member(ev, "content_block"@) {
        Some(b) => if member_str(b, "type"@) == Some("tool_use"@) {
            match member_str(b, "id"@) {
                None => Err("Anthropic SSE: tool_use missing id"@),
                Some(id) => match member_str(b, "name"@) {
                    None => Err("Anthropic SSE: tool_use missing name"@),
                    Some(name) => if id.len() == 0 || name.len() == 0 {
                        Err("Anthropic SSE: tool_use id or name empty"@)
                    } else {
                        Ok(((id, name, Seq::<char>::empty(), s.3), None))
                    },
                },
            }
        } else {
            Ok((s, None))
        },
        None => Ok((s, None)),
    }
}

/// `content_block_delta`: text is handed on, tool input is collected.
pub open spec fn block_delta(s: AState, ev: JsonValue) -> (AState, Option<StepView>) {
    match member(ev, "delta"@) {
        Some(d) => if member_str(d, "type"@) == Some("text_delta"@) {
            let t = or_empty(member_str(d, "text"@));
            if t.len() > 0 {
                (s, Some(StepView::Text(t)))
            } else {
                (s, None)
            }
        } else if member_str(d, "type"@) == Some("input_json_delta"@) {
            match member_str(d, "partial_json"@) {
                Some(p) => ((s.0, s.1, s.2 + p, s.3), None),
                None => (s, None),
            }
        } else {
            (s, None)
        },
        None => (s, None),
    }
}

/// The reader's answer to one event: the new state and what it hands on,
/// or the parse error that ends the stream.
pub open spec fn anthropic_next(s: AState, ev: JsonValue) -> Result<(AState, Option<StepView>), Seq<char>> {
    let t = member_str(ev, "type"@);
    if t == Some("content_block_start"@) {
        block_start(s, ev)
    } else if t == Some("content_block_delta"@) {
        Ok(block_delta(s, ev))
    } else if t == Some("content_block_stop"@) {
        if s.0.len() > 0 && s.1.len() > 0 {
            Ok(
                (
                    (Seq::<char>::empty(), Seq::<char>::empty(), Seq::<char>::empty(), s.3),
                    Some(StepView::ToolCall(s.0, s.1, s.2)),
                ),
            )
        } else {
            Ok((s, None))
        }
    } else if t == Some("message_stop"@) && !s.3 {
        Ok(((s.0, s.1, s.2, true), Some(StepView::Done)))
    } else {
        Ok((s, None))
    }
}

/// The reader's answer to the end of the stream: a tool call still open
/// is an error; `Done` is handed on unless it already was.
pub open spec fn anthropic_end(s: AState) -> Result<(AState, Option<StepView>), Seq<char>> {
    if s.0.len() > 0 || s.1.len() > 0 || s.2.len() > 0 {
        Err("Anthropic: incomplete tool_use at EOF"@)
    } else if !s.3 {
        Ok(((s.0, s.1, s.2, true), Some(StepView::Done)))
    } else {
        Ok((s, None))
    }
}

pub open spec fn step_outcome(
    spec_r: Result<(AState, Option<StepView>), Seq<char>>,
    before: AState,
    after: AState,
    r: Result<Option<StreamStep>, ProviderError>,
) -> bool {
    match spec_r {
        Ok((s2, out)) => after == s2 && (r matches Ok(o) && opt_step(o) == out),
        Err(msg) => after == before && (r matches Err(ProviderError::Parse(m)) && m@ == msg),
    }
}

fn parse_error(msg: &str) -> (r: ProviderError)
    ensures
        r matches ProviderError::Parse(m) && m@ == msg@,
{
    ProviderError::Parse(String::from_str(msg))
}

impl AnthropicStreamState {
    /// Reads one stream event (the event's data parsed as JSON).
    pub fn on_event(&mut self, ev: &JsonValue) -> (r: Result<Option<StreamStep>, ProviderError>)
        ensures
            step_outcome(anthropic_next(old(self).view(), *ev), old(self).view(), final(self).view(), r),
    {
        proof {
            reveal_strlit("Anthropic SSE: tool_use missing id");
            reveal_strlit("Anthropic SSE: tool_use missing name");
            reveal_strlit("Anthropic SSE: tool_use id or name empty");
        }
        let t = match ev.get("type") {
            Some(v) => match v.as_str() {
                Some(t) => t,
                None => "",
            },
            None => "",
        };
        proof {
            reveal_strlit("");
            reveal_strlit("content_block_start");
            reveal_strlit("content_block_delta");
            reveal_strlit("content_block_stop");
            reveal_strlit("message_stop");
            assert(""@.len() == 0);
            assert("content_block_start"@.len() == 19);
            assert("content_block_delta"@.len() == 19);
            assert("content_block_stop"@.len() == 18);
            assert("message_stop"@.len() == 12);
            assert("content_block_start"@[14] != "content_block_delta"@[14]);
        }
        if str_eq(t, "content_block_start") {
            let b = match ev.get("content_block") {
                Some(b) => b,
                None => return Ok(None),
            };
            let is_tool = match b.get("type") {
                Some(v) => match v.as_str() {
                    Some(k) => str_eq(k, "tool_use"),
                    None => false,
                },
                None => false,
            };
            if !is_tool {
                return Ok(None);
            }
            let id = match b.get("id") {
                Some(v) => match v.as_str() {
                    Some(x) => x,
                    None => return Err(parse_error("Anthropic SSE: tool_use missing id")),
                },
                None => return Err(parse_error("Anthropic SSE: tool_use missing id")),
            };
            let name = match b.get("name") {
                Some(v) => match v.as_str() {
                    Some(x) => x,
                    None => return Err(parse_error("Anthropic SSE: tool_use missing name")),
                },
                None => return Err(parse_error("Anthropic SSE: tool_use missing name")),
            };
            if id.is_empty() || name.is_empty() {
                return Err(parse_error("Anthropic SSE: tool_use id or name empty"));
            }
            self.tool_id = String::from_str(id);
            self.tool_name = String::from_str(name);
            self.tool_input = String::new();
            Ok(None)
        } else if str_eq(t, "content_block_delta") {
            let d = match ev.get("delta") {
                Some(d) => d,
                None => return Ok(None),
            };
            let kind = match d.get("type") {
                Some(v) => v.as_str(),
                None => None,
            };
            proof {
                reveal_strlit("text_delta");
                reveal_strlit("input_json_delta");
                assert("text_delta"@.len() == 10);
                assert("input_json_delta"@.len() == 16);
            }
            match kind {
                Some(k) => {
                    if str_eq(k, "text_delta") {
                        let text = match d.get("text") {
                            Some(v) => match v.as_str() {
                                Some(x) => x,
                                None => "",
                            },
                            None => "",
                        };
                        if text.is_empty() {
                            Ok(None)
                        } else {
                            Ok(Some(StreamStep::Text(String::from_str(text))))
                        }
                    } else if str_eq(k, "input_json_delta") {
                        match d.get("partial_json") {
                            Some(v) => match v.as_str() {
                                Some(p) => push_str(&mut self.tool_input, p),
                                None => {},
                            },
                            None => {},
                        }
                        Ok(None)
                    } else {
                        Ok(None)
                    }
                },
                None => Ok(None),
            }
        } else if str_eq(t, "content_block_stop") {
            if !self.tool_id.as_str().is_empty() && !self.tool_name.as_str().is_empty() {
                let id = self.tool_id.clone();
                let name = self.tool_name.clone();
                let raw_input = self.tool_input.clone();
                self.tool_id = String::new();
                self.tool_name = String::new();
                self.tool_input = String::new();
                Ok(Some(StreamStep::ToolCall { id, name, raw_input }))
            } else {
                Ok(None)
            }
        } else if str_eq(t, "message_stop") && !self.done_sent {
            self.done_sent = true;
            Ok(Some(StreamStep::Done))
        } else {
            Ok(None)
        }
    }

    /// Reads the end of the stream.
    pub fn on_end(&mut self) -> (r: Result<Option<StreamStep>, ProviderError>)
        ensures
            step_outcome(anthropic_end(old(self).view()), old(self).view(), final(self).view(), r),
    {
        if !self.tool_id.as_str().is_empty() || !self.tool_name.as_str().is_empty()
            || !self.tool_input.as_str().is_empty() {
            return Err(parse_error("Anthropic: incomplete tool_use at EOF"));
        }
        if !self.done_sent {
            self.done_sent = true;
            Ok(Some(StreamStep::Done))
        } else {
            Ok(None)
        }
    }
}

} // verus!

verus! {

/// A complete reply as characters: its text and its tool calls
/// `(id, name, input)`.
pub type Reply = (Seq<char>, Seq<(Seq<char>, Seq<char>, JsonValue)>);

/// One content block of a complete reply, added to what the blocks before
/// it gave.
pub open spec fn content_block(acc: Reply, b: JsonValue) -> Result<Reply, Seq<char>> {
    if member_str(b, "type"@) == Some("text"@) {
        match member_str(b, "text"@) {
            Some(t) => Ok((acc.0 + t, acc.1)),
            None => Err("Anthropic: text block missing 'text' field"@),
        }
    } else if member_str(b, "type"@) == Some("tool_use"@) {
        let id = or_empty(member_str(b, "id"@));
        let name = or_empty(member_str(b, "name"@));
        if id.len() == 0 || name.len() == 0 {
            Err("Anthropic: tool_use missing id or name"@)
        } else {
            match member(b, "input"@) {
                Some(v) => Ok((acc.0, acc.1.push((id, name, v)))),
                None => Err("Anthropic: tool_use missing 'input' field"@),
            }
        }
    } else {
        Ok(acc)
    }
}

/// The content blocks in order; the first bad block decides the error.
pub open spec fn content_blocks(bs: Seq<JsonValue>) -> Result<Reply, Seq<char>>
    decreases bs.len(),
{
    if bs.len() == 0 {
        Ok((Seq::<char>::empty(), Seq::<(Seq<char>, Seq<char>, JsonValue)>::empty()))
    } else {
        match content_blocks(bs.drop_last()) {
            Ok(acc) => content_block(acc, bs.last()),
            Err(e) => Err(e),
        }
    }
}

/// Once a prefix of the blocks fails, every longer prefix fails the same
/// way.
proof fn lemma_blocks_err(bs: Seq<JsonValue>, k: int)
    requires
        0 <= k <= bs.len(),
        content_blocks(bs.subrange(0, k)) is Err,
    ensures
        content_blocks(bs) == content_blocks(bs.subrange(0, k)),
    decreases bs.len() - k,
{
    if k < bs.len() {
        assert(bs.subrange(0, k + 1).drop_last() =~= bs.subrange(0, k));
        lemma_blocks_err(bs, k + 1);
    } else {
        assert(bs.subrange(0, k) =~= bs);
    }
}

/// A complete Messages API reply: the text blocks joined, the `tool_use`
/// blocks as calls, other blocks ignored.
pub open spec fn chat_reply(json: JsonValue) -> Result<Reply, Seq<char>> {
    match member(json, "content"@) {
        Some(JsonValue::Array(bs)) => content_blocks(bs@),
        _ => Err("Anthropic: missing 'content' array"@),
    }
}

/// A response carries the reply: same text, same calls, inputs with the
/// same content.
pub open spec fn carries_reply(r: ChatResponse, s: Reply) -> bool {
    &&& r.content@ == s.0
    &&& r.tool_calls@.len() == s.1.len()
    &&& forall|i: int|
        0 <= i < s.1.len() ==> (#[trigger] r.tool_calls@[i]).id@ == s.1[i].0 && r.tool_calls@[i].name@
            == s.1[i].1 && json_same(s.1[i].2, r.tool_calls@[i].input)
}

/// Reads a complete (non-streamed) Messages API reply.
pub fn parse_chat_response(json: &JsonValue) -> (r: Result<ChatResponse, ProviderError>)
    ensures
        match chat_reply(*json) {
            Ok(s) => r matches Ok(resp) && carries_reply(resp, s),
            Err(m) => r matches Err(ProviderError::Parse(pm)) && pm@ == m,
        },
{
    proof {
        reveal_strlit("Anthropic: missing 'content' array");
    }
    let blocks = match json.get("content") {
        Some(JsonValue::Array(bs)) => bs,
        _ => {
            return Err(ProviderError::Parse(String::from_str("Anthropic: missing 'content' array")));
        },
    };
    let mut text = String::new();
    let mut calls: Vec<ToolCall> = Vec::new();
    let mut i: usize = 0;
    assert(blocks@.subrange(0, 0) =~= Seq::<JsonValue>::empty());
    while i < blocks.len()
        invariant
            i <= blocks@.len(),
            member(*json, "content"@) == Some(JsonValue::Array(*blocks)),
            content_blocks(blocks@.subrange(0, i as int)) matches Ok(acc) && carries_reply(
                ChatResponse { content: text, tool_calls: calls },
                acc,
            ),
        decreases blocks@.len() - i,
    {
        let ghost pre = blocks@.subrange(0, i as int);
        let ghost acc = content_blocks(pre)->Ok_0;
        let b = &blocks[i];
        proof {
            assert(blocks@.subrange(0, i + 1).drop_last() =~= pre);
            assert(blocks@.subrange(0, i + 1).last() == *b);
            reveal_strlit("text");
            reveal_strlit("tool_use");
            reveal_strlit("Anthropic: text block missing 'text' field");
            reveal_strlit("Anthropic: tool_use missing id or name");
            reveal_strlit("Anthropic: tool_use missing 'input' field");
        }
        let kind = match b.get("type") {
            Some(t) => t.as_str(),
            None => None,
        };
        let is_text = match kind {
            Some(k) => str_eq(k, "text"),
            None => false,
        };
        let is_tool = match kind {
            Some(k) => str_eq(k, "tool_use"),
            None => false,
        };
        if is_text {
            match b.get("text") {
                Some(tv) => match tv.as_str() {
                    Some(t) => push_str(&mut text, t),
                    None => {
                        proof { lemma_blocks_err(blocks@, i + 1); }
                        return Err(ProviderError::Parse(String::from_str("Anthropic: text block missing 'text' field")));
                    },
                },
                None => {
                    proof { lemma_blocks_err(blocks@, i + 1); }
                        return Err(ProviderError::Parse(String::from_str("Anthropic: text block missing 'text' field")));
                },
            }
        } else if is_tool {
            let id = match b.get("id") {
                Some(v) => match v.as_str() {
                    Some(s) => s,
                    None => "",
                },
                None => "",
            };
            let name = match b.get("name") {
                Some(v) => match v.as_str() {
                    Some(s) => s,
                    None => "",
                },
                None => "",
            };
            proof {
                reveal_strlit("");
            }
            if id.is_empty() || name.is_empty() {
                proof { lemma_blocks_err(blocks@, i + 1); }
                        return Err(ProviderError::Parse(String::from_str("Anthropic: tool_use missing id or name")));
            }
            match b.get("input") {
                Some(v) => {
                    let input = v.duplicate();
                    calls.push(ToolCall { id: String::from_str(id), name: String::from_str(name), input });
                },
                None => {
                    proof { lemma_blocks_err(blocks@, i + 1); }
                        return Err(ProviderError::Parse(String::from_str("Anthropic: tool_use missing 'input' field")));
                },
            }
        }
        i = i + 1;
    }
    assert(blocks@.subrange(0, blocks@.len() as int) =~= blocks@);
    Ok(ChatResponse { content: text, tool_calls: calls })
}


/// A read event's outcome as a chunk or an error message (an empty
/// message for an outcome that is neither).
pub open spec fn chunk_or_error(r: Result<Option<StreamChunk>, ProviderError>) -> Result<ChunkView, Seq<char>> {
    match r {
        Ok(Some(x)) => Ok(chunk_view(x)),
        Err(ProviderError::Parse(m)) => Err(m@),
        _ => Err(Seq::<char>::empty()),
    }
}

impl AnthropicStreamState {
    /// Reads one event's data: the data as JSON (`Anthropic SSE JSON: …`
    /// when it is not), the event applied, and the input of a finished tool
    /// call read as JSON (`tool input JSON: …` when it is not).
    pub fn on_data(&mut self, data: &str) -> (r: Result<Option<StreamChunk>, ProviderError>)
        ensures
            match json_parse_error(data@) {
                Some(e) => (r matches Err(ProviderError::Parse(m)) && m@ == "Anthropic SSE JSON: "@ + e)
                    && final(self).view() == old(self).view(),
                None => exists|v: JsonValue|
                    #[trigger] json_value(data@, v) && match anthropic_next(old(self).view(), v) {
                        Err(msg) => (r matches Err(ProviderError::Parse(m)) && m@ == msg)
                            && final(self).view() == old(self).view(),
                        Ok((s2, out)) => final(self).view() == s2 && match out {
                            None => r matches Ok(None),
                            Some(step) => chunk_is(step, "tool input JSON: "@, chunk_or_error(r)),
                        },
                    },
            },
    {
        let v = match parse_json_text(data) {
            Ok(v) => v,
            Err(e) => {
                return Err(ProviderError::Parse(concat2("Anthropic SSE JSON: ", e.as_str())));
            },
        };
        let r = match self.on_event(&v) {
            Err(e) => Err(e),
            Ok(None) => Ok(None),
            Ok(Some(step)) => match to_chunk(step, "tool input JSON: ") {
                Ok(c) => Ok(Some(c)),
                Err(e) => Err(e),
            },
        };
        assert(json_value(data@, v));
        r
    }

    /// The end of the stream, as a chunk: `Done` unless it was handed on.
    pub fn finish(&mut self) -> (r: Result<Option<StreamChunk>, ProviderError>)
        ensures
            match anthropic_end(old(self).view()) {
                Err(msg) => (r matches Err(ProviderError::Parse(m)) && m@ == msg) && final(self).view()
                    == old(self).view(),
                Ok((s2, out)) => final(self).view() == s2 && match out {
                    Some(_) => r matches Ok(Some(StreamChunk::Done)),
                    None => r matches Ok(None),
                },
            },
    {
        match self.on_end() {
            Err(e) => Err(e),
            Ok(None) => Ok(None),
            Ok(Some(_)) => Ok(Some(StreamChunk::Done)),
        }
    }
}

} // verus!
