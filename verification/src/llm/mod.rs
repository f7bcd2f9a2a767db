//! Language-model provider support: credentials, error-body truncation,
//! HTTP error classification and stream decoding.
use vstd::prelude::*;
use vstd::utf8::*;
use vstd::string::StringSliceAdditionalSpecFns;

use crate::error::ProviderError;
use crate::json::{json_parse_error, json_value, parse_json_text, JsonValue};
use crate::text::{concat2, push_str};
use crate::types::StreamChunk;

pub mod anthropic;
pub mod openai_compat;
pub mod request;
pub mod router;
pub mod sse;

verus! {

/// A credential whose rendered forms never show the secret.
pub struct ApiKey(String);

impl Clone for ApiKey {
    /// A key holding the same secret.
    fn clone(&self) -> (r: Self)
        ensures
            r.secret() == self.secret(),
    {
        ApiKey(self.0.clone())
    }
}

impl ApiKey {
    /// The secret this key holds.
    pub closed spec fn secret(&self) -> Seq<char> {
        self.0@
    }

    pub fn new(key: &str) -> (r: Self)
        ensures
            r.secret() == key@,
    {
        ApiKey(String::from_str(key))
    }

    /// The secret, for placing in a request header.
    pub fn expose(&self) -> (r: &str)
        ensures
            r@ == self.secret(),
    {
        self.0.as_str()
    }

    /// The `Debug` rendering: `ApiKey(***)`, whatever the secret.
    pub fn debug_text(&self) -> (r: &'static str)
        ensures
            r@ == "ApiKey(***)"@,
    {
        "ApiKey(***)"
    }

    /// The `Display` rendering: `***`, whatever the secret.
    pub fn display_text(&self) -> (r: &'static str)
        ensures
            r@ == "***"@,
    {
        "***"
    }
}

impl From<String> for ApiKey {
    fn from(s: String) -> (r: Self)
        ensures
            r.secret() == s@,
    {
        ApiKey(s)
    }
}

/// A key made from a string holds that string as its secret.
pub proof fn lemma_from_keeps_secret(s: String)
    ensures
        <ApiKey as vstd::std_specs::convert::FromSpec<String>>::from_spec(s).secret() == s@,
{
}

impl vstd::std_specs::convert::FromSpecImpl<String> for ApiKey {
    open spec fn obeys_from_spec() -> bool {
        true
    }

    closed spec fn from_spec(v: String) -> Self {
        ApiKey(v)
    }
}

/// Error response bodies are cut to at most this many bytes.
pub const MAX_ERROR_BODY: usize = 8192;

/// The UTF-8 bytes of a string.
pub open spec fn bytes_of(s: Seq<char>) -> Seq<u8> {
    encode_utf8(s)
}

/// The largest character boundary of `bytes` that is at most `k`.
pub open spec fn floor_boundary(bytes: Seq<u8>, k: int) -> int
    decreases k,
{
    if k <= 0 {
        0
    } else if is_char_boundary(bytes, k) {
        k
    } else {
        floor_boundary(bytes, k - 1)
    }
}

/// The body as it is kept: unchanged when short enough, otherwise cut at
/// the last character boundary within the limit and marked as truncated.
pub open spec fn truncated(s: Seq<char>) -> Seq<char> {
    let b = bytes_of(s);
    if b.len() > MAX_ERROR_BODY {
        decode_utf8(b.subrange(0, floor_boundary(b, MAX_ERROR_BODY as int))) + "...<truncated>"@
    } else {
        s
    }
}

proof fn lemma_floor_boundary(bytes: Seq<u8>, k: int)
    requires
        valid_utf8(bytes),
        0 <= k <= bytes.len(),
    ensures
        0 <= floor_boundary(bytes, k) <= k,
        is_char_boundary(bytes, floor_boundary(bytes, k)),
    decreases k,
{
    broadcast use is_char_boundary_start_end_of_seq;
    if k > 0 && !is_char_boundary(bytes, k) {
        lemma_floor_boundary(bytes, k - 1);
    }
}

/// Cuts an error body to [`MAX_ERROR_BODY`] bytes without splitting a
/// character, appending `...<truncated>` when anything was cut.
pub fn truncate_body(body: String) -> (r: String)
    ensures
        r@ == truncated(body@),
{
    let s = body.as_str();
    proof {
        broadcast use encode_utf8_valid_utf8, encode_utf8_decode_utf8;
        assert(s.spec_bytes() == bytes_of(body@));
    }
    let nbytes = s.as_bytes().len();
    if nbytes > MAX_ERROR_BODY {
        let mut end: usize = MAX_ERROR_BODY;
        while end > 0 && !s.is_char_boundary(end)
            invariant
                end <= MAX_ERROR_BODY,
                MAX_ERROR_BODY < s.spec_bytes().len(),
                valid_utf8(s.spec_bytes()),
                floor_boundary(s.spec_bytes(), end as int) == floor_boundary(
                    s.spec_bytes(),
                    MAX_ERROR_BODY as int,
                ),
            decreases end,
        {
            end = end - 1;
        }
        proof {
            broadcast use is_char_boundary_start_end_of_seq;
            assert(floor_boundary(s.spec_bytes(), end as int) == end);
        }
        let ghost bytes = s.spec_bytes();
        let (head, _) = s.split_at(end);
        let mut t = String::from_str(head);
        push_str(&mut t, "...<truncated>");
        proof {
            broadcast use encode_utf8_decode_utf8;
            assert(head@ == decode_utf8(encode_utf8(head@)));
            assert(head.spec_bytes() == bytes.subrange(0, end as int));
            assert(head@ == decode_utf8(bytes.subrange(0, end as int)));
            assert(t@ == head@ + "...<truncated>"@);
            assert(bytes == bytes_of(body@));
            assert(floor_boundary(bytes, MAX_ERROR_BODY as int) == end);
            assert(bytes.len() > MAX_ERROR_BODY);
            assert(t@ == truncated(body@));
        }
        t
    } else {
        assert(body@ == truncated(body@));
        body
    }
}

/// One thing a provider stream hands to its consumer.  A tool call
/// carries its input as the raw JSON text the model streamed; reading it
/// as a value is left to the consumer.
#[derive(Debug, Clone)]
pub enum StreamStep {
    Text(String),
    ToolCall { id: String, name: String, raw_input: String },
    Done,
}

/// A stream step as characters.
pub enum StepView {
    Text(Seq<char>),
    ToolCall(Seq<char>, Seq<char>, Seq<char>),
    Done,
}

impl StreamStep {
    pub open spec fn view(self) -> StepView {
        match self {
            StreamStep::Text(t) => StepView::Text(t@),
            StreamStep::ToolCall { id, name, raw_input } => StepView::ToolCall(id@, name@, raw_input@),
            StreamStep::Done => StepView::Done,
        }
    }
}

pub open spec fn opt_step(o: Option<StreamStep>) -> Option<StepView> {
    match o {
        Some(s) => Some(s.view()),
        None => None,
    }
}


/// A stream chunk as characters and values.
pub enum ChunkView {
    Text(Seq<char>),
    ToolCall(Seq<char>, Seq<char>, JsonValue),
    Done,
}

pub open spec fn chunk_view(c: StreamChunk) -> ChunkView {
    match c {
        StreamChunk::Text { content } => ChunkView::Text(content@),
        StreamChunk::ToolCall { id, name, input } => ChunkView::ToolCall(id@, name@, input),
        StreamChunk::Done => ChunkView::Done,
    }
}

/// Whether `r` is a step handed on as a chunk: a tool call's input text
/// read as JSON (a value the text reads as); when it is not JSON, the
/// error is `prefix` and serde_json's message.
pub open spec fn chunk_is(step: StepView, prefix: Seq<char>, r: Result<ChunkView, Seq<char>>) -> bool {
    match step {
        StepView::Text(t) => r == Ok::<ChunkView, Seq<char>>(ChunkView::Text(t)),
        StepView::ToolCall(id, name, raw) => match json_parse_error(raw) {
            Some(e) => r == Err::<ChunkView, Seq<char>>(prefix + e),
            None => r matches Ok(ChunkView::ToolCall(i, n, v)) && i == id && n == name && json_value(raw, v),
        },
        StepView::Done => r == Ok::<ChunkView, Seq<char>>(ChunkView::Done),
    }
}

/// Whether a step's chunk fails.
pub open spec fn chunk_fails(step: StepView) -> bool {
    step matches StepView::ToolCall(_, _, raw) && json_parse_error(raw) is Some
}

pub open spec fn chunk_result(r: Result<StreamChunk, ProviderError>) -> Result<ChunkView, Seq<char>> {
    match r {
        Ok(c) => Ok(chunk_view(c)),
        Err(ProviderError::Parse(m)) => Err(m@),
        Err(_) => Err(Seq::<char>::empty()),
    }
}

/// Hands a step on as a chunk.
pub fn to_chunk(step: StreamStep, prefix: &str) -> (r: Result<StreamChunk, ProviderError>)
    ensures
        chunk_is(step.view(), prefix@, chunk_result(r)),
        r is Err ==> r matches Err(ProviderError::Parse(_)),
        (r is Err) == chunk_fails(step.view()),
{
    match step {
        StreamStep::Text(t) => Ok(StreamChunk::Text { content: t }),
        StreamStep::ToolCall { id, name, raw_input } => match parse_json_text(raw_input.as_str()) {
            Ok(input) => Ok(StreamChunk::ToolCall { id, name, input }),
            Err(e) => Err(ProviderError::Parse(concat2(prefix, e.as_str()))),
        },
        StreamStep::Done => Ok(StreamChunk::Done),
    }
}

/// Whether `cs` and `err` are the steps handed on as chunks, in order, up
/// to the first that fails: every chunk for its step, and then either
/// every step handed on, or the error of the first step that failed.
pub open spec fn chunks_are(steps: Seq<StepView>, prefix: Seq<char>, cs: Seq<ChunkView>, err: Option<Seq<char>>) -> bool {
    &&& cs.len() <= steps.len()
    &&& forall|i: int| 0 <= i < cs.len() ==> chunk_is(#[trigger] steps[i], prefix, Ok(cs[i]))
    &&& match err {
        None => cs.len() == steps.len(),
        Some(m) => cs.len() < steps.len() && chunk_is(steps[cs.len() as int], prefix, Err(m)),
    }
}

pub open spec fn chunk_views(v: Seq<StreamChunk>) -> Seq<ChunkView> {
    v.map_values(|c: StreamChunk| chunk_view(c))
}

pub open spec fn step_views(v: Seq<StreamStep>) -> Seq<StepView> {
    v.map_values(|s: StreamStep| s.view())
}

/// A provider error as its parse message (`None` for none).
pub open spec fn parse_msg(e: Option<ProviderError>) -> Option<Seq<char>> {
    match e {
        None => None,
        Some(ProviderError::Parse(m)) => Some(m@),
        Some(_) => Some(Seq::<char>::empty()),
    }
}

/// Hands steps on as chunks until one fails.
pub fn to_chunks(steps: Vec<StreamStep>, prefix: &str) -> (r: (Vec<StreamChunk>, Option<ProviderError>))
    ensures
        chunks_are(step_views(steps@), prefix@, chunk_views(r.0@), parse_msg(r.1)),
        r.1 matches Some(e) ==> e matches ProviderError::Parse(_),
{
    let ghost sv = step_views(steps@);
    let mut pending = steps;
    let mut out: Vec<StreamChunk> = Vec::new();
    let mut i: usize = 0;
    let n = pending.len();
    let mut rest: Vec<StreamStep> = Vec::new();
    // take the steps out front to back
    while pending.len() > 0
        invariant
            rest@.len() + pending@.len() == n,
            sv == step_views(rest@) + step_views(pending@),
        decreases pending@.len(),
    {
        let ghost before_rest = rest@;
        let ghost before_steps = pending@;
        let x = pending.remove(0);
        rest.push(x);
        proof {
            assert(step_views(rest@) =~= step_views(before_rest).push(x.view()));
            assert(step_views(before_steps) =~= seq![x.view()] + step_views(pending@));
            assert(sv =~= step_views(rest@) + step_views(pending@));
        }
    }
    assert(sv =~= step_views(rest@));
    let mut rest = rest;
    while rest.len() > 0
        invariant
            i + rest@.len() == n,
            n == sv.len(),
            sv == step_views(steps@),
            step_views(rest@) =~= sv.subrange(i as int, n as int),
            chunk_views(out@).len() == i,
            forall|j: int| 0 <= j < i ==> chunk_is(#[trigger] sv[j], prefix@, Ok(chunk_views(out@)[j])),
        decreases rest@.len(),
    {
        let ghost before = rest@;
        let x = rest.remove(0);
        proof {
            assert(step_views(before)[0] == x.view());
            assert(sv[i as int] == sv.subrange(i as int, n as int)[0]);
            assert(sv[i as int] == x.view());
            assert(rest@ =~= before.subrange(1, before.len() as int));
            assert forall|j: int| 0 <= j < rest@.len() implies #[trigger] step_views(rest@)[j] == sv.subrange(i + 1, n as int)[j] by {
                assert(rest@[j] == before[j + 1]);
                assert(step_views(before)[j + 1] == sv.subrange(i as int, n as int)[j + 1]);
            }
            assert(step_views(rest@) =~= sv.subrange(i + 1, n as int));
        }
        match to_chunk(x, prefix) {
            Ok(c) => {
                let ghost old_out = out@;
                out.push(c);
                proof {
                    assert(chunk_views(out@) =~= chunk_views(old_out).push(chunk_view(c)));
                    assert forall|j: int| 0 <= j < i + 1 implies chunk_is(#[trigger] sv[j], prefix@, Ok(chunk_views(out@)[j])) by {
                        if j < i {
                            assert(chunk_views(out@)[j] == chunk_views(old_out)[j]);
                        }
                    }
                }
            },
            Err(e) => {
                return (out, Some(e));
            },
        }
        i = i + 1;
    }
    (out, None)
}

} // verus!
