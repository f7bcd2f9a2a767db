//! OpenAI-compatible Chat Completions API: reading its event stream.
//!
//! Text deltas are handed on as they come; tool calls arrive in pieces,
//! keyed by their `index`, and are handed on whole when a chunk finishes
//! with `tool_calls` or `stop`.
use vstd::prelude::*;

use crate::error::ProviderError;
use crate::json::{json_parse_error, json_value, member, member_str, parse_json_text, str_of, JsonNumber, JsonValue};
use crate::types::{ChatResponse, StreamChunk, ToolCall};
use crate::llm::anthropic::or_empty;
use crate::llm::{chunk_views, chunks_are, parse_msg, to_chunks, ChunkView, StepView, StreamStep};
use crate::text::{concat2, concat3, push_str, str_eq};

verus! {

/// A tool call being streamed: its index, id, name and argument text so far.
#[derive(Debug)]
pub struct PartialToolCall {
    pub index: u32,
    pub id: String,
    pub name: String,
    pub arguments: String,
}

/// What the OpenAI stream reader remembers between events: the tool calls
/// being streamed, in the order their index first appeared, and whether
/// `Done` was handed on.
#[derive(Debug)]
pub struct OpenAiStreamState {
    pub calls: Vec<PartialToolCall>,
    pub done_sent: bool,
}

pub type Part = (u32, Seq<char>, Seq<char>, Seq<char>);

pub type OState = (Seq<Part>, bool);

pub open spec fn part_view(p: PartialToolCall) -> Part {
    (p.index, p.id@, p.name@, p.arguments@)
}

impl OpenAiStreamState {
    pub open spec fn view(self) -> OState {
        (self.calls@.map_values(|p: PartialToolCall| part_view(p)), self.done_sent)
    }

    /// The state before the first event.
    pub fn new() -> (r: Self)
        ensures
            r.view() == (Seq::<Part>::empty(), false),
    {
        let r = OpenAiStreamState { calls: Vec::new(), done_sent: false };
        assert(r.view().0 =~= Seq::<Part>::empty());
        r
    }
}

/// The index a tool-call piece names (`0` when it names none), cut to 32
/// bits.
pub open spec fn tc_index(tc: JsonValue) -> u32 {
    match member(tc, "index"@) {
        Some(JsonValue::Number(JsonNumber::PosInt(k))) => k as u32,
        _ => 0,
    }
}

pub open spec fn fn_member(tc: JsonValue, k: Seq<char>) -> Option<Seq<char>> {
    match member(tc, "function"@) {
        Some(f) => member_str(f, k),
        None => None,
    }
}

/// The first position of the call with index `i`.
pub open spec fn find(parts: Seq<Part>, i: u32) -> Option<int>
    decreases parts.len(),
{
    if parts.len() == 0 {
        None
    } else {
        match find(parts.drop_last(), i) {
            Some(p) => Some(p),
            None => if parts.last().0 == i {
                Some(parts.len() - 1)
            } else {
                None
            },
        }
    }
}

/// A call updated by one piece: a new id or name replaces the old one,
/// argument text is appended.
pub open spec fn updated(e: Part, tc: JsonValue) -> Part {
    (
        e.0,
        match member_str(tc, "id"@) {
            Some(v) => v,
            None => e.1,
        },
        match fn_member(tc, "name"@) {
            Some(v) => v,
            None => e.2,
        },
        e.3 + or_empty(fn_member(tc, "arguments"@)),
    )
}

pub open spec fn apply_tc(parts: Seq<Part>, tc: JsonValue) -> Seq<Part> {
    let i = tc_index(tc);
    match find(parts, i) {
        Some(p) => parts.update(p, updated(parts[p], tc)),
        None => parts.push(updated((i, Seq::<char>::empty(), Seq::<char>::empty(), Seq::<char>::empty()), tc)),
    }
}

/// A piece's index is its `index` member whenever that is a whole number
/// that fits in 32 bits.
pub proof fn lemma_piece_index_is_its_index(tc: JsonValue, k: u64)
    requires
        member(tc, "index"@) == Some(JsonValue::Number(JsonNumber::PosInt(k))),
        k <= u32::MAX,
    ensures
        tc_index(tc) == k,
{
}

proof fn lemma_find(parts: Seq<Part>, i: u32)
    ensures
        find(parts, i) matches Some(p) ==> 0 <= p < parts.len() && parts[p].0 == i,
        find(parts, i) is None ==> forall|j: int| 0 <= j < parts.len() ==> (#[trigger] parts[j]).0 != i,
    decreases parts.len(),
{
    if parts.len() > 0 {
        lemma_find(parts.drop_last(), i);
        assert forall|j: int| 0 <= j < parts.len() - 1 implies #[trigger] parts[j] == parts.drop_last()[j] by {}
    }
}

/// Tool-call pieces are grouped by their index: a piece changes only the
/// call that has its index, or adds a new call with that index when there
/// is none; the calls of every other index stay as they were, and no
/// call changes its index.
pub proof fn lemma_pieces_grouped_by_index(parts: Seq<Part>, tc: JsonValue)
    ensures
        ({
            let r = apply_tc(parts, tc);
            &&& parts.len() <= r.len() <= parts.len() + 1
            &&& forall|j: int| 0 <= j < parts.len() ==> (#[trigger] r[j]).0 == parts[j].0
            &&& forall|j: int|
                0 <= j < parts.len() && parts[j].0 != tc_index(tc) ==> #[trigger] r[j] == parts[j]
            &&& exists|j: int| 0 <= j < r.len() && (#[trigger] r[j]).0 == tc_index(tc)
            &&& r.len() == parts.len() + 1 ==> forall|j: int|
                0 <= j < parts.len() ==> (#[trigger] parts[j]).0 != tc_index(tc)
        }),
{
    let i = tc_index(tc);
    lemma_find(parts, i);
    let r = apply_tc(parts, tc);
    match find(parts, i) {
        Some(p) => {
            assert(r[p].0 == i);
        },
        None => {
            assert(r[parts.len() as int].0 == i);
        },
    }
}

/// The calls after the pieces of one chunk.
pub open spec fn apply_all(parts: Seq<Part>, items: Seq<JsonValue>) -> Seq<Part>
    decreases items.len(),
{
    if items.len() == 0 {
        parts
    } else {
        apply_tc(apply_all(parts, items.drop_last()), items.last())
    }
}

pub open spec fn incomplete(p: Part) -> bool {
    p.1.len() == 0 || p.2.len() == 0
}

/// The first call that lacks an id or a name.
pub open spec fn first_incomplete(parts: Seq<Part>) -> Option<int>
    decreases parts.len(),
{
    if parts.len() == 0 {
        None
    } else {
        match first_incomplete(parts.drop_last()) {
            Some(k) => Some(k),
            None => if incomplete(parts.last()) {
                Some(parts.len() - 1)
            } else {
                None
            },
        }
    }
}

pub open spec fn call_steps(parts: Seq<Part>) -> Seq<StepView> {
    parts.map_values(|p: Part| StepView::ToolCall(p.1, p.2, p.3))
}

pub open spec fn known_finish(f: Seq<char>) -> bool {
    f == "stop"@ || f == "tool_calls"@ || f == "length"@ || f == "content_filter"@
}

/// The reader's answer to one JSON event: what it hands on, the new
/// state, and the parse error that ends the stream, if any.
pub open spec fn openai_next(s: OState, ev: JsonValue) -> (Seq<StepView>, OState, Option<Seq<char>>) {
    match member(ev, "choices"@) {
        Some(JsonValue::Array(cs)) => if cs@.len() == 0 {
            (seq![], s, Some("OpenAI SSE: empty 'choices' array"@))
        } else if !(cs@[0] is Object) {
            (seq![], s, Some("OpenAI SSE: choices[0] is not an object"@))
        } else {
            let c = cs@[0];
            let fin = or_empty(member_str(c, "finish_reason"@));
            match member(c, "delta"@) {
                None => if fin.len() == 0 {
                    (seq![], s, Some("OpenAI SSE: missing 'delta' without finish_reason"@))
                } else if !known_finish(fin) {
                    (
                        seq![],
                        s,
                        Some(
                            "OpenAI SSE: missing 'delta' with unrecognised finish_reason '"@ + fin
                                + "'"@,
                        ),
                    )
                } else {
                    (seq![], s, None)
                },
                Some(d) => {
                    let text = match member_str(d, "content"@) {
                        Some(t) => if t.len() > 0 {
                            seq![StepView::Text(t)]
                        } else {
                            seq![]
                        },
                        None => seq![],
                    };
                    let parts = match member(d, "tool_calls"@) {
                        Some(JsonValue::Array(items)) => apply_all(s.0, items@),
                        _ => s.0,
                    };
                    if fin == "tool_calls"@ || fin == "stop"@ {
                        match first_incomplete(parts) {
                            Some(k) => (
                                text + call_steps(parts.take(k)),
                                (parts, s.1),
                                Some("OpenAI: streaming tool_call incomplete at finish"@),
                            ),
                            None => (
                                text + call_steps(parts) + if s.1 {
                                    seq![]
                                } else {
                                    seq![StepView::Done]
                                },
                                (seq![], true),
                                None,
                            ),
                        }
                    } else {
                        (text, (parts, s.1), None)
                    }
                },
            }
        },
        _ => (seq![], s, Some("OpenAI SSE: missing or invalid 'choices' array"@)),
    }
}

/// Whether an event's data is the end-of-stream marker.
pub fn is_done_marker(data: &str) -> (r: bool)
    ensures
        r == (data@ == "[DONE]"@),
{
    str_eq(data, "[DONE]")
}

pub open spec fn views_of(v: Seq<StreamStep>) -> Seq<StepView> {
    v.map_values(|s: StreamStep| s.view())
}

pub open spec fn err_is(r: Result<(), ProviderError>, e: Option<Seq<char>>) -> bool {
    match e {
        None => r is Ok,
        Some(msg) => r matches Err(ProviderError::Parse(m)) && m@ == msg,
    }
}

fn parse_error(msg: &str) -> (r: Result<(), ProviderError>)
    ensures
        err_is(r, Some(msg@)),
{
    Err(ProviderError::Parse(String::from_str(msg)))
}

proof fn lemma_find_found(parts: Seq<Part>, i: u32, p: int)
    requires
        0 <= p < parts.len(),
        parts[p].0 == i,
        forall|j: int| 0 <= j < p ==> #[trigger] parts[j].0 != i,
    ensures
        find(parts, i) == Some(p),
    decreases parts.len(),
{
    if p < parts.len() - 1 {
        let q = parts.drop_last();
        assert forall|j: int| 0 <= j < p implies #[trigger] q[j].0 != i by {
            assert(q[j] == parts[j]);
        }
        lemma_find_found(q, i, p);
    } else {
        lemma_find_absent(parts.drop_last(), i);
    }
}

proof fn lemma_find_absent(parts: Seq<Part>, i: u32)
    requires
        forall|j: int| 0 <= j < parts.len() ==> #[trigger] parts[j].0 != i,
    ensures
        find(parts, i) is None,
    decreases parts.len(),
{
    if parts.len() > 0 {
        let q = parts.drop_last();
        assert forall|j: int| 0 <= j < q.len() implies #[trigger] q[j].0 != i by {
            assert(q[j] == parts[j]);
        }
        lemma_find_absent(q, i);
    }
}

proof fn lemma_first_incomplete_none(parts: Seq<Part>)
    requires
        forall|j: int| 0 <= j < parts.len() ==> !incomplete(#[trigger] parts[j]),
    ensures
        first_incomplete(parts) is None,
    decreases parts.len(),
{
    if parts.len() > 0 {
        let q = parts.drop_last();
        assert forall|j: int| 0 <= j < q.len() implies !incomplete(#[trigger] q[j]) by {
            assert(q[j] == parts[j]);
        }
        lemma_first_incomplete_none(q);
    }
}

proof fn lemma_first_incomplete_at(parts: Seq<Part>, k: int)
    requires
        0 <= k < parts.len(),
        incomplete(parts[k]),
        forall|j: int| 0 <= j < k ==> !incomplete(#[trigger] parts[j]),
    ensures
        first_incomplete(parts) == Some(k),
    decreases parts.len(),
{
    if k < parts.len() - 1 {
        let q = parts.drop_last();
        assert forall|j: int| 0 <= j < k implies !incomplete(#[trigger] q[j]) by {
            assert(q[j] == parts[j]);
        }
        lemma_first_incomplete_at(q, k);
    } else {
        let q = parts.drop_last();
        assert forall|j: int| 0 <= j < q.len() implies !incomplete(#[trigger] q[j]) by {
            assert(q[j] == parts[j]);
        }
        lemma_first_incomplete_none(q);
    }
}

fn piece_index(tc: &JsonValue) -> (r: u32)
    ensures
        r == tc_index(*tc),
{
    match tc.get("index") {
        Some(v) => match v.as_number() {
            Some(JsonNumber::PosInt(k)) => {
                #[verifier::truncate]
                (k as u32)
            },
            _ => 0,
        },
        None => 0,
    }
}

fn function_member<'a>(tc: &'a JsonValue, k: &str) -> (r: Option<&'a str>)
    ensures
        match fn_member(*tc, k@) {
            Some(v) => r matches Some(x) && x@ == v,
            None => r is None,
        },
{
    match tc.get("function") {
        Some(f) => match f.get(k) {
            Some(v) => v.as_str(),
            None => None,
        },
        None => None,
    }
}

impl OpenAiStreamState {
    /// Applies one tool-call piece to the calls being streamed.
    fn apply_piece(&mut self, tc: &JsonValue)
        ensures
            final(self).view() == (apply_tc(old(self).view().0, *tc), old(self).view().1),
    {
        proof {
            reveal_strlit("id");
            reveal_strlit("name");
            reveal_strlit("arguments");
        }
        let idx = piece_index(tc);
        let ghost parts = self.view().0;
        let mut p: usize = 0;
        while p < self.calls.len()
            invariant
                p <= self.calls@.len(),
                parts == self.view().0,
                self.view() == old(self).view(),
                forall|j: int| 0 <= j < p ==> #[trigger] parts[j].0 != idx,
            ensures
                p <= self.calls@.len(),
                parts == self.view().0,
                self.view() == old(self).view(),
                forall|j: int| 0 <= j < p ==> #[trigger] parts[j].0 != idx,
                p < self.calls@.len() ==> parts[p as int].0 == idx,
            decreases self.calls@.len() - p,
        {
            if self.calls[p].index == idx {
                break;
            }
            p = p + 1;
        }
        let found = p < self.calls.len();
        let mut entry = if found {
            proof {
                assert(parts[p as int].0 == idx);
                lemma_find_found(parts, idx, p as int);
            }
            self.calls.remove(p)
        } else {
            proof {
                lemma_find_absent(parts, idx);
            }
            PartialToolCall { index: idx, id: String::new(), name: String::new(), arguments: String::new() }
        };
        match tc.get("id") {
            Some(v) => match v.as_str() {
                Some(x) => {
                    entry.id = String::from_str(x);
                },
                None => {},
            },
            None => {},
        }
        match function_member(tc, "name") {
            Some(x) => {
                entry.name = String::from_str(x);
            },
            None => {},
        }
        match function_member(tc, "arguments") {
            Some(x) => push_str(&mut entry.arguments, x),
            None => {},
        }
        let ghost e = part_view(entry);
        if found {
            self.calls.insert(p, entry);
            proof {
                assert(self.view().0 =~= parts.update(p as int, e));
            }
        } else {
            self.calls.push(entry);
            proof {
                assert(self.view().0 =~= parts.push(e));
            }
        }
    }

    /// Reads one stream event whose data is not the end marker (the data
    /// parsed as JSON).  The steps are handed on in order; an error ends
    /// the stream after them.
    pub fn on_event(&mut self, ev: &JsonValue) -> (r: (Vec<StreamStep>, Result<(), ProviderError>))
        ensures
            ({
                let (steps, st, err) = openai_next(old(self).view(), *ev);
                &&& views_of(r.0@) == steps
                &&& final(self).view() == st
                &&& err_is(r.1, err)
            }),
    {
        proof {
            reveal_strlit("stop");
            reveal_strlit("tool_calls");
            reveal_strlit("length");
            reveal_strlit("content_filter");
            reveal_strlit("");
            assert(""@.len() == 0);
        }
        let ghost s0 = self.view();
        let cs = match ev.get("choices") {
            Some(v) => match v.as_array() {
                Some(a) => a,
                None => return (Vec::new(), parse_error("OpenAI SSE: missing or invalid 'choices' array")),
            },
            None => return (Vec::new(), parse_error("OpenAI SSE: missing or invalid 'choices' array")),
        };
        if cs.len() == 0 {
            return (Vec::new(), parse_error("OpenAI SSE: empty 'choices' array"));
        }
        let c = &cs[0];
        if !c.is_object() {
            return (Vec::new(), parse_error("OpenAI SSE: choices[0] is not an object"));
        }
        let fin: &str = match c.get("finish_reason") {
            Some(v) => match v.as_str() {
                Some(f) => f,
                None => "",
            },
            None => "",
        };
        let d = match c.get("delta") {
            None => {
                if fin.is_empty() {
                    return (Vec::new(), parse_error("OpenAI SSE: missing 'delta' without finish_reason"));
                }
                if !(str_eq(fin, "stop") || str_eq(fin, "tool_calls") || str_eq(fin, "length")
                    || str_eq(fin, "content_filter")) {
                    let msg = concat3(
                        "OpenAI SSE: missing 'delta' with unrecognised finish_reason '",
                        fin,
                        "'",
                    );
                    return (Vec::new(), Err(ProviderError::Parse(msg)));
                }
                let none: Vec<StreamStep> = Vec::new();
                assert(views_of(none@) =~= Seq::<StepView>::empty());
                return (none, Ok(()));
            },
            Some(d) => d,
        };
        let mut steps: Vec<StreamStep> = Vec::new();
        match d.get("content") {
            Some(v) => match v.as_str() {
                Some(t) => {
                    if !t.is_empty() {
                        steps.push(StreamStep::Text(String::from_str(t)));
                    }
                },
                None => {},
            },
            None => {},
        }
        let ghost text = views_of(steps@);
        match d.get("tool_calls") {
            Some(v) => match v.as_array() {
                Some(items) => {
                    let mut k: usize = 0;
                    while k < items.len()
                        invariant
                            k <= items@.len(),
                            self.view() == (apply_all(s0.0, items@.subrange(0, k as int)), s0.1),
                        decreases items@.len() - k,
                    {
                        proof {
                            assert(items@.subrange(0, k + 1).drop_last() =~= items@.subrange(0, k as int));
                        }
                        self.apply_piece(&items[k]);
                        k = k + 1;
                    }
                    assert(items@.subrange(0, items@.len() as int) =~= items@);
                },
                None => {},
            },
            None => {},
        }
        let ghost parts = self.view().0;
        if str_eq(fin, "tool_calls") || str_eq(fin, "stop") {
            let ghost msg = "OpenAI: streaming tool_call incomplete at finish"@;
            assert(forall|q: int|
                first_incomplete(parts) == Some(q) ==> #[trigger] openai_next(s0, *ev) == (
                    text + call_steps(parts.take(q)),
                    (parts, s0.1),
                    Some(msg),
                ));
            let mut k: usize = 0;
            while k < self.calls.len()
                invariant
                    k <= self.calls@.len(),
                    parts == self.view().0,
                    self.view().1 == s0.1,
                    views_of(steps@) == text + call_steps(parts.take(k as int)),
                    forall|j: int| 0 <= j < k ==> !incomplete(#[trigger] parts[j]),
                    msg == "OpenAI: streaming tool_call incomplete at finish"@,
                    s0 == old(self).view(),
                    forall|q: int|
                        first_incomplete(parts) == Some(q) ==> #[trigger] openai_next(s0, *ev) == (
                            text + call_steps(parts.take(q)),
                            (parts, s0.1),
                            Some(msg),
                        ),
                decreases self.calls@.len() - k,
            {
                let c = &self.calls[k];
                if c.id.as_str().is_empty() || c.name.as_str().is_empty() {
                    proof {
                        assert(parts[k as int] == part_view(self.calls@[k as int]));
                        lemma_first_incomplete_at(parts, k as int);
                        assert(self.view() == (parts, s0.1));
                    }
                    return (steps, parse_error("OpenAI: streaming tool_call incomplete at finish"));
                }
                let ghost before = views_of(steps@);
                steps.push(
                    StreamStep::ToolCall {
                        id: c.id.clone(),
                        name: c.name.clone(),
                        raw_input: c.arguments.clone(),
                    },
                );
                proof {
                    assert(parts[k as int] == part_view(self.calls@[k as int]));
                    assert(views_of(steps@) =~= before.push(
                        StepView::ToolCall(parts[k as int].1, parts[k as int].2, parts[k as int].3),
                    ));
                    assert(call_steps(parts.take(k + 1)) =~= call_steps(parts.take(k as int)).push(
                        StepView::ToolCall(parts[k as int].1, parts[k as int].2, parts[k as int].3),
                    ));
                    assert(views_of(steps@) =~= text + call_steps(parts.take(k + 1)));
                }
                k = k + 1;
            }
            proof {
                lemma_first_incomplete_none(parts);
                assert(parts.take(parts.len() as int) =~= parts);
            }
            self.calls = Vec::new();
            assert(self.view().0 =~= Seq::<Part>::empty());
            if !self.done_sent {
                let ghost before = views_of(steps@);
                steps.push(StreamStep::Done);
                self.done_sent = true;
                assert(views_of(steps@) =~= before.push(StepView::Done));
                assert(views_of(steps@) =~= text + call_steps(parts) + seq![StepView::Done]);
            } else {
                assert(views_of(steps@) =~= text + call_steps(parts) + Seq::<StepView>::empty());
            }
        }
        (steps, Ok(()))
    }

    /// Reads the end marker: `Done` is handed on unless it already was.
    pub fn on_done_marker(&mut self) -> (r: Option<StreamStep>)
        ensures
            final(self).view().0 == old(self).view().0,
            final(self).view().1,
            match r {
                Some(s) => s.view() == StepView::Done && !old(self).view().1,
                None => old(self).view().1,
            },
    {
        if self.done_sent {
            None
        } else {
            self.done_sent = true;
            Some(StreamStep::Done)
        }
    }

    /// Reads the end of the stream: any call with content still pending
    /// is an error; `Done` is handed on unless it already was.
    pub fn on_end(&mut self) -> (r: Result<Option<StreamStep>, ProviderError>)
        ensures
            (exists|j: int|
                0 <= j < old(self).view().0.len() && pending(#[trigger] old(self).view().0[j])) ==> (
            r matches Err(ProviderError::Parse(m)) && m@ == "OpenAI: streaming tool_call incomplete at EOF"@),
            !(exists|j: int|
                0 <= j < old(self).view().0.len() && pending(#[trigger] old(self).view().0[j])) ==> (
            r matches Ok(o) && match o {
                Some(s) => s.view() == StepView::Done && !old(self).view().1,
                None => old(self).view().1,
            }),
            final(self).view().0 == old(self).view().0,
            r is Ok ==> final(self).view().1,
    {
        let ghost parts = self.view().0;
        let mut k: usize = 0;
        while k < self.calls.len()
            invariant
                k <= self.calls@.len(),
                parts == self.view().0,
                self.view() == old(self).view(),
                forall|j: int| 0 <= j < k ==> !pending(#[trigger] parts[j]),
            decreases self.calls@.len() - k,
        {
            let c = &self.calls[k];
            if !c.id.as_str().is_empty() || !c.name.as_str().is_empty() || !c.arguments.as_str().is_empty() {
                assert(parts[k as int] == part_view(self.calls@[k as int]));
                assert(pending(parts[k as int]));
                return Err(ProviderError::Parse(String::from_str("OpenAI: streaming tool_call incomplete at EOF")));
            }
            assert(parts[k as int] == part_view(self.calls@[k as int]));
            k = k + 1;
        }
        if self.done_sent {
            Ok(None)
        } else {
            self.done_sent = true;
            Ok(Some(StreamStep::Done))
        }
    }
}

/// A call with any content streamed.
pub open spec fn pending(p: Part) -> bool {
    p.1.len() > 0 || p.2.len() > 0 || p.3.len() > 0
}

} // verus!

verus! {

/// A complete reply as characters: its text and its calls
/// `(id, name, input)`.
pub type CallReply = (Seq<char>, Seq<(Seq<char>, Seq<char>, JsonValue)>);

/// The id of an entry of `message.tool_calls` (empty when missing).
pub open spec fn call_id(tc: JsonValue) -> Seq<char> {
    or_empty(member_str(tc, "id"@))
}

/// The function name of an entry (empty when missing).
pub open spec fn call_name(tc: JsonValue) -> Seq<char> {
    or_empty(fn_member(tc, "name"@))
}

/// The argument text of an entry (`{}` when missing).
pub open spec fn call_args(tc: JsonValue) -> Seq<char> {
    match fn_member(tc, "arguments"@) {
        Some(a) => a,
        None => "{}"@,
    }
}

/// Why an entry of `message.tool_calls` is refused, if it is: it needs a
/// non-empty id and function name, and its arguments must be JSON.
pub open spec fn call_fault(tc: JsonValue) -> Option<Seq<char>> {
    if call_id(tc).len() == 0 || call_name(tc).len() == 0 {
        Some("OpenAI: tool_call missing id or function.name"@)
    } else {
        match json_parse_error(call_args(tc)) {
            Some(e) => Some("tool arguments JSON: "@ + e),
            None => None,
        }
    }
}

/// Whether `c` is the call an accepted entry gives: its id, its name, and
/// a value its argument text reads as.
pub open spec fn call_is(tc: JsonValue, c: (Seq<char>, Seq<char>, JsonValue)) -> bool {
    c.0 == call_id(tc) && c.1 == call_name(tc) && json_value(call_args(tc), c.2)
}

/// Whether `r` is what the entries give, in order: every call when none
/// is refused, otherwise the fault of the first refused one.
pub open spec fn reply_calls(tcs: Seq<JsonValue>, r: Result<Seq<(Seq<char>, Seq<char>, JsonValue)>, Seq<char>>) -> bool {
    match r {
        Ok(cs) => cs.len() == tcs.len() && forall|i: int|
            0 <= i < tcs.len() ==> call_fault(#[trigger] tcs[i]) is None && call_is(tcs[i], cs[i]),
        Err(m) => exists|k: int|
            0 <= k < tcs.len() && call_fault(#[trigger] tcs[k]) == Some(m) && forall|i: int|
                0 <= i < k ==> call_fault(#[trigger] tcs[i]) is None,
    }
}

/// The `message` of a choice (`null` when it has none).
pub open spec fn message_of(choice: JsonValue) -> JsonValue {
    match member(choice, "message"@) {
        Some(m) => m,
        None => JsonValue::Null,
    }
}

/// Whether `r` is a complete Chat Completions reply read: the first
/// choice's message, its content (`null` or missing read as empty) and
/// its tool calls.
pub open spec fn openai_reply(json: JsonValue, r: Result<CallReply, Seq<char>>) -> bool {
    match member(json, "choices"@) {
        Some(JsonValue::Array(cs)) => if cs@.len() == 0 {
            r == Err::<CallReply, Seq<char>>("OpenAI: empty 'choices'"@)
        } else {
            let msg = message_of(cs@[0]);
            let content = or_empty(member_str(msg, "content"@));
            match member(msg, "tool_calls"@) {
                Some(JsonValue::Array(tcs)) => match r {
                    Ok(reply) => reply.0 == content && reply_calls(tcs@, Ok(reply.1)),
                    Err(e) => reply_calls(tcs@, Err(e)),
                },
                _ => r == Ok::<CallReply, Seq<char>>(
                    (content, Seq::<(Seq<char>, Seq<char>, JsonValue)>::empty()),
                ),
            }
        },
        _ => r == Err::<CallReply, Seq<char>>("OpenAI: missing 'choices' array"@),
    }
}

pub open spec fn call_view(c: ToolCall) -> (Seq<char>, Seq<char>, JsonValue) {
    (c.id@, c.name@, c.input)
}

pub open spec fn response_view(r: ChatResponse) -> CallReply {
    (r.content@, r.tool_calls@.map_values(|c: ToolCall| call_view(c)))
}

fn str_or<'a>(v: Option<&'a JsonValue>, dflt: &'a str) -> (r: &'a str)
    ensures
        r@ == match v {
            Some(x) => match str_of(*x) {
                Some(s) => s,
                None => dflt@,
            },
            None => dflt@,
        },
{
    match v {
        Some(x) => match x.as_str() {
            Some(s) => s,
            None => dflt,
        },
        None => dflt,
    }
}

/// A reply read as characters, or its error's message.
pub open spec fn reply_result(r: Result<ChatResponse, ProviderError>) -> Result<CallReply, Seq<char>> {
    match r {
        Ok(reply) => Ok(response_view(reply)),
        Err(ProviderError::Parse(m)) => Err(m@),
        Err(_) => Err(Seq::<char>::empty()),
    }
}

/// Reads a complete (non-streamed) Chat Completions reply.
pub fn parse_chat_response(json: &JsonValue) -> (r: Result<ChatResponse, ProviderError>)
    ensures
        openai_reply(*json, reply_result(r)),
        r is Err ==> r matches Err(ProviderError::Parse(_)),
{
    proof {
        reveal_strlit("OpenAI: missing 'choices' array");
        reveal_strlit("OpenAI: empty 'choices'");
        reveal_strlit("");
    }
    let choices = match json.get("choices") {
        Some(JsonValue::Array(cs)) => cs,
        _ => {
            return Err(ProviderError::Parse(String::from_str("OpenAI: missing 'choices' array")));
        },
    };
    if choices.len() == 0 {
        return Err(ProviderError::Parse(String::from_str("OpenAI: empty 'choices'")));
    }
    proof {
        reveal_strlit("message");
        reveal_strlit("content");
        reveal_strlit("tool_calls");
    }
    let msg = choices[0].get("message");
    let ghost msgv = message_of(choices@[0]);
    assert(msg matches Some(m) ==> *m == msgv);
    assert(msg is None ==> msgv == JsonValue::Null);
    let content = match msg {
        Some(m) => str_or(m.get("content"), ""),
        None => "",
    };
    assert(content@ == or_empty(member_str(msgv, "content"@)));
    let mut calls: Vec<ToolCall> = Vec::new();
    let tcs = match msg {
        Some(m) => match m.get("tool_calls") {
            Some(JsonValue::Array(a)) => Some(a),
            _ => None,
        },
        None => None,
    };
    assert(tcs matches Some(a) ==> member(msgv, "tool_calls"@) == Some(JsonValue::Array(*a)));
    assert(tcs is None ==> !(member(msgv, "tool_calls"@) matches Some(JsonValue::Array(_))));
    match tcs {
        Some(tcs) => {
            let mut i: usize = 0;
            while i < tcs.len()
                invariant
                    i <= tcs@.len(),
                    calls@.len() == i,
                    forall|j: int|
                        0 <= j < i ==> call_fault(#[trigger] tcs@[j]) is None && call_is(
                            tcs@[j],
                            call_view(calls@[j]),
                        ),
                    member(*json, "choices"@) == Some(JsonValue::Array(*choices)),
                    choices@.len() > 0,
                    msgv == message_of(choices@[0]),
                    content@ == or_empty(member_str(msgv, "content"@)),
                    member(msgv, "tool_calls"@) == Some(JsonValue::Array(*tcs)),
                decreases tcs@.len() - i,
            {
                let tc = &tcs[i];
                proof {
                    reveal_strlit("id");
                    reveal_strlit("name");
                    reveal_strlit("arguments");
                    reveal_strlit("");
                    reveal_strlit("{}");
                    reveal_strlit("OpenAI: tool_call missing id or function.name");
                    reveal_strlit("tool arguments JSON: ");
                }
                let id = str_or(tc.get("id"), "");
                let name = match function_member(tc, "name") {
                    Some(s) => s,
                    None => "",
                };
                if id.is_empty() || name.is_empty() {
                    let r = Err(ProviderError::Parse(String::from_str("OpenAI: tool_call missing id or function.name")));
                    proof {
                        assert(call_fault(tcs@[i as int]) == Some("OpenAI: tool_call missing id or function.name"@));
                        assert(reply_calls(tcs@, Err("OpenAI: tool_call missing id or function.name"@)));
                    }
                    return r;
                }
                let args = match function_member(tc, "arguments") {
                    Some(s) => s,
                    None => "{}",
                };
                assert(args@ == call_args(*tc));
                let input = match parse_json_text(args) {
                    Ok(v) => v,
                    Err(e) => {
                        let m = concat2("tool arguments JSON: ", e.as_str());
                        proof {
                            assert(call_fault(tcs@[i as int]) == Some(m@));
                            assert(reply_calls(tcs@, Err(m@)));
                        }
                        return Err(ProviderError::Parse(m));
                    },
                };
                let ghost iv = input;
                calls.push(ToolCall { id: String::from_str(id), name: String::from_str(name), input });
                proof {
                    assert(call_view(calls@[i as int]) == (id@, name@, iv));
                    assert(call_is(tcs@[i as int], call_view(calls@[i as int])));
                }
                i = i + 1;
            }
            let r = ChatResponse { content: String::from_str(content), tool_calls: calls };
            proof {
                let cs = r.tool_calls@.map_values(|c: ToolCall| call_view(c));
                assert forall|j: int| 0 <= j < tcs@.len() implies call_fault(#[trigger] tcs@[j]) is None
                    && call_is(tcs@[j], cs[j]) by {
                    assert(cs[j] == call_view(r.tool_calls@[j]));
                }
                assert(reply_calls(tcs@, Ok(cs)));
            }
            Ok(r)
        },
        None => {
            let r = ChatResponse { content: String::from_str(content), tool_calls: calls };
            assert(r.tool_calls@.map_values(|c: ToolCall| call_view(c)) =~= Seq::<
                (Seq<char>, Seq<char>, JsonValue),
            >::empty());
            Ok(r)
        },
    }
}

pub open spec fn opt_err_is(r: Option<ProviderError>, e: Option<Seq<char>>) -> bool {
    match e {
        None => r is None,
        Some(msg) => r matches Some(ProviderError::Parse(m)) && m@ == msg,
    }
}

impl OpenAiStreamState {
    /// Reads one event's data: the end marker, or the data as JSON
    /// (`OpenAI SSE JSON: …` when it is not) with the event applied.  The
    /// chunks come in order; a tool call whose arguments are not JSON
    /// (`tool arguments: …`) ends them, otherwise the event's own error
    /// follows them.
    pub fn on_data(&mut self, data: &str) -> (r: (Vec<StreamChunk>, Option<ProviderError>))
        ensures
            data@ == "[DONE]"@ ==> {
                &&& r.1 is None
                &&& chunk_views(r.0@) == if old(self).view().1 {
                    Seq::<ChunkView>::empty()
                } else {
                    seq![ChunkView::Done]
                }
                &&& final(self).view() == (old(self).view().0, true)
            },
            data@ != "[DONE]"@ ==> match json_parse_error(data@) {
                Some(e) => r.0@.len() == 0 && (r.1 matches Some(ProviderError::Parse(m)) && m@
                    == "OpenAI SSE JSON: "@ + e) && final(self).view() == old(self).view(),
                None => exists|v: JsonValue| #[trigger] json_value(data@, v) && {
                    let (steps, st, err) = openai_next(old(self).view(), v);
                    &&& final(self).view() == st
                    &&& if chunk_views(r.0@).len() < steps.len() {
                        chunks_are(steps, "tool arguments: "@, chunk_views(r.0@), parse_msg(r.1))
                    } else {
                        chunks_are(steps, "tool arguments: "@, chunk_views(r.0@), None) && opt_err_is(r.1, err)
                    }
                },
            },
    {
        proof {
            reveal_strlit("[DONE]");
        }
        if is_done_marker(data) {
            let mut out: Vec<StreamChunk> = Vec::new();
            match self.on_done_marker() {
                Some(_) => out.push(StreamChunk::Done),
                None => {},
            }
            proof {
                assert(chunk_views(out@) =~= if old(self).view().1 {
                    Seq::<ChunkView>::empty()
                } else {
                    seq![ChunkView::Done]
                });
            }
            return (out, None);
        }
        let v = match parse_json_text(data) {
            Ok(v) => v,
            Err(e) => {
                return (Vec::new(), Some(ProviderError::Parse(concat2("OpenAI SSE JSON: ", e.as_str()))));
            },
        };
        let ghost v0 = v;
        assert(json_value(data@, v0));
        let (steps, res) = self.on_event(&v);
        let (chunks, cerr) = to_chunks(steps, "tool arguments: ");
        match cerr {
            Some(e) => (chunks, Some(e)),
            None => match res {
                Ok(()) => (chunks, None),
                Err(e) => (chunks, Some(e)),
            },
        }
    }

    /// The end of the stream, as a chunk: an unfinished tool call is an
    /// error; `Done` unless it was handed on.
    pub fn finish(&mut self) -> (r: Result<Option<StreamChunk>, ProviderError>)
        ensures
            (exists|j: int|
                0 <= j < old(self).view().0.len() && pending(#[trigger] old(self).view().0[j])) ==> (
            r matches Err(ProviderError::Parse(m)) && m@ == "OpenAI: streaming tool_call incomplete at EOF"@),
            !(exists|j: int|
                0 <= j < old(self).view().0.len() && pending(#[trigger] old(self).view().0[j])) ==> (
            r matches Ok(o) && match o {
                Some(c) => c is Done && !old(self).view().1,
                None => old(self).view().1,
            }),
    {
        match self.on_end() {
            Err(e) => Err(e),
            Ok(None) => Ok(None),
            Ok(Some(_)) => Ok(Some(StreamChunk::Done)),
        }
    }
}

} // verus!
