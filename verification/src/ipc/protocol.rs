//! Two-stage decoding and semantic validation of NDJSON protocol messages.
//!
//! A line is first parsed as a generic JSON value; the value is then
//! inspected so that `malformed_json`, `missing_type`,
//! `unknown_message_type` and `invalid_message` can be told apart before
//! the typed message is validated.
use vstd::prelude::*;

use crate::ipc::decode::{decode_message, message_is, message_ok};
use crate::json::{json_parse_error, json_value, member, parse_json_text, str_of, JsonValue};
use crate::text::{chars_of, concat2, concat3, dec, decimal, digit_char, push_str, str_eq, string_of, trim};
use crate::types::{
    message_type_name, Message, NarrativeSpeak, SystemError, SystemErrorCode, SystemPong,
};

verus! {

/// Whether `ts` is a legal RFC 3339 timestamp, as chrono's
/// `DateTime::parse_from_rfc3339` decides it.
pub uninterp spec fn rfc3339_valid(ts: Seq<char>) -> bool;

/// `chrono::DateTime::parse_from_rfc3339(ts).is_ok()`.
#[verifier::external_body]
fn parses_as_rfc3339(ts: &str) -> (r: bool)
    ensures
        r == rfc3339_valid(ts@),
{
    chrono::DateTime::parse_from_rfc3339(ts).is_ok()
}

/// Whether `ts` is a legal RFC 3339 string (any offset accepted).
pub fn validate_timestamp(ts: &str) -> (r: bool)
    ensures
        r == rfc3339_valid(ts@),
{
    parses_as_rfc3339(ts)
}

/// Error information before a `system.error` envelope is built.
#[derive(Debug, Clone)]
pub struct ProtocolError {
    pub code: SystemErrorCode,
    pub req_id: Option<String>,
    pub detail: String,
}

/// The content of a protocol error: code, echoed request id, detail.
pub type ErrV = (SystemErrorCode, Option<Seq<char>>, Seq<char>);

pub open spec fn opt_str(o: Option<String>) -> Option<Seq<char>> {
    match o {
        Some(s) => Some(s@),
        None => None,
    }
}

pub open spec fn err_view(e: ProtocolError) -> ErrV {
    (e.code, opt_str(e.req_id), e.detail@)
}

pub open spec fn unit_result(r: Result<(), ProtocolError>) -> Result<(), ErrV> {
    match r {
        Ok(()) => Ok(()),
        Err(e) => Err(err_view(e)),
    }
}

/// A `system.pong` answering `req_id`, stamped `ts`.
pub fn make_pong(req_id: String, ts: String) -> (r: Message)
    ensures
        r matches Message::SystemPong(p) && p.req_id == req_id && p.ts == ts,
{
    Message::SystemPong(SystemPong { ts, req_id })
}

/// A `system.error`, stamped `ts`.
pub fn make_error(code: SystemErrorCode, req_id: Option<String>, detail: String, ts: String) -> (r:
    Message)
    ensures
        r matches Message::SystemError(e) && e.error == code && e.req_id == req_id && e.detail
            == detail && e.ts == ts,
{
    Message::SystemError(SystemError { ts, req_id, error: code, detail })
}

impl ProtocolError {
    /// The `system.error` message for this error, stamped `ts`.
    pub fn into_message(self, ts: String) -> (r: Message)
        ensures
            r matches Message::SystemError(e) && e.error == self.code && e.req_id == self.req_id
                && e.detail == self.detail && e.ts == ts,
    {
        make_error(self.code, self.req_id, self.detail, ts)
    }
}

fn invalid(req_id: Option<String>, detail: &str) -> (r: ProtocolError)
    ensures
        r.code == SystemErrorCode::InvalidMessage,
        r.req_id == req_id,
        r.detail@ == detail@,
{
    ProtocolError { code: SystemErrorCode::InvalidMessage, req_id, detail: String::from_str(detail) }
}

/// `Some("")` is rejected; `None` and non-empty ids are fine.
pub open spec fn event_id_check(e: Option<String>) -> Result<(), ErrV> {
    match e {
        Some(s) => if s@.len() == 0 {
            Err((SystemErrorCode::InvalidMessage, None, "event_id must not be empty when present"@))
        } else {
            Ok(())
        },
        None => Ok(()),
    }
}

pub fn validate_event_id(event_id: &Option<String>) -> (r: Result<(), ProtocolError>)
    ensures
        unit_result(r) == event_id_check(*event_id),
{
    match event_id {
        Some(s) => if s.as_str().is_empty() {
            Err(invalid(None, "event_id must not be empty when present"))
        } else {
            Ok(())
        },
        None => Ok(()),
    }
}

// ── event ids ────────────────────────────────────────────────────────

/// Position of the last `c` in `s`.
pub open spec fn last_pos(s: Seq<char>, c: char) -> Option<int>
    decreases s.len(),
{
    if s.len() == 0 {
        None
    } else if s.last() == c {
        Some(s.len() - 1)
    } else {
        last_pos(s.drop_last(), c)
    }
}

pub open spec fn is_digit(c: char) -> bool {
    '0' <= c <= '9'
}

/// The value of a string of decimal digits.
pub open spec fn digits_value(d: Seq<char>) -> nat
    decreases d.len(),
{
    if d.len() == 0 {
        0
    } else {
        digits_value(d.drop_last()) * 10 + ((d.last() as u32) - 48) as nat
    }
}

/// `str::parse::<u32>`: an optional `+`, then one or more ASCII digits,
/// with a value that fits.
pub open spec fn u32_parse(t: Seq<char>) -> Option<u32> {
    let d = unsigned_digits(t);
    if d.len() == 0 || !all_digits(d) {
        None
    } else if digits_value(d) > u32::MAX {
        None
    } else {
        Some(digits_value(d) as u32)
    }
}

/// The digits of an unsigned literal: the text without a leading `+`.
pub open spec fn unsigned_digits(t: Seq<char>) -> Seq<char> {
    if t.len() > 0 && t[0] == '+' {
        t.drop_first()
    } else {
        t
    }
}

pub open spec fn all_digits(d: Seq<char>) -> bool {
    forall|i: int| 0 <= i < d.len() ==> is_digit(#[trigger] d[i])
}

/// The parse of an event id `{task_id}:{seq}`, split at the last colon.
pub open spec fn event_id_parse(s: Seq<char>) -> Result<(Seq<char>, u32), Seq<char>> {
    match last_pos(s, ':') {
        None => Err("event_id missing colon: '"@ + s + "'"@),
        Some(c) => if c == 0 {
            Err("event_id has empty task_id: '"@ + s + "'"@)
        } else {
            match u32_parse(s.subrange(c + 1, s.len() as int)) {
                Some(n) => Ok((s.subrange(0, c), n)),
                None => Err("event_id has invalid seq: '"@ + s + "'"@),
            }
        },
    }
}

proof fn lemma_digits_value_grows(d: Seq<char>, k: int)
    requires
        0 <= k <= d.len(),
        forall|i: int| 0 <= i < d.len() ==> is_digit(#[trigger] d[i]),
    ensures
        digits_value(d.subrange(0, k)) <= digits_value(d),
    decreases d.len() - k,
{
    if k < d.len() {
        lemma_digits_value_grows(d, k + 1);
        let a = d.subrange(0, k + 1);
        assert(a.drop_last() =~= d.subrange(0, k));
    } else {
        assert(d.subrange(0, k) =~= d);
    }
}

pub fn parse_u32(t: &[char]) -> (r: Option<u32>)
    ensures
        r == u32_parse(t@),
{
    let start: usize = if t.len() > 0 && t[0] == '+' { 1 } else { 0 };
    let ghost d = if t@.len() > 0 && t@[0] == '+' { t@.drop_first() } else { t@ };
    assert(d =~= t@.subrange(start as int, t@.len() as int));
    if start == t.len() {
        return None;
    }
    let mut v: u64 = 0;
    let mut i: usize = start;
    while i < t.len()
        invariant
            start <= i <= t@.len(),
            d == t@.subrange(start as int, t@.len() as int),
            d == unsigned_digits(t@),
            forall|j: int| start <= j < i ==> is_digit(#[trigger] t@[j]),
            v == digits_value(t@.subrange(start as int, i as int)),
            v <= u32::MAX,
        decreases t@.len() - i,
    {
        let c = t[i];
        if !('0' <= c && c <= '9') {
            assert(d[i - start] == t@[i as int]);
            assert(!is_digit(d[i - start]));
            assert(d.len() > 0);
            return None;
        }
        let ghost pre = t@.subrange(start as int, i as int);
        let ghost post = t@.subrange(start as int, i + 1);
        assert(post.drop_last() =~= pre);
        let dv = (c as u32 - 48) as u64;
        v = v * 10 + dv;
        i = i + 1;
        if v > 0xffff_ffff {
            proof {
                if forall|j: int| 0 <= j < d.len() ==> is_digit(#[trigger] d[j]) {
                    lemma_digits_value_grows(d, i - start);
                    assert(d.subrange(0, i - start) =~= post);
                }
            }
            return None;
        }
    }
    proof {
        assert(t@.subrange(start as int, t@.len() as int) == d);
        assert forall|j: int| 0 <= j < d.len() implies is_digit(#[trigger] d[j]) by {
            assert(d[j] == t@[start + j]);
        }
    }
    Some(v as u32)
}

fn find_last(s: &[char], c: char) -> (r: Option<usize>)
    ensures
        match r {
            Some(i) => last_pos(s@, c) == Some(i as int) && i < s@.len(),
            None => last_pos(s@, c) is None,
        },
{
    let mut i: usize = s.len();
    assert(s@.subrange(0, s@.len() as int) =~= s@);
    while i > 0 && s[i - 1] != c
        invariant
            i <= s@.len(),
            last_pos(s@, c) == last_pos(s@.subrange(0, i as int), c),
        decreases i,
    {
        proof {
            let a = s@.subrange(0, i as int);
            assert(a.drop_last() =~= s@.subrange(0, i - 1));
        }
        i = i - 1;
    }
    proof {
        if i == s@.len() {
            assert(s@.subrange(0, i as int) =~= s@);
        }
    }
    if i == 0 {
        assert(s@.subrange(0, 0) =~= Seq::<char>::empty());
        None
    } else {
        Some(i - 1)
    }
}

/// Splits an event id `{task_id}:{seq}` at its last colon.
pub fn parse_event_id(event_id: &str) -> (r: Result<(String, u32), String>)
    ensures
        match event_id_parse(event_id@) {
            Ok((t, n)) => r matches Ok((rt, rn)) && rt@ == t && rn == n,
            Err(m) => r matches Err(rm) && rm@ == m,
        },
{
    let s = chars_of(event_id);
    match find_last(s.as_slice(), ':') {
        None => Err(concat3("event_id missing colon: '", event_id, "'")),
        Some(c) => {
            if c == 0 {
                return Err(concat3("event_id has empty task_id: '", event_id, "'"));
            }
            let seq = crate::text::slice_range(s.as_slice(), c + 1, s.len());
            match parse_u32(seq.as_slice()) {
                Some(n) => {
                    let task = string_of(crate::text::slice_range(s.as_slice(), 0, c).as_slice());
                    Ok((task, n))
                },
                None => Err(concat3("event_id has invalid seq: '", event_id, "'")),
            }
        },
    }
}

// ── stage two ────────────────────────────────────────────────────────

/// The id of the `seq`-th reliable event of a task: `{task_id}:{seq}`.
pub open spec fn event_id_of(task_id: Seq<char>, seq: u32) -> Seq<char> {
    task_id + ":"@ + dec(seq as nat)
}

pub fn make_event_id(task_id: &str, seq: u32) -> (r: String)
    ensures
        r@ == event_id_of(task_id@, seq),
{
    let d = decimal(seq as u64);
    concat3(task_id, ":", d.as_str())
}

pub proof fn lemma_dec_digits(n: nat)
    ensures
        dec(n).len() > 0,
        all_digits(dec(n)),
        digits_value(dec(n)) == n,
        forall|i: int| 0 <= i < dec(n).len() ==> #[trigger] dec(n)[i] != ':',
    decreases n,
{
    if n >= 10 {
        lemma_dec_digits(n / 10);
        let d = dec(n / 10);
        let e = d.push(digit_char(n % 10));
        assert(e.drop_last() =~= d);
        assert(digit_char(n % 10) as u32 == (n % 10) + 48) by {
            assert((n % 10 + 48) < 0xD800);
        }
        assert forall|i: int| 0 <= i < e.len() implies is_digit(#[trigger] e[i]) by {
            if i < d.len() {
                assert(e[i] == d[i]);
            }
        }
    } else {
        assert(digit_char(n) as u32 == n + 48);
        assert(digits_value(dec(n).drop_last()) == 0) by {
            assert(dec(n).drop_last().len() == 0);
        }
    }
}

proof fn lemma_last_pos_suffix(a: Seq<char>, b: Seq<char>, c: char)
    requires
        forall|i: int| 0 <= i < b.len() ==> #[trigger] b[i] != c,
    ensures
        last_pos(a.push(c) + b, c) == Some(a.len() as int),
    decreases b.len(),
{
    let s = a.push(c) + b;
    if b.len() == 0 {
        assert(s =~= a.push(c));
    } else {
        assert(s.last() == b.last());
        assert(s.drop_last() =~= a.push(c) + b.drop_last());
        lemma_last_pos_suffix(a, b.drop_last(), c);
    }
}

/// An event id reads back as the task and sequence number it was made
/// from, whenever the task id is not empty.
pub proof fn lemma_event_id_roundtrip(task_id: Seq<char>, seq: u32)
    requires
        task_id.len() > 0,
    ensures
        event_id_parse(event_id_of(task_id, seq)) == Ok::<(Seq<char>, u32), Seq<char>>((task_id, seq)),
{
    reveal_strlit(":");
    let d = dec(seq as nat);
    lemma_dec_digits(seq as nat);
    let s = event_id_of(task_id, seq);
    assert(s =~= task_id.push(':') + d);
    lemma_last_pos_suffix(task_id, d, ':');
    let c = task_id.len() as int;
    assert(s.subrange(c + 1, s.len() as int) =~= d);
    assert(s.subrange(0, c) =~= task_id);
    assert(unsigned_digits(d) == d) by {
        assert(is_digit(d[0]));
    }
}

/// The request id echoed in envelope errors: the `req_id` member when it
/// is a non-empty string.
pub open spec fn req_id_of(v: JsonValue) -> Option<Seq<char>> {
    match member(v, "req_id"@) {
        Some(m) => match str_of(m) {
            Some(s) => if s.len() > 0 { Some(s) } else { None },
            None => None,
        },
        None => None,
    }
}

pub fn extract_req_id(value: &JsonValue) -> (r: Option<String>)
    ensures
        opt_str(r) == req_id_of(*value),
{
    match value.get("req_id") {
        Some(m) => match m.as_str() {
            Some(s) => if s.is_empty() {
                None
            } else {
                Some(String::from_str(s))
            },
            None => None,
        },
        None => None,
    }
}

/// Message types the protocol knows.
pub open spec fn known_type(t: Seq<char>) -> bool {
    t == "system.ping"@ || t == "system.pong"@ || t == "system.error"@ || t == "task.dispatch"@
        || t == "task.stream"@ || t == "narrative.speak"@ || t == "task.done"@ || t
        == "task.error"@ || t == "permission.request"@ || t == "permission.response"@ || t
        == "session.rejoin"@ || t == "system.ack"@
}

fn is_known_type(t: &str) -> (r: bool)
    ensures
        r == known_type(t@),
{
    str_eq(t, "system.ping") || str_eq(t, "system.pong") || str_eq(t, "system.error") || str_eq(
        t,
        "task.dispatch",
    ) || str_eq(t, "task.stream") || str_eq(t, "narrative.speak") || str_eq(t, "task.done")
        || str_eq(t, "task.error") || str_eq(t, "permission.request") || str_eq(
        t,
        "permission.response",
    ) || str_eq(t, "session.rejoin") || str_eq(t, "system.ack")
}

/// The envelope check on a parsed value: it must be an object with a
/// string `type` naming a known message.  Yields the type on success.
pub open spec fn envelope_check(v: JsonValue) -> Result<Seq<char>, ErrV> {
    if !(v is Object) {
        Err((SystemErrorCode::InvalidMessage, None, "Message must be a JSON object"@))
    } else {
        match member(v, "type"@) {
            None => Err((SystemErrorCode::MissingType, req_id_of(v), "Missing 'type' field"@)),
            Some(t) => match str_of(t) {
                None => Err(
                    (SystemErrorCode::InvalidMessage, req_id_of(v), "Field 'type' must be a string"@),
                ),
                Some(s) => if known_type(s) {
                    Ok(s)
                } else {
                    Err(
                        (
                            SystemErrorCode::UnknownMessageType,
                            req_id_of(v),
                            "Unknown message type: "@ + s,
                        ),
                    )
                },
            },
        }
    }
}

/// Stage two, envelope part: inspects the parsed value before it is read
/// as a typed message.
pub fn check_envelope(value: &JsonValue) -> (r: Result<String, ProtocolError>)
    ensures
        match envelope_check(*value) {
            Ok(t) => r matches Ok(s) && s@ == t,
            Err(e) => r matches Err(pe) && err_view(pe) == e,
        },
{
    if !value.is_object() {
        return Err(invalid(None, "Message must be a JSON object"));
    }
    match value.get("type") {
        None => Err(
            ProtocolError {
                code: SystemErrorCode::MissingType,
                req_id: extract_req_id(value),
                detail: String::from_str("Missing 'type' field"),
            },
        ),
        Some(t) => match t.as_str() {
            None => Err(invalid(extract_req_id(value), "Field 'type' must be a string")),
            Some(s) => if is_known_type(s) {
                Ok(String::from_str(s))
            } else {
                Err(
                    ProtocolError {
                        code: SystemErrorCode::UnknownMessageType,
                        req_id: extract_req_id(value),
                        detail: concat2("Unknown message type: ", s),
                    },
                )
            },
        },
    }
}

/// Emotions a character may show.
pub open spec fn valid_emotion(e: Seq<char>) -> bool {
    e == "calm"@ || e == "defensive"@ || e == "nervous"@ || e == "anxious"@ || e == "angry"@ || e
        == "broken"@
}

/// The accepted emotions are exactly the six of the reply contract: each
/// of calm, defensive, nervous, anxious, angry and broken is accepted, and
/// any accepted string is one of them.
pub proof fn lemma_emotions_exactly_six(e: Seq<char>)
    ensures
        valid_emotion("calm"@),
        valid_emotion("defensive"@),
        valid_emotion("nervous"@),
        valid_emotion("anxious"@),
        valid_emotion("angry"@),
        valid_emotion("broken"@),
        valid_emotion(e) ==> e == "calm"@ || e == "defensive"@ || e == "nervous"@ || e == "anxious"@
            || e == "angry"@ || e == "broken"@,
{
}

pub fn is_valid_emotion(e: &str) -> (r: bool)
    ensures
        r == valid_emotion(e@),
{
    str_eq(e, "calm") || str_eq(e, "defensive") || str_eq(e, "nervous") || str_eq(e, "anxious")
        || str_eq(e, "angry") || str_eq(e, "broken")
}

/// The semantic checks of each typed message, in the order they apply.
pub open spec fn message_check(m: Message) -> Result<(), ErrV> {
    let inv = SystemErrorCode::InvalidMessage;
    match m {
        Message::SystemPing(p) => if !rfc3339_valid(p.ts@) {
            Err((inv, Some(p.req_id@), "Invalid RFC 3339 timestamp"@))
        } else if p.req_id@.len() == 0 {
            Err((inv, None, "Field 'req_id' must not be empty"@))
        } else {
            Ok(())
        },
        Message::SystemPong(p) => if !rfc3339_valid(p.ts@) {
            Err((inv, Some(p.req_id@), "Invalid RFC 3339 timestamp"@))
        } else if p.req_id@.len() == 0 {
            Err((inv, None, "Field 'req_id' must not be empty"@))
        } else {
            Ok(())
        },
        Message::SystemError(e) => if !rfc3339_valid(e.ts@) {
            Err((inv, opt_str(e.req_id), "Invalid RFC 3339 timestamp"@))
        } else if e.req_id is Some && e.req_id->0@.len() == 0 {
            Err((inv, None, "Field 'req_id' must not be empty when present"@))
        } else {
            Ok(())
        },
        Message::TaskDispatch(td) => if event_id_check(td.event_id) is Err {
            event_id_check(td.event_id)
        } else if td.req_id@.len() == 0 {
            Err((inv, None, "task.dispatch: 'req_id' must not be empty"@))
        } else {
            Ok(())
        },
        Message::TaskStream(ts) => if event_id_check(ts.event_id) is Err {
            event_id_check(ts.event_id)
        } else if ts.req_id@.len() == 0 {
            Err((inv, None, "task.stream: 'req_id' must not be empty"@))
        } else {
            Ok(())
        },
        Message::NarrativeSpeak(ev) => if event_id_check(ev.event_id) is Err {
            event_id_check(ev.event_id)
        } else if ev.req_id@.len() == 0 {
            Err((inv, None, "narrative.speak: 'req_id' must not be empty"@))
        } else if ev.agent_id@.len() == 0 {
            Err((inv, Some(ev.req_id@), "narrative.speak: 'agent_id' must not be empty"@))
        } else if ev.task_id@.len() == 0 {
            Err((inv, Some(ev.req_id@), "narrative.speak: 'task_id' must not be empty"@))
        } else if trim(ev.text@).len() == 0 || ev.text@.len() > 500 {
            Err((inv, Some(ev.req_id@), "narrative.speak: invalid text"@))
        } else if !valid_emotion(ev.emotion@) {
            Err((inv, Some(ev.req_id@), "narrative.speak: invalid emotion"@))
        } else {
            Ok(())
        },
        Message::TaskDone(td) => if event_id_check(td.event_id) is Err {
            event_id_check(td.event_id)
        } else if td.req_id@.len() == 0 {
            Err((inv, None, "task.done: 'req_id' must not be empty"@))
        } else {
            Ok(())
        },
        Message::TaskError(te) => if event_id_check(te.event_id) is Err {
            event_id_check(te.event_id)
        } else if te.req_id@.len() == 0 {
            Err((inv, None, "task.error: 'req_id' must not be empty"@))
        } else {
            Ok(())
        },
        Message::PermissionRequest(pr) => if event_id_check(pr.event_id) is Err {
            event_id_check(pr.event_id)
        } else if pr.req_id@.len() == 0 {
            Err((inv, None, "permission.request: 'req_id' must not be empty"@))
        } else if pr.permission_id@.len() == 0 {
            Err((inv, None, "permission.request: 'permission_id' must not be empty"@))
        } else {
            Ok(())
        },
        Message::PermissionResponse(pr) => if event_id_check(pr.event_id) is Err {
            event_id_check(pr.event_id)
        } else if pr.req_id@.len() == 0 {
            Err((inv, Some(pr.req_id@), "permission.response: 'req_id' must not be empty"@))
        } else if pr.permission_id@.len() == 0 {
            Err((inv, Some(pr.req_id@), "permission.response: 'permission_id' must not be empty"@))
        } else {
            Ok(())
        },
        Message::SessionRejoin(sr) => if sr.req_id@.len() == 0 {
            Err((inv, None, "session.rejoin: 'req_id' must not be empty"@))
        } else if sr.task_id@.len() == 0 {
            Err((inv, Some(sr.req_id@), "session.rejoin: 'task_id' must not be empty"@))
        } else if sr.last_event_id is Some && sr.last_event_id->0@.len() == 0 {
            Err(
                (
                    inv,
                    Some(sr.req_id@),
                    "session.rejoin: 'last_event_id' must not be empty if present"@,
                ),
            )
        } else {
            Ok(())
        },
        Message::SystemAck(sa) => if sa.req_id@.len() == 0 {
            Err((inv, None, "system.ack: 'req_id' must not be empty"@))
        } else if sa.event_id@.len() == 0 {
            Err((inv, Some(sa.req_id@), "system.ack: 'event_id' must not be empty"@))
        } else if event_id_parse(sa.event_id@) is Err {
            Err((inv, Some(sa.req_id@), "system.ack: "@ + event_id_parse(sa.event_id@)->Err_0))
        } else {
            Ok(())
        },
    }
}

fn speak_text_ok(text: &str) -> (r: bool)
    ensures
        r == !(trim(text@).len() == 0 || text@.len() > 500),
{
    let c = chars_of(text);
    let t = crate::text::trim_chars(c.as_slice());
    !(t.len() == 0 || c.len() > 500)
}

/// Semantic validation that typing cannot express: RFC 3339 timestamps,
/// non-empty identifiers, well-formed event ids.
#[verifier::rlimit(60)]
#[verifier::spinoff_prover]
pub fn validate_message(msg: &Message) -> (r: Result<(), ProtocolError>)
    ensures
        unit_result(r) == message_check(*msg),
{
    match msg {
        Message::SystemPing(p) => {
            if !validate_timestamp(p.ts.as_str()) {
                return Err(invalid(Some(p.req_id.clone()), "Invalid RFC 3339 timestamp"));
            }
            if p.req_id.as_str().is_empty() {
                return Err(invalid(None, "Field 'req_id' must not be empty"));
            }
            Ok(())
        },
        Message::SystemPong(p) => {
            if !validate_timestamp(p.ts.as_str()) {
                return Err(invalid(Some(p.req_id.clone()), "Invalid RFC 3339 timestamp"));
            }
            if p.req_id.as_str().is_empty() {
                return Err(invalid(None, "Field 'req_id' must not be empty"));
            }
            Ok(())
        },
        Message::SystemError(e) => {
            if !validate_timestamp(e.ts.as_str()) {
                let rid = match &e.req_id {
                    Some(s) => Some(s.clone()),
                    None => None,
                };
                return Err(invalid(rid, "Invalid RFC 3339 timestamp"));
            }
            if let Some(rid) = &e.req_id {
                if rid.as_str().is_empty() {
                    return Err(invalid(None, "Field 'req_id' must not be empty when present"));
                }
            }
            Ok(())
        },
        Message::TaskDispatch(td) => {
            validate_event_id(&td.event_id)?;
            if td.req_id.as_str().is_empty() {
                return Err(invalid(None, "task.dispatch: 'req_id' must not be empty"));
            }
            Ok(())
        },
        Message::TaskStream(ts) => {
            validate_event_id(&ts.event_id)?;
            if ts.req_id.as_str().is_empty() {
                return Err(invalid(None, "task.stream: 'req_id' must not be empty"));
            }
            Ok(())
        },
        Message::NarrativeSpeak(ev) => {
            validate_event_id(&ev.event_id)?;
            if ev.req_id.as_str().is_empty() {
                return Err(invalid(None, "narrative.speak: 'req_id' must not be empty"));
            }
            if ev.agent_id.as_str().is_empty() {
                return Err(
                    invalid(Some(ev.req_id.clone()), "narrative.speak: 'agent_id' must not be empty"),
                );
            }
            if ev.task_id.as_str().is_empty() {
                return Err(
                    invalid(Some(ev.req_id.clone()), "narrative.speak: 'task_id' must not be empty"),
                );
            }
            if !speak_text_ok(ev.text.as_str()) {
                return Err(invalid(Some(ev.req_id.clone()), "narrative.speak: invalid text"));
            }
            if !is_valid_emotion(ev.emotion.as_str()) {
                return Err(invalid(Some(ev.req_id.clone()), "narrative.speak: invalid emotion"));
            }
            Ok(())
        },
        Message::TaskDone(td) => {
            validate_event_id(&td.event_id)?;
            if td.req_id.as_str().is_empty() {
                return Err(invalid(None, "task.done: 'req_id' must not be empty"));
            }
            Ok(())
        },
        Message::TaskError(te) => {
            validate_event_id(&te.event_id)?;
            if te.req_id.as_str().is_empty() {
                return Err(invalid(None, "task.error: 'req_id' must not be empty"));
            }
            Ok(())
        },
        Message::PermissionRequest(pr) => {
            validate_event_id(&pr.event_id)?;
            if pr.req_id.as_str().is_empty() {
                return Err(invalid(None, "permission.request: 'req_id' must not be empty"));
            }
            if pr.permission_id.as_str().is_empty() {
                return Err(invalid(None, "permission.request: 'permission_id' must not be empty"));
            }
            Ok(())
        },
        Message::PermissionResponse(pr) => {
            validate_event_id(&pr.event_id)?;
            if pr.req_id.as_str().is_empty() {
                return Err(
                    invalid(Some(pr.req_id.clone()), "permission.response: 'req_id' must not be empty"),
                );
            }
            if pr.permission_id.as_str().is_empty() {
                return Err(
                    invalid(
                        Some(pr.req_id.clone()),
                        "permission.response: 'permission_id' must not be empty",
                    ),
                );
            }
            Ok(())
        },
        Message::SessionRejoin(sr) => {
            if sr.req_id.as_str().is_empty() {
                return Err(invalid(None, "session.rejoin: 'req_id' must not be empty"));
            }
            if sr.task_id.as_str().is_empty() {
                return Err(
                    invalid(Some(sr.req_id.clone()), "session.rejoin: 'task_id' must not be empty"),
                );
            }
            if let Some(eid) = &sr.last_event_id {
                if eid.as_str().is_empty() {
                    return Err(
                        invalid(
                            Some(sr.req_id.clone()),
                            "session.rejoin: 'last_event_id' must not be empty if present",
                        ),
                    );
                }
            }
            Ok(())
        },
        Message::SystemAck(sa) => {
            if sa.req_id.as_str().is_empty() {
                return Err(invalid(None, "system.ack: 'req_id' must not be empty"));
            }
            if sa.event_id.as_str().is_empty() {
                return Err(invalid(Some(sa.req_id.clone()), "system.ack: 'event_id' must not be empty"));
            }
            match parse_event_id(sa.event_id.as_str()) {
                Err(e) => {
                    return Err(
                        ProtocolError {
                            code: SystemErrorCode::InvalidMessage,
                            req_id: Some(sa.req_id.clone()),
                            detail: concat2("system.ack: ", e.as_str()),
                        },
                    );
                },
                Ok(_) => {},
            }
            Ok(())
        },
    }
}

/// The outcome of stage two on a parsed value: the envelope checks, then
/// reading the typed message, then its semantic checks.
pub open spec fn value_outcome_ok(v: JsonValue, r: Result<Message, ProtocolError>) -> bool {
    match envelope_check(v) {
        Err(x) => r matches Err(e) && err_view(e) == x,
        Ok(_) => if !message_ok(v) {
            r matches Err(e) && err_view(e) == (
                SystemErrorCode::InvalidMessage,
                req_id_of(v),
                "Message validation failed"@,
            )
        } else {
            match r {
                Ok(m) => message_is(v, m) && message_check(m) is Ok,
                Err(e) => exists|m: Message| #[trigger]
                    message_is(v, m) && message_check(m) == Err::<(), ErrV>(err_view(e)),
            }
        },
    }
}

/// Stage two: reads a parsed value as a typed message and validates it.
pub fn parse_value(value: JsonValue) -> (r: Result<Message, ProtocolError>)
    ensures
        value_outcome_ok(value, r),
{
    proof {
        reveal_strlit("Message validation failed");
    }
    check_envelope(&value)?;
    let req_id = extract_req_id(&value);
    let ghost v = value;
    match decode_message(value) {
        None => Err(invalid(req_id, "Message validation failed")),
        Some(msg) => {
            let checked = validate_message(&msg);
            match checked {
                Ok(()) => Ok(msg),
                Err(e) => {
                    assert(message_is(v, msg) && message_check(msg) == Err::<(), ErrV>(err_view(e)));
                    Err(e)
                },
            }
        },
    }
}

/// Parses one NDJSON line: stage one reads it as JSON (`malformed_json`
/// when it is not JSON), stage two is [`parse_value`].
pub fn parse_message(line: &str) -> (r: Result<Message, ProtocolError>)
    ensures
        match json_parse_error(line@) {
            Some(_) => r matches Err(e) && err_view(e) == (
                SystemErrorCode::MalformedJson,
                None::<Seq<char>>,
                "Failed to parse JSON"@,
            ),
            None => exists|v: JsonValue| #[trigger] json_value(line@, v) && value_outcome_ok(v, r),
        },
{
    match parse_json_text(line) {
        Err(_) => Err(
            ProtocolError {
                code: SystemErrorCode::MalformedJson,
                req_id: None,
                detail: String::from_str("Failed to parse JSON"),
            },
        ),
        Ok(v) => {
            let ghost gv = v;
            let r = parse_value(v);
            assert(json_value(line@, gv));
            r
        },
    }
}

} // verus!
