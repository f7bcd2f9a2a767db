//! Validation of the reply an agent produces for one interrogation turn.
//!
//! The agent's `task_done` summary must be a JSON object following the
//! reply schema; every check below turns a violation into a stable error
//! code.
use vstd::prelude::*;

use crate::ipc::protocol::{is_valid_emotion, valid_emotion};
use crate::json::{in_unit_interval, json_parse_error, json_value, member, member_str, parse_json_text, str_of, JsonNumber, JsonValue};
use crate::narrative::{confession_stage_rank, stage_rank};
use crate::text::{chars_of, contains, contains_chars, str_eq, string_of, trim, trim_chars, trim_str};

verus! {

/// The fields of a reply that passed validation.
#[derive(Debug)]
pub struct ValidatedNarrativeReply {
    pub utterance: String,
    pub emotion: String,
    pub confession_stage: Option<String>,
    pub stage_change_reason: Option<String>,
    pub revealed_clues: Vec<String>,
}

/// A stable validation error code.
#[derive(Debug, Clone, Copy)]
pub struct NarrativeValidationError(pub &'static str);

impl NarrativeValidationError {
    pub fn code(&self) -> (r: &'static str)
        ensures
            r@ == self.0@,
    {
        self.0
    }
}

/// Keys that may never appear anywhere in a reply.
pub open spec fn forbidden_key(k: Seq<char>) -> bool {
    k == "inner_thought"@ || k == "chain_of_thought"@ || k == "forbidden_leak"@
}

/// Whether a forbidden key occurs at any depth.
pub open spec fn has_forbidden(v: JsonValue) -> bool
    decreases v,
{
    match v {
        JsonValue::Object(entries) => exists|i: int|
            0 <= i < entries.len() && (forbidden_key(entries[i].0@) || has_forbidden(
                #[trigger] entries[i].1,
            )),
        JsonValue::Array(items) => exists|i: int|
            0 <= i < items.len() && has_forbidden(#[trigger] items[i]),
        _ => false,
    }
}

/// An object entry that is or holds a forbidden key.
pub open spec fn entry_bad(e: (String, JsonValue)) -> bool {
    forbidden_key(e.0@) || has_forbidden(e.1)
}

fn is_forbidden_key(k: &str) -> (r: bool)
    ensures
        r == forbidden_key(k@),
{
    str_eq(k, "inner_thought") || str_eq(k, "chain_of_thought") || str_eq(k, "forbidden_leak")
}

/// Searches the value for a forbidden key at any depth.
pub fn contains_forbidden_field(value: &JsonValue) -> (r: bool)
    ensures
        r == has_forbidden(*value),
    decreases value,
{
    match value {
        JsonValue::Object(entries) => {
            proof {
                assert(*value is Object);
                assert(value->Object_0 == *entries);
                assert(decreases_to!(*value => value->Object_0));
            }
            let mut i: usize = 0;
            while i < entries.len()
                invariant
                    i <= entries@.len(),
                    *value == JsonValue::Object(*entries),
                    forall|j: int| 0 <= j < i ==> !entry_bad(#[trigger] entries@[j]),
                decreases entries@.len() - i,
            {
                proof {
                    let ghost e = value->Object_0;
                    assert(e == *entries);
                    assert(decreases_to!(*value => e));
                    assert(decreases_to!(e => e[i as int]));
                    assert(decreases_to!(e[i as int] => e[i as int].1));
                    assert(decreases_to!(*value => e[i as int].1));
                }
                if is_forbidden_key(entries[i].0.as_str()) {
                    proof {
                        let e = value->Object_0;
                        assert(e == *entries);
                        assert(forbidden_key(e[i as int].0@) || has_forbidden(e[i as int].1));
                    }
                    return true;
                }
                let sub = contains_forbidden_field(&entries[i].1);
                if sub {
                    proof {
                        let e = value->Object_0;
                        assert(e == *entries);
                        assert(forbidden_key(e[i as int].0@) || has_forbidden(e[i as int].1));
                    }
                    return true;
                }
                assert(!entry_bad(entries@[i as int]));
                i = i + 1;
            }
            proof {
                let e = value->Object_0;
                assert(e == *entries);
                assert forall|j: int| 0 <= j < e.len() implies !(forbidden_key(e[j].0@) || has_forbidden(
                    #[trigger] e[j].1,
                )) by {
                    assert(!entry_bad(entries@[j]));
                }
            }
            false
        },
        JsonValue::Array(items) => {
            let mut i: usize = 0;
            while i < items.len()
                invariant
                    i <= items@.len(),
                    *value == JsonValue::Array(*items),
                    forall|j: int| 0 <= j < i ==> !has_forbidden(#[trigger] items[j]),
                decreases items@.len() - i,
            {
                proof {
                    let e = value->Array_0;
                    assert(e == *items);
                    assert(decreases_to!(*value => e));
                    assert(decreases_to!(e => e[i as int]));
                }
                let sub = contains_forbidden_field(&items[i]);
                if sub {
                    proof {
                        let e = value->Array_0;
                        assert(has_forbidden(e[i as int]));
                    }
                    return true;
                }
                i = i + 1;
            }
            proof {
                let e = value->Array_0;
                assert forall|j: int| 0 <= j < e.len() implies !has_forbidden(#[trigger] e[j]) by {}
            }
            false
        },
        _ => false,
    }
}

/// Top-level fields a reply may carry.
pub open spec fn top_key(k: Seq<char>) -> bool {
    k == "utterance"@ || k == "emotion"@ || k == "stage_delta"@ || k == "reveals"@ || k
        == "debug_tags"@ || k == "confidence"@
}

/// Fields a `stage_delta` may carry.
pub open spec fn delta_key(k: Seq<char>) -> bool {
    k == "should_change"@ || k == "new_stage"@ || k == "reason"@
}

/// Debug tags a reply may carry.
pub open spec fn debug_tag(k: Seq<char>) -> bool {
    k == "withholding_known_fact"@ || k == "nervous_pause"@ || k == "contradiction_pressure"@ || k
        == "evidence_reaction"@ || k == "fallback"@
}

pub open spec fn all_top_keys(es: Seq<(String, JsonValue)>) -> bool {
    forall|i: int| 0 <= i < es.len() ==> top_key(#[trigger] es[i].0@)
}

pub open spec fn all_delta_keys(es: Seq<(String, JsonValue)>) -> bool {
    forall|i: int| 0 <= i < es.len() ==> delta_key(#[trigger] es[i].0@)
}

fn is_top_key(k: &str) -> (r: bool)
    ensures
        r == top_key(k@),
{
    str_eq(k, "utterance") || str_eq(k, "emotion") || str_eq(k, "stage_delta") || str_eq(
        k,
        "reveals",
    ) || str_eq(k, "debug_tags") || str_eq(k, "confidence")
}

fn is_delta_key(k: &str) -> (r: bool)
    ensures
        r == delta_key(k@),
{
    str_eq(k, "should_change") || str_eq(k, "new_stage") || str_eq(k, "reason")
}

fn is_debug_tag(k: &str) -> (r: bool)
    ensures
        r == debug_tag(k@),
{
    str_eq(k, "withholding_known_fact") || str_eq(k, "nervous_pause") || str_eq(
        k,
        "contradiction_pressure",
    ) || str_eq(k, "evidence_reaction") || str_eq(k, "fallback")
}

/// Whether every key of an object is allowed (`delta` selects the
/// `stage_delta` key set, otherwise the top-level one).
fn keys_allowed(entries: &Vec<(String, JsonValue)>, delta: bool) -> (r: bool)
    ensures
        r == (if delta { all_delta_keys(entries@) } else { all_top_keys(entries@) }),
{
    let mut i: usize = 0;
    while i < entries.len()
        invariant
            i <= entries@.len(),
            delta ==> forall|j: int| 0 <= j < i ==> delta_key(#[trigger] entries@[j].0@),
            !delta ==> forall|j: int| 0 <= j < i ==> top_key(#[trigger] entries@[j].0@),
        decreases entries@.len() - i,
    {
        let k = entries[i].0.as_str();
        let ok = if delta { is_delta_key(k) } else { is_top_key(k) };
        if !ok {
            return false;
        }
        i = i + 1;
    }
    true
}

/// The strings of an array, trimmed, keeping only the non-empty ones.
pub open spec fn nonempty_trimmed(items: Seq<JsonValue>) -> Seq<Seq<char>>
    decreases items.len(),
{
    if items.len() == 0 {
        seq![]
    } else {
        let rest = nonempty_trimmed(items.drop_last());
        match str_of(items.last()) {
            Some(s) => if trim(s).len() > 0 {
                rest.push(trim(s))
            } else {
                rest
            },
            None => rest,
        }
    }
}

/// The `stage_requirements` entry for a stage.
pub open spec fn requirement(gs: JsonValue, stage: Seq<char>) -> Option<JsonValue> {
    match member(gs, "stage_requirements"@) {
        Some(r) => member(r, stage),
        None => None,
    }
}

/// Evidence ids a stage requires: the single `required_evidence_id`, then
/// the `required_evidence_ids` list, trimmed, blanks dropped.
pub open spec fn required_ids(req: JsonValue) -> Seq<Seq<char>> {
    required_single(req) + required_list(req)
}

pub open spec fn required_single(req: JsonValue) -> Seq<Seq<char>> {
    match member(req, "required_evidence_id"@) {
        Some(m) => match str_of(m) {
            Some(s) => if trim(s).len() > 0 { seq![trim(s)] } else { seq![] },
            None => seq![],
        },
        None => seq![],
    }
}

pub open spec fn required_list(req: JsonValue) -> Seq<Seq<char>> {
    match member(req, "required_evidence_ids"@) {
        Some(JsonValue::Array(items)) => nonempty_trimmed(items@),
        _ => seq![],
    }
}

fn required_single_exec(req: &JsonValue) -> (r: Vec<String>)
    ensures
        r@.map_values(|s: String| s@) == required_single(*req),
{
    let mut ids: Vec<String> = Vec::new();
    match req.get("required_evidence_id") {
        Some(m) => match m.as_str() {
            Some(s) => {
                let t = trim_str(s);
                if !t.as_str().is_empty() {
                    ids.push(t);
                    assert(ids@.map_values(|s: String| s@) =~= seq![t@]);
                }
            },
            None => {},
        },
        None => {},
    }
    assert(ids@.map_values(|s: String| s@) =~= required_single(*req));
    ids
}

fn required_list_exec(req: &JsonValue) -> (r: Vec<String>)
    ensures
        r@.map_values(|s: String| s@) == required_list(*req),
{
    match req.get("required_evidence_ids") {
        Some(m) => match m.as_array() {
            Some(items) => nonempty_trimmed_exec(items),
            None => {
                let v: Vec<String> = Vec::new();
                assert(v@.map_values(|s: String| s@) =~= required_list(*req));
                v
            },
        },
        None => {
            let v: Vec<String> = Vec::new();
            assert(v@.map_values(|s: String| s@) =~= required_list(*req));
            v
        },
    }
}

/// Whether the evidence presented this turn satisfies the requirement of
/// the stage being entered.
pub open spec fn evidence_ok(gs: JsonValue, stage: Seq<char>, ev: Option<Seq<char>>) -> bool {
    match requirement(gs, stage) {
        None => true,
        Some(req) => required_ids(req).len() == 0 || (ev is Some && required_ids(req).contains(
            trim(ev->0),
        )),
    }
}

fn nonempty_trimmed_exec(items: &Vec<JsonValue>) -> (r: Vec<String>)
    ensures
        r@.map_values(|s: String| s@) == nonempty_trimmed(items@),
{
    let mut out: Vec<String> = Vec::new();
    let mut i: usize = 0;
    while i < items.len()
        invariant
            i <= items@.len(),
            out@.map_values(|s: String| s@) == nonempty_trimmed(items@.subrange(0, i as int)),
        decreases items@.len() - i,
    {
        let ghost pre = items@.subrange(0, i as int);
        let ghost post = items@.subrange(0, i + 1);
        assert(post.drop_last() =~= pre);
        match items[i].as_str() {
            Some(s) => {
                let t = trim_str(s);
                if !t.as_str().is_empty() {
                    out.push(t);
                    assert(out@.map_values(|s: String| s@) =~= nonempty_trimmed(pre).push(trim(s@)));
                }
            },
            None => {},
        }
        i = i + 1;
    }
    assert(items@.subrange(0, items@.len() as int) =~= items@);
    out
}

fn seq_strings_contain(v: &Vec<String>, x: &str) -> (r: bool)
    ensures
        r == v@.map_values(|s: String| s@).contains(x@),
{
    let ghost m = v@.map_values(|s: String| s@);
    let mut i: usize = 0;
    while i < v.len()
        invariant
            i <= v@.len(),
            m == v@.map_values(|s: String| s@),
            forall|j: int| 0 <= j < i ==> m[j] != x@,
        decreases v@.len() - i,
    {
        if str_eq(v[i].as_str(), x) {
            assert(m[i as int] == x@);
            return true;
        }
        i = i + 1;
    }
    false
}

/// Whether the presented evidence satisfies the requirement of the stage
/// being entered.
pub fn has_required_stage_evidence(
    game_state: &JsonValue,
    new_stage: &str,
    request_evidence_id: Option<&str>,
) -> (r: bool)
    ensures
        r == evidence_ok(
            *game_state,
            new_stage@,
            match request_evidence_id {
                Some(e) => Some(e@),
                None => None,
            },
        ),
{
    let reqs = match game_state.get("stage_requirements") {
        Some(x) => x,
        None => return true,
    };
    let req = match reqs.get(new_stage) {
        Some(x) => x,
        None => return true,
    };
    let mut ids = required_single_exec(req);
    let mut more = required_list_exec(req);
    let ghost a = ids@;
    let ghost b = more@;
    ids.append(&mut more);
    proof {
        assert(ids@ == a + b);
        assert(ids@.map_values(|s: String| s@) =~= a.map_values(|s: String| s@) + b.map_values(|s: String| s@));
    }
    if ids.len() == 0 {
        return true;
    }
    match request_evidence_id {
        Some(e) => {
            let t = trim_str(e);
            seq_strings_contain(&ids, t.as_str())
        },
        None => false,
    }
}

/// Whether the utterance contains a configured forbidden term (trimmed,
/// non-empty terms only).
pub open spec fn term_hit(gs: JsonValue, u: Seq<char>) -> bool {
    match member(gs, "forbidden_terms"@) {
        Some(JsonValue::Array(items)) => any_term_matches(items@, u),
        _ => false,
    }
}

pub open spec fn any_term_matches(items: Seq<JsonValue>, u: Seq<char>) -> bool {
    exists|i: int| 0 <= i < items.len() && term_matches(#[trigger] items[i], u)
}

pub open spec fn term_matches(item: JsonValue, u: Seq<char>) -> bool {
    match str_of(item) {
        Some(t) => trim(t).len() > 0 && contains(u, trim(t)),
        None => false,
    }
}

/// Whether `utterance` contains one of the game state's forbidden terms.
pub fn utterance_contains_forbidden_term(utterance: &str, game_state: &JsonValue) -> (r: bool)
    ensures
        r == term_hit(*game_state, utterance@),
{
    let items = match game_state.get("forbidden_terms") {
        Some(t) => match t.as_array() {
            Some(a) => a,
            None => return false,
        },
        None => return false,
    };
    let u = chars_of(utterance);
    let mut i: usize = 0;
    while i < items.len()
        invariant
            i <= items@.len(),
            u@ == utterance@,
            member(*game_state, "forbidden_terms"@) == Some(JsonValue::Array(*items)),
            forall|j: int| 0 <= j < i ==> !term_matches(#[trigger] items@[j], utterance@),
        decreases items@.len() - i,
    {
        match items[i].as_str() {
            Some(t) => {
                let tt = trim_chars(chars_of(t).as_slice());
                if tt.len() > 0 && contains_chars(u.as_slice(), tt.as_slice()) {
                    assert(term_matches(items@[i as int], utterance@));
                    assert(any_term_matches(items@, utterance@));
                    return true;
                }
            },
            None => {},
        }
        i = i + 1;
    }
    false
}

/// Whether a clue may be revealed this turn: it is the evidence presented,
/// or it is among the unlocked evidence of the game state.
pub open spec fn reveal_ok(clue: Seq<char>, gs: JsonValue, ev: Option<Seq<char>>) -> bool {
    (ev is Some && trim(ev->0) == clue) || match member(gs, "unlocked_evidence_ids"@) {
        Some(JsonValue::Array(items)) => exists|i: int|
            0 <= i < items@.len() && #[trigger] str_of(items@[i]) == Some(clue),
        _ => false,
    }
}

/// Whether a clue may be revealed this turn.
pub fn is_allowed_reveal(clue_id: &str, game_state: &JsonValue, request_evidence_id: Option<&str>) -> (r:
    bool)
    ensures
        r == reveal_ok(
            clue_id@,
            *game_state,
            match request_evidence_id {
                Some(e) => Some(e@),
                None => None,
            },
        ),
{
    if let Some(e) = request_evidence_id {
        let t = trim_str(e);
        if str_eq(t.as_str(), clue_id) {
            return true;
        }
    }
    let items = match game_state.get("unlocked_evidence_ids") {
        Some(t) => match t.as_array() {
            Some(a) => a,
            None => return false,
        },
        None => return false,
    };
    let mut i: usize = 0;
    while i < items.len()
        invariant
            i <= items@.len(),
            member(*game_state, "unlocked_evidence_ids"@) == Some(JsonValue::Array(*items)),
            forall|j: int| 0 <= j < i ==> #[trigger] str_of(items@[j]) != Some(clue_id@),
        decreases items@.len() - i,
    {
        match items[i].as_str() {
            Some(t) => {
                if str_eq(t, clue_id) {
                    assert(str_of(items@[i as int]) == Some(clue_id@));
                    return true;
                }
            },
            None => {},
        }
        i = i + 1;
    }
    false
}

/// A reveal entry is valid when it is a string whose trimmed form is
/// non-empty and may be revealed.
pub open spec fn reveal_item_ok(item: JsonValue, gs: JsonValue, ev: Option<Seq<char>>) -> bool {
    match str_of(item) {
        Some(s) => trim(s).len() > 0 && reveal_ok(trim(s), gs, ev),
        None => false,
    }
}

/// The clue id of a reveal entry.
pub open spec fn reveal_item_id(item: JsonValue) -> Seq<char> {
    trim(str_of(item)->0)
}

/// Checks every reveal entry, giving the trimmed clue ids.
fn check_reveals(items: &Vec<JsonValue>, game_state: &JsonValue, ev: Option<&str>) -> (r: Option<
    Vec<String>,
>)
    ensures
        (forall|i: int| 0 <= i < items@.len() ==> reveal_item_ok(
            #[trigger] items@[i],
            *game_state,
            match ev {
                Some(e) => Some(e@),
                None => None,
            },
        )) <==> r is Some,
        r matches Some(v) ==> v@.map_values(|s: String| s@) == items@.map_values(
            |it: JsonValue| reveal_item_id(it),
        ),
{
    let ghost evv = match ev {
        Some(e) => Some(e@),
        None => None,
    };
    let mut out: Vec<String> = Vec::new();
    let mut i: usize = 0;
    while i < items.len()
        invariant
            i <= items@.len(),
            evv == (match ev {
                Some(e) => Some(e@),
                None => None,
            }),
            forall|j: int| 0 <= j < i ==> reveal_item_ok(#[trigger] items@[j], *game_state, evv),
            out@.map_values(|s: String| s@) == items@.subrange(0, i as int).map_values(
                |it: JsonValue| reveal_item_id(it),
            ),
        decreases items@.len() - i,
    {
        let s = match items[i].as_str() {
            Some(s) => s,
            None => {
                assert(!reveal_item_ok(items@[i as int], *game_state, evv));
                return None;
            },
        };
        let t = trim_str(s);
        if t.as_str().is_empty() || !is_allowed_reveal(t.as_str(), game_state, ev) {
            assert(!reveal_item_ok(items@[i as int], *game_state, evv));
            return None;
        }
        let ghost old_out = out@;
        out.push(t);
        i = i + 1;
        proof {
            assert(out@.map_values(|s: String| s@) =~= old_out.map_values(|s: String| s@).push(
                reveal_item_id(items@[i - 1]),
            ));
            assert(items@.subrange(0, i as int).map_values(|it: JsonValue| reveal_item_id(it))
                =~= items@.subrange(0, i - 1).map_values(|it: JsonValue| reveal_item_id(it)).push(
                reveal_item_id(items@[i - 1]),
            ));
        }
    }
    assert(items@.subrange(0, items@.len() as int) =~= items@);
    Some(out)
}

/// Whether the optional `debug_tags` member is acceptable.
pub open spec fn debug_tags_ok(v: JsonValue) -> bool {
    match member(v, "debug_tags"@) {
        None => true,
        Some(JsonValue::Array(items)) => forall|i: int|
            0 <= i < items@.len() ==> #[trigger] str_of(items@[i]) is Some && debug_tag(
                str_of(items@[i])->0,
            ),
        Some(_) => false,
    }
}

fn check_debug_tags(v: &JsonValue) -> (r: bool)
    ensures
        r == debug_tags_ok(*v),
{
    let d = match v.get("debug_tags") {
        None => return true,
        Some(d) => d,
    };
    let items = match d.as_array() {
        Some(a) => a,
        None => return false,
    };
    let mut i: usize = 0;
    while i < items.len()
        invariant
            i <= items@.len(),
            member(*v, "debug_tags"@) == Some(JsonValue::Array(*items)),
            forall|j: int| 0 <= j < i ==> #[trigger] str_of(items@[j]) is Some && debug_tag(
                str_of(items@[j])->0,
            ),
        decreases items@.len() - i,
    {
        match items[i].as_str() {
            Some(t) => {
                if !is_debug_tag(t) {
                    return false;
                }
            },
            None => {
                assert(!(str_of(items@[i as int]) is Some));
                return false;
            },
        }
        i = i + 1;
    }
    true
}

/// Whether `confidence` is a number in `[0, 1]`.
pub open spec fn confidence_ok(v: JsonValue) -> bool {
    match member(v, "confidence"@) {
        Some(JsonValue::Number(n)) => in_unit_interval(n),
        _ => false,
    }
}

/// The checked fields of a reply: utterance, emotion, new stage, reason
/// for the change, revealed clue ids.
pub type ReplyView = (Seq<char>, Seq<char>, Option<Seq<char>>, Option<Seq<char>>, Seq<Seq<char>>);

pub open spec fn opt_str_view(o: Option<String>) -> Option<Seq<char>> {
    match o {
        Some(s) => Some(s@),
        None => None,
    }
}

impl ValidatedNarrativeReply {
    pub open spec fn view(self) -> ReplyView {
        (
            self.utterance@,
            self.emotion@,
            opt_str_view(self.confession_stage),
            opt_str_view(self.stage_change_reason),
            self.revealed_clues@.map_values(|s: String| s@),
        )
    }
}

/// Whether the reply carries a usable utterance: a string that is not
/// blank once trimmed and holds at most 500 characters.
pub open spec fn utterance_ok(v: JsonValue) -> bool {
    match member_str(v, "utterance"@) {
        Some(s) => 0 < trim(s).len() <= 500,
        None => false,
    }
}

/// The trimmed utterance.
pub open spec fn utterance_of(v: JsonValue) -> Seq<char> {
    trim(member_str(v, "utterance"@)->0)
}

pub open spec fn emotion_ok(v: JsonValue) -> bool {
    match member_str(v, "emotion"@) {
        Some(e) => valid_emotion(e),
        None => false,
    }
}

/// A stage change may only move one stage forward.
pub open spec fn transition_ok(cur: Seq<char>, next: Seq<char>) -> bool {
    match (stage_rank(cur), stage_rank(next)) {
        (Some(a), Some(b)) => b == a + 1,
        _ => false,
    }
}

/// A member that is present and not `null`.
pub open spec fn present(v: JsonValue, key: Seq<char>) -> bool {
    match member(v, key) {
        Some(m) => !(m is Null),
        None => false,
    }
}

/// The outcome of the `stage_delta` checks: the new stage and reason, or
/// an error code.
pub open spec fn delta_check(v: JsonValue, cur: Seq<char>, gs: JsonValue, ev: Option<Seq<char>>) -> Result<
    (Option<Seq<char>>, Option<Seq<char>>),
    Seq<char>,
> {
    match member(v, "stage_delta"@) {
        Some(JsonValue::Object(entries)) => {
            let d = JsonValue::Object(entries);
            if !all_delta_keys(entries@) {
                Err("invalid_field"@)
            } else {
                match member(d, "should_change"@) {
                    Some(JsonValue::Bool(true)) => {
                        match member_str(d, "new_stage"@) {
                            Some(ns) => if stage_rank(ns) is None {
                                Err("invalid_stage_delta"@)
                            } else {
                                match member_str(d, "reason"@) {
                                    Some(reason) => if trim(reason).len() == 0 {
                                        Err("invalid_stage_delta"@)
                                    } else if !transition_ok(cur, ns) {
                                        Err("invalid_stage_transition"@)
                                    } else if !evidence_ok(gs, ns, ev) {
                                        Err("missing_required_evidence"@)
                                    } else {
                                        Ok((Some(ns), Some(trim(reason))))
                                    },
                                    None => Err("invalid_stage_delta"@),
                                }
                            },
                            None => Err("invalid_stage_delta"@),
                        }
                    },
                    Some(JsonValue::Bool(false)) => if present(d, "new_stage"@) || present(
                        d,
                        "reason"@,
                    ) {
                        Err("invalid_stage_delta"@)
                    } else {
                        Ok((None, None))
                    },
                    _ => Err("invalid_stage_delta"@),
                }
            }
        },
        _ => Err("invalid_stage_delta"@),
    }
}

/// Whether every reveal entry may be revealed this turn.
pub open spec fn reveals_ok(v: JsonValue, gs: JsonValue, ev: Option<Seq<char>>) -> bool {
    match member(v, "reveals"@) {
        Some(JsonValue::Array(items)) => forall|i: int|
            0 <= i < items@.len() ==> reveal_item_ok(#[trigger] items@[i], gs, ev),
        _ => false,
    }
}

/// The clue ids of the reveal entries.
pub open spec fn reveal_ids(v: JsonValue) -> Seq<Seq<char>> {
    match member(v, "reveals"@) {
        Some(JsonValue::Array(items)) => items@.map_values(|it: JsonValue| reveal_item_id(it)),
        _ => seq![],
    }
}

/// The checks of a parsed reply, in the order they apply: the first that
/// fails gives the error code.
pub open spec fn reply_check(v: JsonValue, cur: Seq<char>, gs: JsonValue, ev: Option<Seq<char>>) -> Result<
    ReplyView,
    Seq<char>,
> {
    if has_forbidden(v) {
        Err("forbidden_field"@)
    } else if !(v is Object) {
        Err("summary_not_json_object"@)
    } else if !all_top_keys(v->Object_0@) {
        Err("invalid_field"@)
    } else if !utterance_ok(v) {
        Err("invalid_utterance"@)
    } else if term_hit(gs, utterance_of(v)) {
        Err("forbidden_term"@)
    } else if !emotion_ok(v) {
        Err("invalid_emotion"@)
    } else {
        match delta_check(v, cur, gs, ev) {
            Err(e) => Err(e),
            Ok((stage, reason)) => if !reveals_ok(v, gs, ev) {
                Err("invalid_reveal"@)
            } else if !debug_tags_ok(v) {
                Err("invalid_debug_tag"@)
            } else if !confidence_ok(v) {
                Err("invalid_confidence"@)
            } else {
                Ok(
                    (
                        utterance_of(v),
                        member_str(v, "emotion"@)->0,
                        stage,
                        reason,
                        reveal_ids(v),
                    ),
                )
            },
        }
    }
}

/// The checks of a summary: `parsed` is the summary parsed as JSON, `None`
/// when it is blank or not JSON.
pub open spec fn summary_check(
    parsed: Option<JsonValue>,
    cur: Seq<char>,
    gs: JsonValue,
    ev: Option<Seq<char>>,
) -> Result<ReplyView, Seq<char>> {
    match parsed {
        None => Err("summary_not_json_object"@),
        Some(v) => reply_check(v, cur, gs, ev),
    }
}

pub open spec fn outcome_view(r: Result<ValidatedNarrativeReply, NarrativeValidationError>) -> Result<
    ReplyView,
    Seq<char>,
> {
    match r {
        Ok(x) => Ok(x.view()),
        Err(e) => Err(e.0@),
    }
}

fn fail(code: &'static str) -> (r: Result<ValidatedNarrativeReply, NarrativeValidationError>)
    ensures
        outcome_view(r) == Err::<ReplyView, Seq<char>>(code@),
{
    Err(NarrativeValidationError(code))
}

/// Whether the confession may move from `current_stage` to `new_stage`:
/// exactly one stage forward.
pub fn is_valid_stage_transition(current_stage: &str, new_stage: &str) -> (r: bool)
    ensures
        r == transition_ok(current_stage@, new_stage@),
{
    let cur = match confession_stage_rank(current_stage) {
        Some(k) => k,
        None => return false,
    };
    let next = match confession_stage_rank(new_stage) {
        Some(k) => k,
        None => return false,
    };
    next == cur + 1
}

/// Whether every key of an object lies in the allowed set; the error is
/// `invalid_field`.
pub fn validate_keys(entries: &Vec<(String, JsonValue)>, delta: bool) -> (r: Result<
    (),
    NarrativeValidationError,
>)
    ensures
        (r is Ok) == (if delta { all_delta_keys(entries@) } else { all_top_keys(entries@) }),
        r matches Err(e) ==> e.0@ == "invalid_field"@,
{
    if keys_allowed(entries, delta) {
        Ok(())
    } else {
        Err(NarrativeValidationError("invalid_field"))
    }
}

fn check_delta(
    v: &JsonValue,
    current_confession_stage: &str,
    game_state: &JsonValue,
    request_evidence_id: Option<&str>,
) -> (r: Result<(Option<String>, Option<String>), &'static str>)
    ensures
        match r {
            Ok((a, b)) => delta_check(
                *v,
                current_confession_stage@,
                *game_state,
                opt_ref_view(request_evidence_id),
            ) == Ok::<(Option<Seq<char>>, Option<Seq<char>>), Seq<char>>(
                (opt_str_view(a), opt_str_view(b)),
            ),
            Err(e) => delta_check(
                *v,
                current_confession_stage@,
                *game_state,
                opt_ref_view(request_evidence_id),
            ) == Err::<(Option<Seq<char>>, Option<Seq<char>>), Seq<char>>(e@),
        },
{
    proof {
        reveal_strlit("invalid_stage_delta");
        reveal_strlit("invalid_field");
        reveal_strlit("invalid_stage_transition");
        reveal_strlit("missing_required_evidence");
    }
    let d = match v.get("stage_delta") {
        Some(d) => d,
        None => return Err("invalid_stage_delta"),
    };
    let entries = match d.as_object() {
        Some(e) => e,
        None => return Err("invalid_stage_delta"),
    };
    if !keys_allowed(entries, true) {
        return Err("invalid_field");
    }
    let should_change = match d.get("should_change") {
        Some(b) => match b.as_bool() {
            Some(b) => b,
            None => return Err("invalid_stage_delta"),
        },
        None => return Err("invalid_stage_delta"),
    };
    if should_change {
        let new_stage = match d.get("new_stage") {
            Some(m) => match m.as_str() {
                Some(s) => s,
                None => return Err("invalid_stage_delta"),
            },
            None => return Err("invalid_stage_delta"),
        };
        if confession_stage_rank(new_stage).is_none() {
            return Err("invalid_stage_delta");
        }
        let reason = match d.get("reason") {
            Some(m) => match m.as_str() {
                Some(s) => trim_str(s),
                None => return Err("invalid_stage_delta"),
            },
            None => return Err("invalid_stage_delta"),
        };
        if reason.as_str().is_empty() {
            return Err("invalid_stage_delta");
        }
        if !is_valid_stage_transition(current_confession_stage, new_stage) {
            return Err("invalid_stage_transition");
        }
        if !has_required_stage_evidence(game_state, new_stage, request_evidence_id) {
            return Err("missing_required_evidence");
        }
        Ok((Some(new_stage.to_owned()), Some(reason)))
    } else {
        let stage_set = match d.get("new_stage") {
            Some(m) => !m.is_null(),
            None => false,
        };
        let reason_set = match d.get("reason") {
            Some(m) => !m.is_null(),
            None => false,
        };
        if stage_set || reason_set {
            return Err("invalid_stage_delta");
        }
        Ok((None, None))
    }
}

pub open spec fn opt_ref_view(o: Option<&str>) -> Option<Seq<char>> {
    match o {
        Some(e) => Some(e@),
        None => None,
    }
}

/// Whether `p` is the summary as JSON: its trimmed text parsed, `None`
/// when it is blank or not JSON.
pub open spec fn summary_json(summary: Seq<char>, p: Option<JsonValue>) -> bool {
    if trim(summary).len() == 0 {
        p is None
    } else {
        match json_parse_error(trim(summary)) {
            Some(_) => p is None,
            None => p matches Some(v) && json_value(trim(summary), v),
        }
    }
}

/// Validates an agent's reply for one interrogation turn: the summary
/// text is trimmed and read as JSON, then checked as
/// [`validate_summary_value`] does.
pub fn validate_task_summary(
    summary: &str,
    current_confession_stage: &str,
    game_state: &JsonValue,
    request_evidence_id: Option<&str>,
) -> (r: Result<ValidatedNarrativeReply, NarrativeValidationError>)
    ensures
        exists|p: Option<JsonValue>|
            #[trigger] summary_json(summary@, p) && outcome_view(r) == summary_check(
                p,
                current_confession_stage@,
                *game_state,
                opt_ref_view(request_evidence_id),
            ),
{
    let t = trim_str(summary);
    if t.as_str().is_empty() {
        proof {
            reveal_strlit("");
        }
        let r = validate_summary_value(None, current_confession_stage, game_state, request_evidence_id);
        assert(summary_json(summary@, None));
        return r;
    }
    match parse_json_text(t.as_str()) {
        Ok(v) => {
            let r = validate_summary_value(Some(&v), current_confession_stage, game_state, request_evidence_id);
            assert(summary_json(summary@, Some(v)));
            r
        },
        Err(_) => {
            let r = validate_summary_value(None, current_confession_stage, game_state, request_evidence_id);
            assert(summary_json(summary@, None));
            r
        },
    }
}

/// Validates a parsed reply for one interrogation turn (`None` standing
/// for a summary that is blank or not JSON).  The result is the checked
/// reply, or the code of the first check that failed, as
/// [`summary_check`] states.
pub fn validate_summary_value(
    parsed: Option<&JsonValue>,
    current_confession_stage: &str,
    game_state: &JsonValue,
    request_evidence_id: Option<&str>,
) -> (r: Result<ValidatedNarrativeReply, NarrativeValidationError>)
    ensures
        outcome_view(r) == summary_check(
            match parsed {
                Some(v) => Some(*v),
                None => None,
            },
            current_confession_stage@,
            *game_state,
            opt_ref_view(request_evidence_id),
        ),
{
    proof {
        reveal_strlit("summary_not_json_object");
        reveal_strlit("forbidden_field");
        reveal_strlit("invalid_field");
        reveal_strlit("invalid_utterance");
        reveal_strlit("forbidden_term");
        reveal_strlit("invalid_emotion");
        reveal_strlit("invalid_reveal");
        reveal_strlit("invalid_debug_tag");
        reveal_strlit("invalid_confidence");
    }
    let v = match parsed {
        Some(v) => v,
        None => return fail("summary_not_json_object"),
    };
    if contains_forbidden_field(v) {
        return fail("forbidden_field");
    }
    let entries = match v.as_object() {
        Some(e) => e,
        None => return fail("summary_not_json_object"),
    };
    if !keys_allowed(entries, false) {
        return fail("invalid_field");
    }
    let utterance = match v.get("utterance") {
        Some(m) => match m.as_str() {
            Some(s) => trim_str(s),
            None => return fail("invalid_utterance"),
        },
        None => return fail("invalid_utterance"),
    };
    let n = chars_of(utterance.as_str()).len();
    if n == 0 || n > 500 {
        return fail("invalid_utterance");
    }
    if utterance_contains_forbidden_term(utterance.as_str(), game_state) {
        return fail("forbidden_term");
    }
    let emotion = match v.get("emotion") {
        Some(m) => match m.as_str() {
            Some(e) => e,
            None => return fail("invalid_emotion"),
        },
        None => return fail("invalid_emotion"),
    };
    if !is_valid_emotion(emotion) {
        return fail("invalid_emotion");
    }
    let (confession_stage, stage_change_reason) = match check_delta(
        v,
        current_confession_stage,
        game_state,
        request_evidence_id,
    ) {
        Ok(pair) => pair,
        Err(code) => return fail(code),
    };
    let reveals = match v.get("reveals") {
        Some(m) => match m.as_array() {
            Some(a) => a,
            None => return fail("invalid_reveal"),
        },
        None => return fail("invalid_reveal"),
    };
    let revealed_clues = match check_reveals(reveals, game_state, request_evidence_id) {
        Some(c) => c,
        None => return fail("invalid_reveal"),
    };
    if !check_debug_tags(v) {
        return fail("invalid_debug_tag");
    }
    let confident = match v.get("confidence") {
        Some(m) => match m.as_number() {
            Some(n) => n.in_unit_interval(),
            None => false,
        },
        None => false,
    };
    if !confident {
        return fail("invalid_confidence");
    }
    let out = ValidatedNarrativeReply {
        utterance,
        emotion: emotion.to_owned(),
        confession_stage,
        stage_change_reason,
        revealed_clues,
    };
    Ok(out)
}

} // verus!
