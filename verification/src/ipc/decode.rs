//! Reading a parsed JSON value as a typed protocol message.
//!
//! A message body is an object; each field is read by name, unknown
//! fields are ignored.  A `String` field must hold a string; an optional
//! string may be absent or `null`; a list of strings must be an array of
//! strings; a free-form field may hold any value but must be present; an
//! enumeration is its variant name (or an object whose single key is the
//! name and whose value is `null` or `{}`).
use vstd::prelude::*;

use crate::json::{lookup, push_field, JsonValue};
use crate::text::str_eq;
use crate::types::{
    Message, NarrativeSpeak, Outbox, PermissionDecision, PermissionRequest, PermissionResponse,
    ProjectContext, SafetyRules, SessionRejoin, SystemAck, SystemError, SystemErrorCode, SystemPing,
    SystemPong, TaskCard, TaskContext, TaskDispatch, TaskDone, TaskError, TaskStream,
};

verus! {

/// The entries of an object.
pub type Entries = Seq<(String, JsonValue)>;

// ── field readers (specifications) ─────────────────────────────────────

/// A required string field.
pub open spec fn str_at(es: Entries, k: Seq<char>) -> Option<String> {
    match lookup(es, k) {
        Some(JsonValue::String(s)) => Some(s),
        _ => None,
    }
}

/// An optional string field: `Some(None)` when absent or `null`, `None`
/// when it holds anything else than a string.
pub open spec fn opt_str_at(es: Entries, k: Seq<char>) -> Option<Option<String>> {
    match lookup(es, k) {
        None => Some(None),
        Some(JsonValue::Null) => Some(None),
        Some(JsonValue::String(s)) => Some(Some(s)),
        _ => None,
    }
}

pub open spec fn all_strings(items: Seq<JsonValue>) -> bool {
    forall|i: int| 0 <= i < items.len() ==> #[trigger] items[i] is String
}

pub open spec fn string_items(items: Seq<JsonValue>) -> Seq<String> {
    items.map_values(|j: JsonValue| j->String_0)
}

/// A list-of-strings field.
pub open spec fn strings_at(es: Entries, k: Seq<char>) -> Option<Seq<String>> {
    match lookup(es, k) {
        Some(JsonValue::Array(items)) => if all_strings(items@) {
            Some(string_items(items@))
        } else {
            None
        },
        _ => None,
    }
}

/// A boolean field.
pub open spec fn bool_at(es: Entries, k: Seq<char>) -> Option<bool> {
    match lookup(es, k) {
        Some(JsonValue::Bool(b)) => Some(b),
        _ => None,
    }
}

/// A list-of-values field.
pub open spec fn array_at(es: Entries, k: Seq<char>) -> Option<Seq<JsonValue>> {
    match lookup(es, k) {
        Some(JsonValue::Array(items)) => Some(items@),
        _ => None,
    }
}

/// A nested record field.
pub open spec fn object_at(es: Entries, k: Seq<char>) -> Option<Entries> {
    match lookup(es, k) {
        Some(JsonValue::Object(e)) => Some(e@),
        _ => None,
    }
}

/// The variant name a value spells for a unit-only enumeration.
pub open spec fn variant_name(v: JsonValue) -> Option<Seq<char>> {
    match v {
        JsonValue::String(s) => Some(s@),
        JsonValue::Object(e) => if e@.len() == 1 && match e@[0].1 {
            JsonValue::Null => true,
            JsonValue::Object(inner) => inner@.len() == 0,
            _ => false,
        } {
            Some(e@[0].0@)
        } else {
            None
        },
        _ => None,
    }
}

pub open spec fn code_named(n: Seq<char>) -> Option<SystemErrorCode> {
    if n == "malformed_json"@ {
        Some(SystemErrorCode::MalformedJson)
    } else if n == "missing_type"@ {
        Some(SystemErrorCode::MissingType)
    } else if n == "unknown_message_type"@ {
        Some(SystemErrorCode::UnknownMessageType)
    } else if n == "invalid_message"@ {
        Some(SystemErrorCode::InvalidMessage)
    } else {
        None
    }
}

pub open spec fn decision_named(n: Seq<char>) -> Option<PermissionDecision> {
    if n == "approved"@ {
        Some(PermissionDecision::Approved)
    } else if n == "denied"@ {
        Some(PermissionDecision::Denied)
    } else {
        None
    }
}

pub open spec fn code_at(es: Entries, k: Seq<char>) -> Option<SystemErrorCode> {
    match lookup(es, k) {
        Some(v) => match variant_name(v) {
            Some(n) => code_named(n),
            None => None,
        },
        None => None,
    }
}

pub open spec fn decision_at(es: Entries, k: Seq<char>) -> Option<PermissionDecision> {
    match lookup(es, k) {
        Some(v) => match variant_name(v) {
            Some(n) => decision_named(n),
            None => None,
        },
        None => None,
    }
}

// ── lookup lemmas ──────────────────────────────────────────────────────

proof fn lemma_lookup_remove(s: Entries, i: int, k: Seq<char>)
    requires
        0 <= i < s.len(),
        s[i].0@ != k,
    ensures
        lookup(s.remove(i), k) == lookup(s, k),
    decreases i,
{
    if i == 0 {
        assert(s.remove(0) =~= s.drop_first());
    } else {
        let t = s.remove(i);
        assert(t[0] == s[0]);
        if s[0].0@ != k {
            assert(t.drop_first() =~= s.drop_first().remove(i - 1));
            lemma_lookup_remove(s.drop_first(), i - 1, k);
        }
    }
}

proof fn lemma_lookup_found(s: Entries, i: int, k: Seq<char>)
    requires
        0 <= i < s.len(),
        s[i].0@ == k,
        forall|j: int| 0 <= j < i ==> #[trigger] s[j].0@ != k,
    ensures
        lookup(s, k) == Some(s[i].1),
    decreases i,
{
    if i > 0 {
        let t = s.drop_first();
        assert forall|j: int| 0 <= j < i - 1 implies #[trigger] t[j].0@ != k by {
            assert(t[j] == s[j + 1]);
        }
        lemma_lookup_found(t, i - 1, k);
    }
}

proof fn lemma_lookup_absent(s: Entries, k: Seq<char>)
    requires
        forall|j: int| 0 <= j < s.len() ==> #[trigger] s[j].0@ != k,
    ensures
        lookup(s, k) is None,
    decreases s.len(),
{
    if s.len() > 0 {
        let t = s.drop_first();
        assert forall|j: int| 0 <= j < t.len() implies #[trigger] t[j].0@ != k by {
            assert(t[j] == s[j + 1]);
        }
        lemma_lookup_absent(t, k);
    }
}

// ── field readers (code) ───────────────────────────────────────────────

/// Removes the field `key` from the entries and gives its value; the
/// other fields read as before.
pub fn take(es: &mut Vec<(String, JsonValue)>, key: &str) -> (r: Option<JsonValue>)
    ensures
        r == lookup(old(es)@, key@),
        forall|k: Seq<char>| k != key@ ==> #[trigger] lookup(final(es)@, k) == lookup(old(es)@, k),
{
    let ghost orig = es@;
    assert(orig == old(es)@);
    let mut i: usize = 0;
    while i < es.len()
        invariant
            i <= es@.len(),
            es@ == orig,
            orig == old(es)@,
            forall|j: int| 0 <= j < i ==> #[trigger] orig[j].0@ != key@,
        decreases es@.len() - i,
    {
        if str_eq(es[i].0.as_str(), key) {
            proof {
                lemma_lookup_found(orig, i as int, key@);
            }
            let entry = es.remove(i);
            let v = entry.1;
            proof {
                assert(v == orig[i as int].1);
                assert forall|k: Seq<char>| k != key@ implies #[trigger] lookup(es@, k) == lookup(
                    orig,
                    k,
                ) by {
                    lemma_lookup_remove(orig, i as int, k);
                }
            }
            return Some(v);
        }
        i = i + 1;
    }
    proof {
        lemma_lookup_absent(orig, key@);
    }
    None
}

fn take_string(es: &mut Vec<(String, JsonValue)>, key: &str) -> (r: Option<String>)
    ensures
        r == str_at(old(es)@, key@),
        forall|k: Seq<char>| k != key@ ==> #[trigger] lookup(final(es)@, k) == lookup(old(es)@, k),
{
    match take(es, key) {
        Some(JsonValue::String(s)) => Some(s),
        _ => None,
    }
}

fn take_opt_string(es: &mut Vec<(String, JsonValue)>, key: &str) -> (r: Option<Option<String>>)
    ensures
        r == opt_str_at(old(es)@, key@),
        forall|k: Seq<char>| k != key@ ==> #[trigger] lookup(final(es)@, k) == lookup(old(es)@, k),
{
    match take(es, key) {
        None => Some(None),
        Some(JsonValue::Null) => Some(None),
        Some(JsonValue::String(s)) => Some(Some(s)),
        _ => None,
    }
}

fn into_strings(items: Vec<JsonValue>) -> (r: Option<Vec<String>>)
    ensures
        (r is Some) == all_strings(items@),
        r matches Some(v) ==> v@ == string_items(items@),
{
    let ghost orig = items@;
    let mut rest = items;
    let mut out: Vec<String> = Vec::new();
    let ghost mut k: int = 0;
    while rest.len() > 0
        invariant
            0 <= k <= orig.len(),
            orig == items@,
            rest@ == orig.subrange(k, orig.len() as int),
            all_strings(orig.subrange(0, k)),
            out@ == string_items(orig.subrange(0, k)),
        decreases rest@.len(),
    {
        let x = rest.remove(0);
        proof {
            assert(x == orig[k]);
        }
        match x {
            JsonValue::String(s) => {
                out.push(s);
                proof {
                    assert(orig.subrange(0, k + 1) =~= orig.subrange(0, k).push(orig[k]));
                    assert(all_strings(orig.subrange(0, k + 1)));
                    assert(out@ =~= string_items(orig.subrange(0, k + 1)));
                    k = k + 1;
                    assert(rest@ =~= orig.subrange(k, orig.len() as int));
                }
            },
            _ => {
                proof {
                    assert(!(orig[k] is String));
                    assert(!all_strings(orig));
                }
                return None;
            },
        }
    }
    proof {
        assert(orig.subrange(0, k) =~= orig);
    }
    Some(out)
}

fn take_strings(es: &mut Vec<(String, JsonValue)>, key: &str) -> (r: Option<Vec<String>>)
    ensures
        match strings_at(old(es)@, key@) {
            Some(s) => r matches Some(v) && v@ == s,
            None => r is None,
        },
        forall|k: Seq<char>| k != key@ ==> #[trigger] lookup(final(es)@, k) == lookup(old(es)@, k),
{
    match take(es, key) {
        Some(JsonValue::Array(items)) => into_strings(items),
        _ => None,
    }
}

fn take_bool(es: &mut Vec<(String, JsonValue)>, key: &str) -> (r: Option<bool>)
    ensures
        r == bool_at(old(es)@, key@),
        forall|k: Seq<char>| k != key@ ==> #[trigger] lookup(final(es)@, k) == lookup(old(es)@, k),
{
    match take(es, key) {
        Some(JsonValue::Bool(b)) => Some(b),
        _ => None,
    }
}

fn take_array(es: &mut Vec<(String, JsonValue)>, key: &str) -> (r: Option<Vec<JsonValue>>)
    ensures
        match array_at(old(es)@, key@) {
            Some(s) => r matches Some(v) && v@ == s,
            None => r is None,
        },
        forall|k: Seq<char>| k != key@ ==> #[trigger] lookup(final(es)@, k) == lookup(old(es)@, k),
{
    match take(es, key) {
        Some(JsonValue::Array(items)) => Some(items),
        _ => None,
    }
}

fn take_object(es: &mut Vec<(String, JsonValue)>, key: &str) -> (r: Option<
    Vec<(String, JsonValue)>,
>)
    ensures
        match object_at(old(es)@, key@) {
            Some(s) => r matches Some(v) && v@ == s,
            None => r is None,
        },
        forall|k: Seq<char>| k != key@ ==> #[trigger] lookup(final(es)@, k) == lookup(old(es)@, k),
{
    match take(es, key) {
        Some(JsonValue::Object(e)) => Some(e),
        _ => None,
    }
}

fn read_variant_name(v: &JsonValue) -> (r: Option<&str>)
    ensures
        match variant_name(*v) {
            Some(n) => r matches Some(s) && s@ == n,
            None => r is None,
        },
{
    match v {
        JsonValue::String(s) => Some(s.as_str()),
        JsonValue::Object(e) => {
            if e.len() != 1 {
                return None;
            }
            let ok = match &e[0].1 {
                JsonValue::Null => true,
                JsonValue::Object(inner) => inner.len() == 0,
                _ => false,
            };
            if ok {
                Some(e[0].0.as_str())
            } else {
                None
            }
        },
        _ => None,
    }
}

fn take_code(es: &mut Vec<(String, JsonValue)>, key: &str) -> (r: Option<SystemErrorCode>)
    ensures
        r == code_at(old(es)@, key@),
        forall|k: Seq<char>| k != key@ ==> #[trigger] lookup(final(es)@, k) == lookup(old(es)@, k),
{
    proof {
        reveal_strlit("malformed_json");
        reveal_strlit("missing_type");
        reveal_strlit("unknown_message_type");
        reveal_strlit("invalid_message");
    }
    let v = match take(es, key) {
        Some(v) => v,
        None => return None,
    };
    let n = match read_variant_name(&v) {
        Some(n) => n,
        None => return None,
    };
    if str_eq(n, "malformed_json") {
        Some(SystemErrorCode::MalformedJson)
    } else if str_eq(n, "missing_type") {
        Some(SystemErrorCode::MissingType)
    } else if str_eq(n, "unknown_message_type") {
        Some(SystemErrorCode::UnknownMessageType)
    } else if str_eq(n, "invalid_message") {
        Some(SystemErrorCode::InvalidMessage)
    } else {
        None
    }
}

fn take_decision(es: &mut Vec<(String, JsonValue)>, key: &str) -> (r: Option<PermissionDecision>)
    ensures
        r == decision_at(old(es)@, key@),
        forall|k: Seq<char>| k != key@ ==> #[trigger] lookup(final(es)@, k) == lookup(old(es)@, k),
{
    let v = match take(es, key) {
        Some(v) => v,
        None => return None,
    };
    let n = match read_variant_name(&v) {
        Some(n) => n,
        None => return None,
    };
    if str_eq(n, "approved") {
        Some(PermissionDecision::Approved)
    } else if str_eq(n, "denied") {
        Some(PermissionDecision::Denied)
    } else {
        None
    }
}

// ── records ────────────────────────────────────────────────────────────

/// Whether the entries can be read as a `SystemPing`.
pub open spec fn ping_ok(es: Entries) -> bool {
    &&& str_at(es, "ts"@) is Some
    &&& str_at(es, "req_id"@) is Some
}

/// Whether `x` holds the fields of the entries.
pub open spec fn ping_is(es: Entries, x: SystemPing) -> bool {
    &&& str_at(es, "ts"@) == Some(x.ts)
    &&& str_at(es, "req_id"@) == Some(x.req_id)
}

fn decode_ping(es: Vec<(String, JsonValue)>) -> (r: Option<SystemPing>)
    ensures
        (r is Some) == ping_ok(es@),
        r matches Some(x) ==> ping_is(es@, x),
{
    proof {
        reveal_strlit("ts");
        reveal_strlit("req_id");
        assert("ts"@.len() == 2);
        assert("req_id"@.len() == 6);
    }
    let mut es = es;
    let ts = take_string(&mut es, "ts");
    let req_id = take_string(&mut es, "req_id");
    if ts.is_none() || req_id.is_none() {
        return None;
    }
    Some(SystemPing {
        ts: ts.unwrap(),
        req_id: req_id.unwrap(),
    })
}

/// Whether the entries can be read as a `SystemPong`.
pub open spec fn pong_ok(es: Entries) -> bool {
    &&& str_at(es, "ts"@) is Some
    &&& str_at(es, "req_id"@) is Some
}

/// Whether `x` holds the fields of the entries.
pub open spec fn pong_is(es: Entries, x: SystemPong) -> bool {
    &&& str_at(es, "ts"@) == Some(x.ts)
    &&& str_at(es, "req_id"@) == Some(x.req_id)
}

fn decode_pong(es: Vec<(String, JsonValue)>) -> (r: Option<SystemPong>)
    ensures
        (r is Some) == pong_ok(es@),
        r matches Some(x) ==> pong_is(es@, x),
{
    proof {
        reveal_strlit("ts");
        reveal_strlit("req_id");
        assert("ts"@.len() == 2);
        assert("req_id"@.len() == 6);
    }
    let mut es = es;
    let ts = take_string(&mut es, "ts");
    let req_id = take_string(&mut es, "req_id");
    if ts.is_none() || req_id.is_none() {
        return None;
    }
    Some(SystemPong {
        ts: ts.unwrap(),
        req_id: req_id.unwrap(),
    })
}

/// Whether the entries can be read as a `SystemError`.
pub open spec fn system_error_ok(es: Entries) -> bool {
    &&& str_at(es, "ts"@) is Some
    &&& opt_str_at(es, "req_id"@) is Some
    &&& code_at(es, "error"@) is Some
    &&& str_at(es, "detail"@) is Some
}

/// Whether `x` holds the fields of the entries.
pub open spec fn system_error_is(es: Entries, x: SystemError) -> bool {
    &&& str_at(es, "ts"@) == Some(x.ts)
    &&& opt_str_at(es, "req_id"@) == Some(x.req_id)
    &&& code_at(es, "error"@) == Some(x.error)
    &&& str_at(es, "detail"@) == Some(x.detail)
}

fn decode_system_error(es: Vec<(String, JsonValue)>) -> (r: Option<SystemError>)
    ensures
        (r is Some) == system_error_ok(es@),
        r matches Some(x) ==> system_error_is(es@, x),
{
    proof {
        reveal_strlit("ts");
        reveal_strlit("req_id");
        reveal_strlit("error");
        reveal_strlit("detail");
        assert("ts"@.len() == 2);
        assert("req_id"@.len() == 6);
        assert("error"@.len() == 5);
        assert("detail"@.len() == 6);
        assert("req_id"@[0] != "detail"@[0]);
    }
    let mut es = es;
    let ts = take_string(&mut es, "ts");
    let req_id = take_opt_string(&mut es, "req_id");
    let error = take_code(&mut es, "error");
    let detail = take_string(&mut es, "detail");
    if ts.is_none() || req_id.is_none() || error.is_none() || detail.is_none() {
        return None;
    }
    Some(SystemError {
        ts: ts.unwrap(),
        req_id: req_id.unwrap(),
        error: error.unwrap(),
        detail: detail.unwrap(),
    })
}

/// Whether the entries can be read as a `ProjectContext`.
pub open spec fn project_context_ok(es: Entries) -> bool {
    &&& str_at(es, "name"@) is Some
    &&& lookup(es, "data"@) is Some
    &&& strings_at(es, "global_must_avoid"@) is Some
}

/// Whether `x` holds the fields of the entries.
pub open spec fn project_context_is(es: Entries, x: ProjectContext) -> bool {
    &&& str_at(es, "name"@) == Some(x.name)
    &&& lookup(es, "data"@) == Some(x.data)
    &&& strings_at(es, "global_must_avoid"@) == Some(x.global_must_avoid@)
}

fn decode_project_context(es: Vec<(String, JsonValue)>) -> (r: Option<ProjectContext>)
    ensures
        (r is Some) == project_context_ok(es@),
        r matches Some(x) ==> project_context_is(es@, x),
{
    proof {
        reveal_strlit("name");
        reveal_strlit("data");
        reveal_strlit("global_must_avoid");
        assert("name"@.len() == 4);
        assert("data"@.len() == 4);
        assert("global_must_avoid"@.len() == 17);
        assert("name"@[0] != "data"@[0]);
    }
    let mut es = es;
    let name = take_string(&mut es, "name");
    let data = take(&mut es, "data");
    let global_must_avoid = take_strings(&mut es, "global_must_avoid");
    if name.is_none() || data.is_none() || global_must_avoid.is_none() {
        return None;
    }
    Some(ProjectContext {
        name: name.unwrap(),
        data: data.unwrap(),
        global_must_avoid: global_must_avoid.unwrap(),
    })
}

/// Whether the entries can be read as a `TaskContext`.
pub open spec fn task_context_ok(es: Entries) -> bool {
    &&& lookup(es, "user_preferences"@) is Some
    &&& match object_at(es, "project_context"@) {
        Some(e) => project_context_ok(e),
        None => false,
    }
    &&& lookup(es, "relevant_feedback"@) is Some
}

/// Whether `x` holds the fields of the entries.
pub open spec fn task_context_is(es: Entries, x: TaskContext) -> bool {
    &&& lookup(es, "user_preferences"@) == Some(x.user_preferences)
    &&& match object_at(es, "project_context"@) {
        Some(e) => project_context_is(e, x.project_context),
        None => false,
    }
    &&& lookup(es, "relevant_feedback"@) == Some(x.relevant_feedback)
}

fn decode_task_context(es: Vec<(String, JsonValue)>) -> (r: Option<TaskContext>)
    ensures
        (r is Some) == task_context_ok(es@),
        r matches Some(x) ==> task_context_is(es@, x),
{
    proof {
        reveal_strlit("user_preferences");
        reveal_strlit("project_context");
        reveal_strlit("relevant_feedback");
        assert("user_preferences"@.len() == 16);
        assert("project_context"@.len() == 15);
        assert("relevant_feedback"@.len() == 17);
    }
    let mut es = es;
    let user_preferences = take(&mut es, "user_preferences");
    let project_context = match take_object(&mut es, "project_context") {
        Some(e) => decode_project_context(e),
        None => None,
    };
    let relevant_feedback = take(&mut es, "relevant_feedback");
    if user_preferences.is_none() || project_context.is_none() || relevant_feedback.is_none() {
        return None;
    }
    Some(TaskContext {
        user_preferences: user_preferences.unwrap(),
        project_context: project_context.unwrap(),
        relevant_feedback: relevant_feedback.unwrap(),
    })
}

/// Whether the entries can be read as a `SafetyRules`.
pub open spec fn safety_rules_ok(es: Entries) -> bool {
    &&& strings_at(es, "allowed_paths"@) is Some
    &&& strings_at(es, "denied_commands"@) is Some
}

/// Whether `x` holds the fields of the entries.
pub open spec fn safety_rules_is(es: Entries, x: SafetyRules) -> bool {
    &&& strings_at(es, "allowed_paths"@) == Some(x.allowed_paths@)
    &&& strings_at(es, "denied_commands"@) == Some(x.denied_commands@)
}

fn decode_safety_rules(es: Vec<(String, JsonValue)>) -> (r: Option<SafetyRules>)
    ensures
        (r is Some) == safety_rules_ok(es@),
        r matches Some(x) ==> safety_rules_is(es@, x),
{
    proof {
        reveal_strlit("allowed_paths");
        reveal_strlit("denied_commands");
        assert("allowed_paths"@.len() == 13);
        assert("denied_commands"@.len() == 15);
    }
    let mut es = es;
    let allowed_paths = take_strings(&mut es, "allowed_paths");
    let denied_commands = take_strings(&mut es, "denied_commands");
    if allowed_paths.is_none() || denied_commands.is_none() {
        return None;
    }
    Some(SafetyRules {
        allowed_paths: allowed_paths.unwrap(),
        denied_commands: denied_commands.unwrap(),
    })
}

/// Whether the entries can be read as a `TaskCard`.
pub open spec fn task_card_ok(es: Entries) -> bool {
    &&& str_at(es, "schema_version"@) is Some
    &&& str_at(es, "task_card_id"@) is Some
    &&& str_at(es, "project"@) is Some
    &&& str_at(es, "created_at"@) is Some
    &&& str_at(es, "status"@) is Some
    &&& str_at(es, "goal"@) is Some
    &&& lookup(es, "compiled_intent"@) is Some
    &&& match object_at(es, "context"@) {
        Some(e) => task_context_ok(e),
        None => false,
    }
    &&& lookup(es, "execution_plan"@) is Some
    &&& lookup(es, "acceptance_criteria"@) is Some
    &&& strings_at(es, "allowed_files"@) is Some
    &&& match object_at(es, "safety"@) {
        Some(e) => safety_rules_ok(e),
        None => false,
    }
    &&& lookup(es, "output_contract"@) is Some
    &&& lookup(es, "review_gate_criteria"@) is Some
}

/// Whether `x` holds the fields of the entries.
pub open spec fn task_card_is(es: Entries, x: TaskCard) -> bool {
    &&& str_at(es, "schema_version"@) == Some(x.schema_version)
    &&& str_at(es, "task_card_id"@) == Some(x.task_card_id)
    &&& str_at(es, "project"@) == Some(x.project)
    &&& str_at(es, "created_at"@) == Some(x.created_at)
    &&& str_at(es, "status"@) == Some(x.status)
    &&& str_at(es, "goal"@) == Some(x.goal)
    &&& lookup(es, "compiled_intent"@) == Some(x.compiled_intent)
    &&& match object_at(es, "context"@) {
        Some(e) => task_context_is(e, x.context),
        None => false,
    }
    &&& lookup(es, "execution_plan"@) == Some(x.execution_plan)
    &&& lookup(es, "acceptance_criteria"@) == Some(x.acceptance_criteria)
    &&& strings_at(es, "allowed_files"@) == Some(x.allowed_files@)
    &&& match object_at(es, "safety"@) {
        Some(e) => safety_rules_is(e, x.safety),
        None => false,
    }
    &&& lookup(es, "output_contract"@) == Some(x.output_contract)
    &&& lookup(es, "review_gate_criteria"@) == Some(x.review_gate_criteria)
}

fn decode_task_card(es: Vec<(String, JsonValue)>) -> (r: Option<TaskCard>)
    ensures
        (r is Some) == task_card_ok(es@),
        r matches Some(x) ==> task_card_is(es@, x),
{
    proof {
        reveal_strlit("schema_version");
        reveal_strlit("task_card_id");
        reveal_strlit("project");
        reveal_strlit("created_at");
        reveal_strlit("status");
        reveal_strlit("goal");
        reveal_strlit("compiled_intent");
        reveal_strlit("context");
        reveal_strlit("execution_plan");
        reveal_strlit("acceptance_criteria");
        reveal_strlit("allowed_files");
        reveal_strlit("safety");
        reveal_strlit("output_contract");
        reveal_strlit("review_gate_criteria");
        assert("schema_version"@.len() == 14);
        assert("task_card_id"@.len() == 12);
        assert("project"@.len() == 7);
        assert("created_at"@.len() == 10);
        assert("status"@.len() == 6);
        assert("goal"@.len() == 4);
        assert("compiled_intent"@.len() == 15);
        assert("context"@.len() == 7);
        assert("execution_plan"@.len() == 14);
        assert("acceptance_criteria"@.len() == 19);
        assert("allowed_files"@.len() == 13);
        assert("safety"@.len() == 6);
        assert("output_contract"@.len() == 15);
        assert("review_gate_criteria"@.len() == 20);
        assert("schema_version"@[0] != "execution_plan"@[0]);
        assert("project"@[0] != "context"@[0]);
        assert("status"@[1] != "safety"@[1]);
        assert("compiled_intent"@[0] != "output_contract"@[0]);
    }
    let mut es = es;
    let schema_version = take_string(&mut es, "schema_version");
    let task_card_id = take_string(&mut es, "task_card_id");
    let project = take_string(&mut es, "project");
    let created_at = take_string(&mut es, "created_at");
    let status = take_string(&mut es, "status");
    let goal = take_string(&mut es, "goal");
    let compiled_intent = take(&mut es, "compiled_intent");
    let context = match take_object(&mut es, "context") {
        Some(e) => decode_task_context(e),
        None => None,
    };
    let execution_plan = take(&mut es, "execution_plan");
    let acceptance_criteria = take(&mut es, "acceptance_criteria");
    let allowed_files = take_strings(&mut es, "allowed_files");
    let safety = match take_object(&mut es, "safety") {
        Some(e) => decode_safety_rules(e),
        None => None,
    };
    let output_contract = take(&mut es, "output_contract");
    let review_gate_criteria = take(&mut es, "review_gate_criteria");
    if schema_version.is_none() || task_card_id.is_none() || project.is_none() || created_at.is_none() || status.is_none() || goal.is_none() || compiled_intent.is_none() || context.is_none() || execution_plan.is_none() || acceptance_criteria.is_none() || allowed_files.is_none() || safety.is_none() || output_contract.is_none() || review_gate_criteria.is_none() {
        return None;
    }
    Some(TaskCard {
        schema_version: schema_version.unwrap(),
        task_card_id: task_card_id.unwrap(),
        project: project.unwrap(),
        created_at: created_at.unwrap(),
        status: status.unwrap(),
        goal: goal.unwrap(),
        compiled_intent: compiled_intent.unwrap(),
        context: context.unwrap(),
        execution_plan: execution_plan.unwrap(),
        acceptance_criteria: acceptance_criteria.unwrap(),
        allowed_files: allowed_files.unwrap(),
        safety: safety.unwrap(),
        output_contract: output_contract.unwrap(),
        review_gate_criteria: review_gate_criteria.unwrap(),
    })
}

/// Whether the entries can be read as a `Outbox`.
pub open spec fn outbox_ok(es: Entries) -> bool {
    &&& str_at(es, "schema_version"@) is Some
    &&& str_at(es, "task_id"@) is Some
    &&& str_at(es, "agent_id"@) is Some
    &&& str_at(es, "status"@) is Some
    &&& str_at(es, "summary"@) is Some
    &&& strings_at(es, "changed_files"@) is Some
    &&& str_at(es, "changed_files_source"@) is Some
    &&& lookup(es, "verification"@) is Some
    &&& lookup(es, "evidence"@) is Some
    &&& strings_at(es, "known_risks"@) is Some
    &&& strings_at(es, "errors"@) is Some
    &&& array_at(es, "error_taxonomy"@) is Some
    &&& bool_at(es, "needs_human_review"@) is Some
    &&& strings_at(es, "notes"@) is Some
}

/// Whether `x` holds the fields of the entries.
pub open spec fn outbox_is(es: Entries, x: Outbox) -> bool {
    &&& str_at(es, "schema_version"@) == Some(x.schema_version)
    &&& str_at(es, "task_id"@) == Some(x.task_id)
    &&& str_at(es, "agent_id"@) == Some(x.agent_id)
    &&& str_at(es, "status"@) == Some(x.status)
    &&& str_at(es, "summary"@) == Some(x.summary)
    &&& strings_at(es, "changed_files"@) == Some(x.changed_files@)
    &&& str_at(es, "changed_files_source"@) == Some(x.changed_files_source)
    &&& lookup(es, "verification"@) == Some(x.verification)
    &&& lookup(es, "evidence"@) == Some(x.evidence)
    &&& strings_at(es, "known_risks"@) == Some(x.known_risks@)
    &&& strings_at(es, "errors"@) == Some(x.errors@)
    &&& array_at(es, "error_taxonomy"@) == Some(x.error_taxonomy@)
    &&& bool_at(es, "needs_human_review"@) == Some(x.needs_human_review)
    &&& strings_at(es, "notes"@) == Some(x.notes@)
}

fn decode_outbox(es: Vec<(String, JsonValue)>) -> (r: Option<Outbox>)
    ensures
        (r is Some) == outbox_ok(es@),
        r matches Some(x) ==> outbox_is(es@, x),
{
    proof {
        reveal_strlit("schema_version");
        reveal_strlit("task_id");
        reveal_strlit("agent_id");
        reveal_strlit("status");
        reveal_strlit("summary");
        reveal_strlit("changed_files");
        reveal_strlit("changed_files_source");
        reveal_strlit("verification");
        reveal_strlit("evidence");
        reveal_strlit("known_risks");
        reveal_strlit("errors");
        reveal_strlit("error_taxonomy");
        reveal_strlit("needs_human_review");
        reveal_strlit("notes");
        assert("schema_version"@.len() == 14);
        assert("task_id"@.len() == 7);
        assert("agent_id"@.len() == 8);
        assert("status"@.len() == 6);
        assert("summary"@.len() == 7);
        assert("changed_files"@.len() == 13);
        assert("changed_files_source"@.len() == 20);
        assert("verification"@.len() == 12);
        assert("evidence"@.len() == 8);
        assert("known_risks"@.len() == 11);
        assert("errors"@.len() == 6);
        assert("error_taxonomy"@.len() == 14);
        assert("needs_human_review"@.len() == 18);
        assert("notes"@.len() == 5);
        assert("schema_version"@[0] != "error_taxonomy"@[0]);
        assert("task_id"@[0] != "summary"@[0]);
        assert("agent_id"@[0] != "evidence"@[0]);
        assert("status"@[0] != "errors"@[0]);
    }
    let mut es = es;
    let schema_version = take_string(&mut es, "schema_version");
    let task_id = take_string(&mut es, "task_id");
    let agent_id = take_string(&mut es, "agent_id");
    let status = take_string(&mut es, "status");
    let summary = take_string(&mut es, "summary");
    let changed_files = take_strings(&mut es, "changed_files");
    let changed_files_source = take_string(&mut es, "changed_files_source");
    let verification = take(&mut es, "verification");
    let evidence = take(&mut es, "evidence");
    let known_risks = take_strings(&mut es, "known_risks");
    let errors = take_strings(&mut es, "errors");
    let error_taxonomy = take_array(&mut es, "error_taxonomy");
    let needs_human_review = take_bool(&mut es, "needs_human_review");
    let notes = take_strings(&mut es, "notes");
    if schema_version.is_none() || task_id.is_none() || agent_id.is_none() || status.is_none() || summary.is_none() || changed_files.is_none() || changed_files_source.is_none() || verification.is_none() || evidence.is_none() || known_risks.is_none() || errors.is_none() || error_taxonomy.is_none() || needs_human_review.is_none() || notes.is_none() {
        return None;
    }
    Some(Outbox {
        schema_version: schema_version.unwrap(),
        task_id: task_id.unwrap(),
        agent_id: agent_id.unwrap(),
        status: status.unwrap(),
        summary: summary.unwrap(),
        changed_files: changed_files.unwrap(),
        changed_files_source: changed_files_source.unwrap(),
        verification: verification.unwrap(),
        evidence: evidence.unwrap(),
        known_risks: known_risks.unwrap(),
        errors: errors.unwrap(),
        error_taxonomy: error_taxonomy.unwrap(),
        needs_human_review: needs_human_review.unwrap(),
        notes: notes.unwrap(),
    })
}

/// Whether the entries can be read as a `TaskDispatch`.
pub open spec fn task_dispatch_ok(es: Entries) -> bool {
    &&& str_at(es, "ts"@) is Some
    &&& opt_str_at(es, "event_id"@) is Some
    &&& str_at(es, "req_id"@) is Some
    &&& str_at(es, "agent_id"@) is Some
    &&& str_at(es, "task_id"@) is Some
    &&& match object_at(es, "task_card"@) {
        Some(e) => task_card_ok(e),
        None => false,
    }
}

/// Whether `x` holds the fields of the entries.
pub open spec fn task_dispatch_is(es: Entries, x: TaskDispatch) -> bool {
    &&& str_at(es, "ts"@) == Some(x.ts)
    &&& opt_str_at(es, "event_id"@) == Some(x.event_id)
    &&& str_at(es, "req_id"@) == Some(x.req_id)
    &&& str_at(es, "agent_id"@) == Some(x.agent_id)
    &&& str_at(es, "task_id"@) == Some(x.task_id)
    &&& match object_at(es, "task_card"@) {
        Some(e) => task_card_is(e, x.task_card),
        None => false,
    }
}

fn decode_task_dispatch(es: Vec<(String, JsonValue)>) -> (r: Option<TaskDispatch>)
    ensures
        (r is Some) == task_dispatch_ok(es@),
        r matches Some(x) ==> task_dispatch_is(es@, x),
{
    proof {
        reveal_strlit("ts");
        reveal_strlit("event_id");
        reveal_strlit("req_id");
        reveal_strlit("agent_id");
        reveal_strlit("task_id");
        reveal_strlit("task_card");
        assert("ts"@.len() == 2);
        assert("event_id"@.len() == 8);
        assert("req_id"@.len() == 6);
        assert("agent_id"@.len() == 8);
        assert("task_id"@.len() == 7);
        assert("task_card"@.len() == 9);
        assert("event_id"@[0] != "agent_id"@[0]);
    }
    let mut es = es;
    let ts = take_string(&mut es, "ts");
    let event_id = take_opt_string(&mut es, "event_id");
    let req_id = take_string(&mut es, "req_id");
    let agent_id = take_string(&mut es, "agent_id");
    let task_id = take_string(&mut es, "task_id");
    let task_card = match take_object(&mut es, "task_card") {
        Some(e) => decode_task_card(e),
        None => None,
    };
    if ts.is_none() || event_id.is_none() || req_id.is_none() || agent_id.is_none() || task_id.is_none() || task_card.is_none() {
        return None;
    }
    Some(TaskDispatch {
        ts: ts.unwrap(),
        event_id: event_id.unwrap(),
        req_id: req_id.unwrap(),
        agent_id: agent_id.unwrap(),
        task_id: task_id.unwrap(),
        task_card: task_card.unwrap(),
    })
}

/// Whether the entries can be read as a `TaskStream`.
pub open spec fn task_stream_ok(es: Entries) -> bool {
    &&& str_at(es, "ts"@) is Some
    &&& opt_str_at(es, "event_id"@) is Some
    &&& str_at(es, "req_id"@) is Some
    &&& str_at(es, "agent_id"@) is Some
    &&& str_at(es, "task_id"@) is Some
    &&& str_at(es, "chunk"@) is Some
}

/// Whether `x` holds the fields of the entries.
pub open spec fn task_stream_is(es: Entries, x: TaskStream) -> bool {
    &&& str_at(es, "ts"@) == Some(x.ts)
    &&& opt_str_at(es, "event_id"@) == Some(x.event_id)
    &&& str_at(es, "req_id"@) == Some(x.req_id)
    &&& str_at(es, "agent_id"@) == Some(x.agent_id)
    &&& str_at(es, "task_id"@) == Some(x.task_id)
    &&& str_at(es, "chunk"@) == Some(x.chunk)
}

fn decode_task_stream(es: Vec<(String, JsonValue)>) -> (r: Option<TaskStream>)
    ensures
        (r is Some) == task_stream_ok(es@),
        r matches Some(x) ==> task_stream_is(es@, x),
{
    proof {
        reveal_strlit("ts");
        reveal_strlit("event_id");
        reveal_strlit("req_id");
        reveal_strlit("agent_id");
        reveal_strlit("task_id");
        reveal_strlit("chunk");
        assert("ts"@.len() == 2);
        assert("event_id"@.len() == 8);
        assert("req_id"@.len() == 6);
        assert("agent_id"@.len() == 8);
        assert("task_id"@.len() == 7);
        assert("chunk"@.len() == 5);
        assert("event_id"@[0] != "agent_id"@[0]);
    }
    let mut es = es;
    let ts = take_string(&mut es, "ts");
    let event_id = take_opt_string(&mut es, "event_id");
    let req_id = take_string(&mut es, "req_id");
    let agent_id = take_string(&mut es, "agent_id");
    let task_id = take_string(&mut es, "task_id");
    let chunk = take_string(&mut es, "chunk");
    if ts.is_none() || event_id.is_none() || req_id.is_none() || agent_id.is_none() || task_id.is_none() || chunk.is_none() {
        return None;
    }
    Some(TaskStream {
        ts: ts.unwrap(),
        event_id: event_id.unwrap(),
        req_id: req_id.unwrap(),
        agent_id: agent_id.unwrap(),
        task_id: task_id.unwrap(),
        chunk: chunk.unwrap(),
    })
}

/// Whether the entries can be read as a `NarrativeSpeak`.
pub open spec fn narrative_speak_ok(es: Entries) -> bool {
    &&& str_at(es, "ts"@) is Some
    &&& opt_str_at(es, "event_id"@) is Some
    &&& str_at(es, "req_id"@) is Some
    &&& str_at(es, "agent_id"@) is Some
    &&& str_at(es, "task_id"@) is Some
    &&& str_at(es, "text"@) is Some
    &&& str_at(es, "emotion"@) is Some
}

/// Whether `x` holds the fields of the entries.
pub open spec fn narrative_speak_is(es: Entries, x: NarrativeSpeak) -> bool {
    &&& str_at(es, "ts"@) == Some(x.ts)
    &&& opt_str_at(es, "event_id"@) == Some(x.event_id)
    &&& str_at(es, "req_id"@) == Some(x.req_id)
    &&& str_at(es, "agent_id"@) == Some(x.agent_id)
    &&& str_at(es, "task_id"@) == Some(x.task_id)
    &&& str_at(es, "text"@) == Some(x.text)
    &&& str_at(es, "emotion"@) == Some(x.emotion)
}

fn decode_narrative_speak(es: Vec<(String, JsonValue)>) -> (r: Option<NarrativeSpeak>)
    ensures
        (r is Some) == narrative_speak_ok(es@),
        r matches Some(x) ==> narrative_speak_is(es@, x),
{
    proof {
        reveal_strlit("ts");
        reveal_strlit("event_id");
        reveal_strlit("req_id");
        reveal_strlit("agent_id");
        reveal_strlit("task_id");
        reveal_strlit("text");
        reveal_strlit("emotion");
        assert("ts"@.len() == 2);
        assert("event_id"@.len() == 8);
        assert("req_id"@.len() == 6);
        assert("agent_id"@.len() == 8);
        assert("task_id"@.len() == 7);
        assert("text"@.len() == 4);
        assert("emotion"@.len() == 7);
        assert("event_id"@[0] != "agent_id"@[0]);
        assert("task_id"@[0] != "emotion"@[0]);
    }
    let mut es = es;
    let ts = take_string(&mut es, "ts");
    let event_id = take_opt_string(&mut es, "event_id");
    let req_id = take_string(&mut es, "req_id");
    let agent_id = take_string(&mut es, "agent_id");
    let task_id = take_string(&mut es, "task_id");
    let text = take_string(&mut es, "text");
    let emotion = take_string(&mut es, "emotion");
    if ts.is_none() || event_id.is_none() || req_id.is_none() || agent_id.is_none() || task_id.is_none() || text.is_none() || emotion.is_none() {
        return None;
    }
    Some(NarrativeSpeak {
        ts: ts.unwrap(),
        event_id: event_id.unwrap(),
        req_id: req_id.unwrap(),
        agent_id: agent_id.unwrap(),
        task_id: task_id.unwrap(),
        text: text.unwrap(),
        emotion: emotion.unwrap(),
    })
}

/// Whether the entries can be read as a `TaskDone`.
pub open spec fn task_done_ok(es: Entries) -> bool {
    &&& str_at(es, "ts"@) is Some
    &&& opt_str_at(es, "event_id"@) is Some
    &&& str_at(es, "req_id"@) is Some
    &&& str_at(es, "agent_id"@) is Some
    &&& str_at(es, "task_id"@) is Some
    &&& opt_str_at(es, "run_id"@) is Some
    &&& match object_at(es, "outbox"@) {
        Some(e) => outbox_ok(e),
        None => false,
    }
}

/// Whether `x` holds the fields of the entries.
pub open spec fn task_done_is(es: Entries, x: TaskDone) -> bool {
    &&& str_at(es, "ts"@) == Some(x.ts)
    &&& opt_str_at(es, "event_id"@) == Some(x.event_id)
    &&& str_at(es, "req_id"@) == Some(x.req_id)
    &&& str_at(es, "agent_id"@) == Some(x.agent_id)
    &&& str_at(es, "task_id"@) == Some(x.task_id)
    &&& opt_str_at(es, "run_id"@) == Some(x.run_id)
    &&& match object_at(es, "outbox"@) {
        Some(e) => outbox_is(e, x.outbox),
        None => false,
    }
}

fn decode_task_done(es: Vec<(String, JsonValue)>) -> (r: Option<TaskDone>)
    ensures
        (r is Some) == task_done_ok(es@),
        r matches Some(x) ==> task_done_is(es@, x),
{
    proof {
        reveal_strlit("ts");
        reveal_strlit("event_id");
        reveal_strlit("req_id");
        reveal_strlit("agent_id");
        reveal_strlit("task_id");
        reveal_strlit("run_id");
        reveal_strlit("outbox");
        assert("ts"@.len() == 2);
        assert("event_id"@.len() == 8);
        assert("req_id"@.len() == 6);
        assert("agent_id"@.len() == 8);
        assert("task_id"@.len() == 7);
        assert("run_id"@.len() == 6);
        assert("outbox"@.len() == 6);
        assert("event_id"@[0] != "agent_id"@[0]);
        assert("req_id"@[1] != "run_id"@[1]);
        assert("req_id"@[0] != "outbox"@[0]);
        assert("run_id"@[0] != "outbox"@[0]);
    }
    let mut es = es;
    let ts = take_string(&mut es, "ts");
    let event_id = take_opt_string(&mut es, "event_id");
    let req_id = take_string(&mut es, "req_id");
    let agent_id = take_string(&mut es, "agent_id");
    let task_id = take_string(&mut es, "task_id");
    let run_id = take_opt_string(&mut es, "run_id");
    let outbox = match take_object(&mut es, "outbox") {
        Some(e) => decode_outbox(e),
        None => None,
    };
    if ts.is_none() || event_id.is_none() || req_id.is_none() || agent_id.is_none() || task_id.is_none() || run_id.is_none() || outbox.is_none() {
        return None;
    }
    Some(TaskDone {
        ts: ts.unwrap(),
        event_id: event_id.unwrap(),
        req_id: req_id.unwrap(),
        agent_id: agent_id.unwrap(),
        task_id: task_id.unwrap(),
        run_id: run_id.unwrap(),
        outbox: outbox.unwrap(),
    })
}

/// Whether the entries can be read as a `TaskError`.
pub open spec fn task_error_ok(es: Entries) -> bool {
    &&& str_at(es, "ts"@) is Some
    &&& opt_str_at(es, "event_id"@) is Some
    &&& str_at(es, "req_id"@) is Some
    &&& str_at(es, "agent_id"@) is Some
    &&& str_at(es, "task_id"@) is Some
    &&& opt_str_at(es, "run_id"@) is Some
    &&& str_at(es, "error_taxonomy"@) is Some
    &&& str_at(es, "detail"@) is Some
}

/// Whether `x` holds the fields of the entries.
pub open spec fn task_error_is(es: Entries, x: TaskError) -> bool {
    &&& str_at(es, "ts"@) == Some(x.ts)
    &&& opt_str_at(es, "event_id"@) == Some(x.event_id)
    &&& str_at(es, "req_id"@) == Some(x.req_id)
    &&& str_at(es, "agent_id"@) == Some(x.agent_id)
    &&& str_at(es, "task_id"@) == Some(x.task_id)
    &&& opt_str_at(es, "run_id"@) == Some(x.run_id)
    &&& str_at(es, "error_taxonomy"@) == Some(x.error_taxonomy)
    &&& str_at(es, "detail"@) == Some(x.detail)
}

fn decode_task_error(es: Vec<(String, JsonValue)>) -> (r: Option<TaskError>)
    ensures
        (r is Some) == task_error_ok(es@),
        r matches Some(x) ==> task_error_is(es@, x),
{
    proof {
        reveal_strlit("ts");
        reveal_strlit("event_id");
        reveal_strlit("req_id");
        reveal_strlit("agent_id");
        reveal_strlit("task_id");
        reveal_strlit("run_id");
        reveal_strlit("error_taxonomy");
        reveal_strlit("detail");
        assert("ts"@.len() == 2);
        assert("event_id"@.len() == 8);
        assert("req_id"@.len() == 6);
        assert("agent_id"@.len() == 8);
        assert("task_id"@.len() == 7);
        assert("run_id"@.len() == 6);
        assert("error_taxonomy"@.len() == 14);
        assert("detail"@.len() == 6);
        assert("event_id"@[0] != "agent_id"@[0]);
        assert("req_id"@[1] != "run_id"@[1]);
        assert("req_id"@[0] != "detail"@[0]);
        assert("run_id"@[0] != "detail"@[0]);
    }
    let mut es = es;
    let ts = take_string(&mut es, "ts");
    let event_id = take_opt_string(&mut es, "event_id");
    let req_id = take_string(&mut es, "req_id");
    let agent_id = take_string(&mut es, "agent_id");
    let task_id = take_string(&mut es, "task_id");
    let run_id = take_opt_string(&mut es, "run_id");
    let error_taxonomy = take_string(&mut es, "error_taxonomy");
    let detail = take_string(&mut es, "detail");
    if ts.is_none() || event_id.is_none() || req_id.is_none() || agent_id.is_none() || task_id.is_none() || run_id.is_none() || error_taxonomy.is_none() || detail.is_none() {
        return None;
    }
    Some(TaskError {
        ts: ts.unwrap(),
        event_id: event_id.unwrap(),
        req_id: req_id.unwrap(),
        agent_id: agent_id.unwrap(),
        task_id: task_id.unwrap(),
        run_id: run_id.unwrap(),
        error_taxonomy: error_taxonomy.unwrap(),
        detail: detail.unwrap(),
    })
}

/// Whether the entries can be read as a `PermissionRequest`.
pub open spec fn permission_request_ok(es: Entries) -> bool {
    &&& str_at(es, "ts"@) is Some
    &&& opt_str_at(es, "event_id"@) is Some
    &&& str_at(es, "permission_id"@) is Some
    &&& str_at(es, "req_id"@) is Some
    &&& str_at(es, "agent_id"@) is Some
    &&& str_at(es, "tool"@) is Some
    &&& lookup(es, "args"@) is Some
}

/// Whether `x` holds the fields of the entries.
pub open spec fn permission_request_is(es: Entries, x: PermissionRequest) -> bool {
    &&& str_at(es, "ts"@) == Some(x.ts)
    &&& opt_str_at(es, "event_id"@) == Some(x.event_id)
    &&& str_at(es, "permission_id"@) == Some(x.permission_id)
    &&& str_at(es, "req_id"@) == Some(x.req_id)
    &&& str_at(es, "agent_id"@) == Some(x.agent_id)
    &&& str_at(es, "tool"@) == Some(x.tool)
    &&& lookup(es, "args"@) == Some(x.args)
}

fn decode_permission_request(es: Vec<(String, JsonValue)>) -> (r: Option<PermissionRequest>)
    ensures
        (r is Some) == permission_request_ok(es@),
        r matches Some(x) ==> permission_request_is(es@, x),
{
    proof {
        reveal_strlit("ts");
        reveal_strlit("event_id");
        reveal_strlit("permission_id");
        reveal_strlit("req_id");
        reveal_strlit("agent_id");
        reveal_strlit("tool");
        reveal_strlit("args");
        assert("ts"@.len() == 2);
        assert("event_id"@.len() == 8);
        assert("permission_id"@.len() == 13);
        assert("req_id"@.len() == 6);
        assert("agent_id"@.len() == 8);
        assert("tool"@.len() == 4);
        assert("args"@.len() == 4);
        assert("event_id"@[0] != "agent_id"@[0]);
        assert("tool"@[0] != "args"@[0]);
    }
    let mut es = es;
    let ts = take_string(&mut es, "ts");
    let event_id = take_opt_string(&mut es, "event_id");
    let permission_id = take_string(&mut es, "permission_id");
    let req_id = take_string(&mut es, "req_id");
    let agent_id = take_string(&mut es, "agent_id");
    let tool = take_string(&mut es, "tool");
    let args = take(&mut es, "args");
    if ts.is_none() || event_id.is_none() || permission_id.is_none() || req_id.is_none() || agent_id.is_none() || tool.is_none() || args.is_none() {
        return None;
    }
    Some(PermissionRequest {
        ts: ts.unwrap(),
        event_id: event_id.unwrap(),
        permission_id: permission_id.unwrap(),
        req_id: req_id.unwrap(),
        agent_id: agent_id.unwrap(),
        tool: tool.unwrap(),
        args: args.unwrap(),
    })
}

/// Whether the entries can be read as a `PermissionResponse`.
pub open spec fn permission_response_ok(es: Entries) -> bool {
    &&& str_at(es, "ts"@) is Some
    &&& opt_str_at(es, "event_id"@) is Some
    &&& str_at(es, "permission_id"@) is Some
    &&& str_at(es, "req_id"@) is Some
    &&& decision_at(es, "decision"@) is Some
}

/// Whether `x` holds the fields of the entries.
pub open spec fn permission_response_is(es: Entries, x: PermissionResponse) -> bool {
    &&& str_at(es, "ts"@) == Some(x.ts)
    &&& opt_str_at(es, "event_id"@) == Some(x.event_id)
    &&& str_at(es, "permission_id"@) == Some(x.permission_id)
    &&& str_at(es, "req_id"@) == Some(x.req_id)
    &&& decision_at(es, "decision"@) == Some(x.decision)
}

fn decode_permission_response(es: Vec<(String, JsonValue)>) -> (r: Option<PermissionResponse>)
    ensures
        (r is Some) == permission_response_ok(es@),
        r matches Some(x) ==> permission_response_is(es@, x),
{
    proof {
        reveal_strlit("ts");
        reveal_strlit("event_id");
        reveal_strlit("permission_id");
        reveal_strlit("req_id");
        reveal_strlit("decision");
        assert("ts"@.len() == 2);
        assert("event_id"@.len() == 8);
        assert("permission_id"@.len() == 13);
        assert("req_id"@.len() == 6);
        assert("decision"@.len() == 8);
        assert("event_id"@[0] != "decision"@[0]);
    }
    let mut es = es;
    let ts = take_string(&mut es, "ts");
    let event_id = take_opt_string(&mut es, "event_id");
    let permission_id = take_string(&mut es, "permission_id");
    let req_id = take_string(&mut es, "req_id");
    let decision = take_decision(&mut es, "decision");
    if ts.is_none() || event_id.is_none() || permission_id.is_none() || req_id.is_none() || decision.is_none() {
        return None;
    }
    Some(PermissionResponse {
        ts: ts.unwrap(),
        event_id: event_id.unwrap(),
        permission_id: permission_id.unwrap(),
        req_id: req_id.unwrap(),
        decision: decision.unwrap(),
    })
}

/// Whether the entries can be read as a `SessionRejoin`.
pub open spec fn session_rejoin_ok(es: Entries) -> bool {
    &&& str_at(es, "ts"@) is Some
    &&& str_at(es, "req_id"@) is Some
    &&& str_at(es, "task_id"@) is Some
    &&& opt_str_at(es, "last_event_id"@) is Some
}

/// Whether `x` holds the fields of the entries.
pub open spec fn session_rejoin_is(es: Entries, x: SessionRejoin) -> bool {
    &&& str_at(es, "ts"@) == Some(x.ts)
    &&& str_at(es, "req_id"@) == Some(x.req_id)
    &&& str_at(es, "task_id"@) == Some(x.task_id)
    &&& opt_str_at(es, "last_event_id"@) == Some(x.last_event_id)
}

fn decode_session_rejoin(es: Vec<(String, JsonValue)>) -> (r: Option<SessionRejoin>)
    ensures
        (r is Some) == session_rejoin_ok(es@),
        r matches Some(x) ==> session_rejoin_is(es@, x),
{
    proof {
        reveal_strlit("ts");
        reveal_strlit("req_id");
        reveal_strlit("task_id");
        reveal_strlit("last_event_id");
        assert("ts"@.len() == 2);
        assert("req_id"@.len() == 6);
        assert("task_id"@.len() == 7);
        assert("last_event_id"@.len() == 13);
    }
    let mut es = es;
    let ts = take_string(&mut es, "ts");
    let req_id = take_string(&mut es, "req_id");
    let task_id = take_string(&mut es, "task_id");
    let last_event_id = take_opt_string(&mut es, "last_event_id");
    if ts.is_none() || req_id.is_none() || task_id.is_none() || last_event_id.is_none() {
        return None;
    }
    Some(SessionRejoin {
        ts: ts.unwrap(),
        req_id: req_id.unwrap(),
        task_id: task_id.unwrap(),
        last_event_id: last_event_id.unwrap(),
    })
}

/// Whether the entries can be read as a `SystemAck`.
pub open spec fn system_ack_ok(es: Entries) -> bool {
    &&& str_at(es, "ts"@) is Some
    &&& str_at(es, "event_id"@) is Some
    &&& str_at(es, "req_id"@) is Some
}

/// Whether `x` holds the fields of the entries.
pub open spec fn system_ack_is(es: Entries, x: SystemAck) -> bool {
    &&& str_at(es, "ts"@) == Some(x.ts)
    &&& str_at(es, "event_id"@) == Some(x.event_id)
    &&& str_at(es, "req_id"@) == Some(x.req_id)
}

fn decode_system_ack(es: Vec<(String, JsonValue)>) -> (r: Option<SystemAck>)
    ensures
        (r is Some) == system_ack_ok(es@),
        r matches Some(x) ==> system_ack_is(es@, x),
{
    proof {
        reveal_strlit("ts");
        reveal_strlit("event_id");
        reveal_strlit("req_id");
        assert("ts"@.len() == 2);
        assert("event_id"@.len() == 8);
        assert("req_id"@.len() == 6);
    }
    let mut es = es;
    let ts = take_string(&mut es, "ts");
    let event_id = take_string(&mut es, "event_id");
    let req_id = take_string(&mut es, "req_id");
    if ts.is_none() || event_id.is_none() || req_id.is_none() {
        return None;
    }
    Some(SystemAck {
        ts: ts.unwrap(),
        event_id: event_id.unwrap(),
        req_id: req_id.unwrap(),
    })
}

// ── messages ───────────────────────────────────────────────────────────

/// Whether a body of type `t` can be read from the entries.
pub open spec fn body_ok(t: Seq<char>, es: Entries) -> bool {
    if t == "system.ping"@ {
        ping_ok(es)
    } else if t == "system.pong"@ {
        pong_ok(es)
    } else if t == "system.error"@ {
        system_error_ok(es)
    } else if t == "task.dispatch"@ {
        task_dispatch_ok(es)
    } else if t == "task.stream"@ {
        task_stream_ok(es)
    } else if t == "narrative.speak"@ {
        narrative_speak_ok(es)
    } else if t == "task.done"@ {
        task_done_ok(es)
    } else if t == "task.error"@ {
        task_error_ok(es)
    } else if t == "permission.request"@ {
        permission_request_ok(es)
    } else if t == "permission.response"@ {
        permission_response_ok(es)
    } else if t == "session.rejoin"@ {
        session_rejoin_ok(es)
    } else if t == "system.ack"@ {
        system_ack_ok(es)
    } else {
        false
    }
}

/// Whether `m` is the message of type `t` the entries hold.
pub open spec fn body_is(t: Seq<char>, es: Entries, m: Message) -> bool {
    match m {
        Message::SystemPing(x) => t == "system.ping"@ && ping_is(es, x),
        Message::SystemPong(x) => t == "system.pong"@ && pong_is(es, x),
        Message::SystemError(x) => t == "system.error"@ && system_error_is(es, x),
        Message::TaskDispatch(x) => t == "task.dispatch"@ && task_dispatch_is(es, *x),
        Message::TaskStream(x) => t == "task.stream"@ && task_stream_is(es, x),
        Message::NarrativeSpeak(x) => t == "narrative.speak"@ && narrative_speak_is(es, x),
        Message::TaskDone(x) => t == "task.done"@ && task_done_is(es, *x),
        Message::TaskError(x) => t == "task.error"@ && task_error_is(es, x),
        Message::PermissionRequest(x) => t == "permission.request"@ && permission_request_is(es, x),
        Message::PermissionResponse(x) => t == "permission.response"@ && permission_response_is(es, x),
        Message::SessionRejoin(x) => t == "session.rejoin"@ && session_rejoin_is(es, x),
        Message::SystemAck(x) => t == "system.ack"@ && system_ack_is(es, x),
    }
}

fn decode_body(t: &str, es: Vec<(String, JsonValue)>) -> (r: Option<Message>)
    ensures
        (r is Some) == body_ok(t@, es@),
        r matches Some(m) ==> body_is(t@, es@, m),
{
    proof {
        reveal_strlit("system.ping");
        reveal_strlit("system.pong");
        reveal_strlit("system.error");
        reveal_strlit("task.dispatch");
        reveal_strlit("task.stream");
        reveal_strlit("narrative.speak");
        reveal_strlit("task.done");
        reveal_strlit("task.error");
        reveal_strlit("permission.request");
        reveal_strlit("permission.response");
        reveal_strlit("session.rejoin");
        reveal_strlit("system.ack");
    }
    if str_eq(t, "system.ping") {
        match decode_ping(es) {
            Some(x) => Some(Message::SystemPing(x)),
            None => None,
        }
    } else if str_eq(t, "system.pong") {
        match decode_pong(es) {
            Some(x) => Some(Message::SystemPong(x)),
            None => None,
        }
    } else if str_eq(t, "system.error") {
        match decode_system_error(es) {
            Some(x) => Some(Message::SystemError(x)),
            None => None,
        }
    } else if str_eq(t, "task.dispatch") {
        match decode_task_dispatch(es) {
            Some(x) => Some(Message::TaskDispatch(Box::new(x))),
            None => None,
        }
    } else if str_eq(t, "task.stream") {
        match decode_task_stream(es) {
            Some(x) => Some(Message::TaskStream(x)),
            None => None,
        }
    } else if str_eq(t, "narrative.speak") {
        match decode_narrative_speak(es) {
            Some(x) => Some(Message::NarrativeSpeak(x)),
            None => None,
        }
    } else if str_eq(t, "task.done") {
        match decode_task_done(es) {
            Some(x) => Some(Message::TaskDone(Box::new(x))),
            None => None,
        }
    } else if str_eq(t, "task.error") {
        match decode_task_error(es) {
            Some(x) => Some(Message::TaskError(x)),
            None => None,
        }
    } else if str_eq(t, "permission.request") {
        match decode_permission_request(es) {
            Some(x) => Some(Message::PermissionRequest(x)),
            None => None,
        }
    } else if str_eq(t, "permission.response") {
        match decode_permission_response(es) {
            Some(x) => Some(Message::PermissionResponse(x)),
            None => None,
        }
    } else if str_eq(t, "session.rejoin") {
        match decode_session_rejoin(es) {
            Some(x) => Some(Message::SessionRejoin(x)),
            None => None,
        }
    } else if str_eq(t, "system.ack") {
        match decode_system_ack(es) {
            Some(x) => Some(Message::SystemAck(x)),
            None => None,
        }
    } else {
        None
    }
}

/// Whether the value can be read as a typed message: an object whose
/// string `type` names a message whose body can be read.
pub open spec fn message_ok(v: JsonValue) -> bool {
    match v {
        JsonValue::Object(es) => match str_at(es@, "type"@) {
            Some(t) => body_ok(t@, es@),
            None => false,
        },
        _ => false,
    }
}

/// Whether `m` is the message the value holds.
pub open spec fn message_is(v: JsonValue, m: Message) -> bool {
    match v {
        JsonValue::Object(es) => match str_at(es@, "type"@) {
            Some(t) => body_is(t@, es@, m),
            None => false,
        },
        _ => false,
    }
}

/// Reads a parsed value as a typed message; `None` when a field the
/// message requires is missing or holds the wrong kind of value.
pub fn decode_message(value: JsonValue) -> (r: Option<Message>)
    ensures
        (r is Some) == message_ok(value),
        r matches Some(m) ==> message_is(value, m),
{
    let t: String = match value.get("type") {
        Some(JsonValue::String(s)) => s.clone(),
        _ => {
            proof {
                reveal_strlit("type");
            }
            return None;
        },
    };
    proof {
        reveal_strlit("type");
    }
    match value {
        JsonValue::Object(es) => decode_body(t.as_str(), es),
        _ => None,
    }
}

// ── writing ────────────────────────────────────────────────────────────

fn opt_string_value(o: Option<String>) -> (r: JsonValue)
    ensures
        match o {
            Some(s) => r == JsonValue::String(s),
            None => r == JsonValue::Null,
        },
{
    match o {
        Some(s) => JsonValue::String(s),
        None => JsonValue::Null,
    }
}

fn string_values(v: Vec<String>) -> (r: Vec<JsonValue>)
    ensures
        all_strings(r@),
        string_items(r@) == v@,
{
    let ghost orig = v@;
    let mut rest = v;
    let mut out: Vec<JsonValue> = Vec::new();
    let ghost mut k: int = 0;
    while rest.len() > 0
        invariant
            0 <= k <= orig.len(),
            orig == v@,
            rest@ == orig.subrange(k, orig.len() as int),
            all_strings(out@),
            string_items(out@) == orig.subrange(0, k),
        decreases rest@.len(),
    {
        let s = rest.remove(0);
        let ghost before = out@;
        out.push(JsonValue::String(s));
        proof {
            assert(s == orig[k]);
            assert(string_items(out@) =~= string_items(before).push(s));
            assert(orig.subrange(0, k + 1) =~= orig.subrange(0, k).push(orig[k]));
            k = k + 1;
            assert(rest@ =~= orig.subrange(k, orig.len() as int));
        }
    }
    proof {
        assert(orig.subrange(0, k) =~= orig);
    }
    out
}

fn code_value(c: SystemErrorCode) -> (r: JsonValue)
    ensures
        variant_name(r) is Some,
        code_named(variant_name(r)->0) == Some(c),
{
    proof {
        reveal_strlit("malformed_json");
        reveal_strlit("missing_type");
        reveal_strlit("unknown_message_type");
        reveal_strlit("invalid_message");
        assert("malformed_json"@.len() == 14);
        assert("missing_type"@.len() == 12);
        assert("unknown_message_type"@.len() == 20);
        assert("invalid_message"@.len() == 15);
    }
    JsonValue::String(String::from_str(c.as_str()))
}

fn decision_value(d: PermissionDecision) -> (r: JsonValue)
    ensures
        variant_name(r) is Some,
        decision_named(variant_name(r)->0) == Some(d),
{
    proof {
        reveal_strlit("approved");
        reveal_strlit("denied");
        assert("approved"@.len() == 8);
        assert("denied"@.len() == 6);
    }
    match d {
        PermissionDecision::Approved => JsonValue::String(String::from_str("approved")),
        PermissionDecision::Denied => JsonValue::String(String::from_str("denied")),
    }
}

fn encode_ping(x: SystemPing) -> (r: Vec<(String, JsonValue)>)
    ensures
        ping_ok(r@),
        ping_is(r@, x),
{
    proof {
        reveal_strlit("ts");
        assert("ts"@.len() == 2);
        reveal_strlit("req_id");
        assert("req_id"@.len() == 6);
    }
    let mut r: Vec<(String, JsonValue)> = Vec::new();
    push_field(&mut r, "ts", JsonValue::String(x.ts));
    push_field(&mut r, "req_id", JsonValue::String(x.req_id));
    r
}

fn encode_pong(x: SystemPong) -> (r: Vec<(String, JsonValue)>)
    ensures
        pong_ok(r@),
        pong_is(r@, x),
{
    proof {
        reveal_strlit("ts");
        assert("ts"@.len() == 2);
        reveal_strlit("req_id");
        assert("req_id"@.len() == 6);
    }
    let mut r: Vec<(String, JsonValue)> = Vec::new();
    push_field(&mut r, "ts", JsonValue::String(x.ts));
    push_field(&mut r, "req_id", JsonValue::String(x.req_id));
    r
}

fn encode_system_error(x: SystemError) -> (r: Vec<(String, JsonValue)>)
    ensures
        system_error_ok(r@),
        system_error_is(r@, x),
{
    proof {
        reveal_strlit("ts");
        assert("ts"@.len() == 2);
        reveal_strlit("req_id");
        assert("req_id"@.len() == 6);
        reveal_strlit("error");
        assert("error"@.len() == 5);
        reveal_strlit("detail");
        assert("detail"@.len() == 6);
        assert("req_id"@[0] != "detail"@[0]);
    }
    let mut r: Vec<(String, JsonValue)> = Vec::new();
    push_field(&mut r, "ts", JsonValue::String(x.ts));
    push_field(&mut r, "req_id", opt_string_value(x.req_id));
    push_field(&mut r, "error", code_value(x.error));
    push_field(&mut r, "detail", JsonValue::String(x.detail));
    r
}

fn encode_project_context(x: ProjectContext) -> (r: Vec<(String, JsonValue)>)
    ensures
        project_context_ok(r@),
        project_context_is(r@, x),
{
    proof {
        reveal_strlit("name");
        assert("name"@.len() == 4);
        reveal_strlit("data");
        assert("data"@.len() == 4);
        reveal_strlit("global_must_avoid");
        assert("global_must_avoid"@.len() == 17);
        assert("name"@[0] != "data"@[0]);
    }
    let mut r: Vec<(String, JsonValue)> = Vec::new();
    push_field(&mut r, "name", JsonValue::String(x.name));
    push_field(&mut r, "data", x.data);
    push_field(&mut r, "global_must_avoid", JsonValue::Array(string_values(x.global_must_avoid)));
    r
}

fn encode_task_context(x: TaskContext) -> (r: Vec<(String, JsonValue)>)
    ensures
        task_context_ok(r@),
        task_context_is(r@, x),
{
    proof {
        reveal_strlit("user_preferences");
        assert("user_preferences"@.len() == 16);
        reveal_strlit("project_context");
        assert("project_context"@.len() == 15);
        reveal_strlit("relevant_feedback");
        assert("relevant_feedback"@.len() == 17);
    }
    let mut r: Vec<(String, JsonValue)> = Vec::new();
    push_field(&mut r, "user_preferences", x.user_preferences);
    push_field(&mut r, "project_context", JsonValue::Object(encode_project_context(x.project_context)));
    push_field(&mut r, "relevant_feedback", x.relevant_feedback);
    r
}

fn encode_safety_rules(x: SafetyRules) -> (r: Vec<(String, JsonValue)>)
    ensures
        safety_rules_ok(r@),
        safety_rules_is(r@, x),
{
    proof {
        reveal_strlit("allowed_paths");
        assert("allowed_paths"@.len() == 13);
        reveal_strlit("denied_commands");
        assert("denied_commands"@.len() == 15);
    }
    let mut r: Vec<(String, JsonValue)> = Vec::new();
    push_field(&mut r, "allowed_paths", JsonValue::Array(string_values(x.allowed_paths)));
    push_field(&mut r, "denied_commands", JsonValue::Array(string_values(x.denied_commands)));
    r
}

fn encode_task_card(x: TaskCard) -> (r: Vec<(String, JsonValue)>)
    ensures
        task_card_ok(r@),
        task_card_is(r@, x),
{
    proof {
        reveal_strlit("schema_version");
        assert("schema_version"@.len() == 14);
        reveal_strlit("task_card_id");
        assert("task_card_id"@.len() == 12);
        reveal_strlit("project");
        assert("project"@.len() == 7);
        reveal_strlit("created_at");
        assert("created_at"@.len() == 10);
        reveal_strlit("status");
        assert("status"@.len() == 6);
        reveal_strlit("goal");
        assert("goal"@.len() == 4);
        reveal_strlit("compiled_intent");
        assert("compiled_intent"@.len() == 15);
        reveal_strlit("context");
        assert("context"@.len() == 7);
        reveal_strlit("execution_plan");
        assert("execution_plan"@.len() == 14);
        reveal_strlit("acceptance_criteria");
        assert("acceptance_criteria"@.len() == 19);
        reveal_strlit("allowed_files");
        assert("allowed_files"@.len() == 13);
        reveal_strlit("safety");
        assert("safety"@.len() == 6);
        reveal_strlit("output_contract");
        assert("output_contract"@.len() == 15);
        reveal_strlit("review_gate_criteria");
        assert("review_gate_criteria"@.len() == 20);
        assert("schema_version"@[0] != "execution_plan"@[0]);
        assert("project"@[0] != "context"@[0]);
        assert("status"@[1] != "safety"@[1]);
        assert("compiled_intent"@[0] != "output_contract"@[0]);
    }
    let mut r: Vec<(String, JsonValue)> = Vec::new();
    push_field(&mut r, "schema_version", JsonValue::String(x.schema_version));
    push_field(&mut r, "task_card_id", JsonValue::String(x.task_card_id));
    push_field(&mut r, "project", JsonValue::String(x.project));
    push_field(&mut r, "created_at", JsonValue::String(x.created_at));
    push_field(&mut r, "status", JsonValue::String(x.status));
    push_field(&mut r, "goal", JsonValue::String(x.goal));
    push_field(&mut r, "compiled_intent", x.compiled_intent);
    push_field(&mut r, "context", JsonValue::Object(encode_task_context(x.context)));
    push_field(&mut r, "execution_plan", x.execution_plan);
    push_field(&mut r, "acceptance_criteria", x.acceptance_criteria);
    push_field(&mut r, "allowed_files", JsonValue::Array(string_values(x.allowed_files)));
    push_field(&mut r, "safety", JsonValue::Object(encode_safety_rules(x.safety)));
    push_field(&mut r, "output_contract", x.output_contract);
    push_field(&mut r, "review_gate_criteria", x.review_gate_criteria);
    r
}

fn encode_outbox(x: Outbox) -> (r: Vec<(String, JsonValue)>)
    ensures
        outbox_ok(r@),
        outbox_is(r@, x),
{
    proof {
        reveal_strlit("schema_version");
        assert("schema_version"@.len() == 14);
        reveal_strlit("task_id");
        assert("task_id"@.len() == 7);
        reveal_strlit("agent_id");
        assert("agent_id"@.len() == 8);
        reveal_strlit("status");
        assert("status"@.len() == 6);
        reveal_strlit("summary");
        assert("summary"@.len() == 7);
        reveal_strlit("changed_files");
        assert("changed_files"@.len() == 13);
        reveal_strlit("changed_files_source");
        assert("changed_files_source"@.len() == 20);
        reveal_strlit("verification");
        assert("verification"@.len() == 12);
        reveal_strlit("evidence");
        assert("evidence"@.len() == 8);
        reveal_strlit("known_risks");
        assert("known_risks"@.len() == 11);
        reveal_strlit("errors");
        assert("errors"@.len() == 6);
        reveal_strlit("error_taxonomy");
        assert("error_taxonomy"@.len() == 14);
        reveal_strlit("needs_human_review");
        assert("needs_human_review"@.len() == 18);
        reveal_strlit("notes");
        assert("notes"@.len() == 5);
        assert("schema_version"@[0] != "error_taxonomy"@[0]);
        assert("task_id"@[0] != "summary"@[0]);
        assert("agent_id"@[0] != "evidence"@[0]);
        assert("status"@[0] != "errors"@[0]);
    }
    let mut r: Vec<(String, JsonValue)> = Vec::new();
    push_field(&mut r, "schema_version", JsonValue::String(x.schema_version));
    push_field(&mut r, "task_id", JsonValue::String(x.task_id));
    push_field(&mut r, "agent_id", JsonValue::String(x.agent_id));
    push_field(&mut r, "status", JsonValue::String(x.status));
    push_field(&mut r, "summary", JsonValue::String(x.summary));
    push_field(&mut r, "changed_files", JsonValue::Array(string_values(x.changed_files)));
    push_field(&mut r, "changed_files_source", JsonValue::String(x.changed_files_source));
    push_field(&mut r, "verification", x.verification);
    push_field(&mut r, "evidence", x.evidence);
    push_field(&mut r, "known_risks", JsonValue::Array(string_values(x.known_risks)));
    push_field(&mut r, "errors", JsonValue::Array(string_values(x.errors)));
    push_field(&mut r, "error_taxonomy", JsonValue::Array(x.error_taxonomy));
    push_field(&mut r, "needs_human_review", JsonValue::Bool(x.needs_human_review));
    push_field(&mut r, "notes", JsonValue::Array(string_values(x.notes)));
    r
}

fn encode_task_dispatch(x: TaskDispatch) -> (r: Vec<(String, JsonValue)>)
    ensures
        task_dispatch_ok(r@),
        task_dispatch_is(r@, x),
{
    proof {
        reveal_strlit("ts");
        assert("ts"@.len() == 2);
        reveal_strlit("event_id");
        assert("event_id"@.len() == 8);
        reveal_strlit("req_id");
        assert("req_id"@.len() == 6);
        reveal_strlit("agent_id");
        assert("agent_id"@.len() == 8);
        reveal_strlit("task_id");
        assert("task_id"@.len() == 7);
        reveal_strlit("task_card");
        assert("task_card"@.len() == 9);
        assert("event_id"@[0] != "agent_id"@[0]);
    }
    let mut r: Vec<(String, JsonValue)> = Vec::new();
    push_field(&mut r, "ts", JsonValue::String(x.ts));
    push_field(&mut r, "event_id", opt_string_value(x.event_id));
    push_field(&mut r, "req_id", JsonValue::String(x.req_id));
    push_field(&mut r, "agent_id", JsonValue::String(x.agent_id));
    push_field(&mut r, "task_id", JsonValue::String(x.task_id));
    push_field(&mut r, "task_card", JsonValue::Object(encode_task_card(x.task_card)));
    r
}

fn encode_task_stream(x: TaskStream) -> (r: Vec<(String, JsonValue)>)
    ensures
        task_stream_ok(r@),
        task_stream_is(r@, x),
{
    proof {
        reveal_strlit("ts");
        assert("ts"@.len() == 2);
        reveal_strlit("event_id");
        assert("event_id"@.len() == 8);
        reveal_strlit("req_id");
        assert("req_id"@.len() == 6);
        reveal_strlit("agent_id");
        assert("agent_id"@.len() == 8);
        reveal_strlit("task_id");
        assert("task_id"@.len() == 7);
        reveal_strlit("chunk");
        assert("chunk"@.len() == 5);
        assert("event_id"@[0] != "agent_id"@[0]);
    }
    let mut r: Vec<(String, JsonValue)> = Vec::new();
    push_field(&mut r, "ts", JsonValue::String(x.ts));
    push_field(&mut r, "event_id", opt_string_value(x.event_id));
    push_field(&mut r, "req_id", JsonValue::String(x.req_id));
    push_field(&mut r, "agent_id", JsonValue::String(x.agent_id));
    push_field(&mut r, "task_id", JsonValue::String(x.task_id));
    push_field(&mut r, "chunk", JsonValue::String(x.chunk));
    r
}

fn encode_narrative_speak(x: NarrativeSpeak) -> (r: Vec<(String, JsonValue)>)
    ensures
        narrative_speak_ok(r@),
        narrative_speak_is(r@, x),
{
    proof {
        reveal_strlit("ts");
        assert("ts"@.len() == 2);
        reveal_strlit("event_id");
        assert("event_id"@.len() == 8);
        reveal_strlit("req_id");
        assert("req_id"@.len() == 6);
        reveal_strlit("agent_id");
        assert("agent_id"@.len() == 8);
        reveal_strlit("task_id");
        assert("task_id"@.len() == 7);
        reveal_strlit("text");
        assert("text"@.len() == 4);
        reveal_strlit("emotion");
        assert("emotion"@.len() == 7);
        assert("event_id"@[0] != "agent_id"@[0]);
        assert("task_id"@[0] != "emotion"@[0]);
    }
    let mut r: Vec<(String, JsonValue)> = Vec::new();
    push_field(&mut r, "ts", JsonValue::String(x.ts));
    push_field(&mut r, "event_id", opt_string_value(x.event_id));
    push_field(&mut r, "req_id", JsonValue::String(x.req_id));
    push_field(&mut r, "agent_id", JsonValue::String(x.agent_id));
    push_field(&mut r, "task_id", JsonValue::String(x.task_id));
    push_field(&mut r, "text", JsonValue::String(x.text));
    push_field(&mut r, "emotion", JsonValue::String(x.emotion));
    r
}

fn encode_task_done(x: TaskDone) -> (r: Vec<(String, JsonValue)>)
    ensures
        task_done_ok(r@),
        task_done_is(r@, x),
{
    proof {
        reveal_strlit("ts");
        assert("ts"@.len() == 2);
        reveal_strlit("event_id");
        assert("event_id"@.len() == 8);
        reveal_strlit("req_id");
        assert("req_id"@.len() == 6);
        reveal_strlit("agent_id");
        assert("agent_id"@.len() == 8);
        reveal_strlit("task_id");
        assert("task_id"@.len() == 7);
        reveal_strlit("run_id");
        assert("run_id"@.len() == 6);
        reveal_strlit("outbox");
        assert("outbox"@.len() == 6);
        assert("event_id"@[0] != "agent_id"@[0]);
        assert("req_id"@[1] != "run_id"@[1]);
        assert("req_id"@[0] != "outbox"@[0]);
        assert("run_id"@[0] != "outbox"@[0]);
    }
    let mut r: Vec<(String, JsonValue)> = Vec::new();
    push_field(&mut r, "ts", JsonValue::String(x.ts));
    push_field(&mut r, "event_id", opt_string_value(x.event_id));
    push_field(&mut r, "req_id", JsonValue::String(x.req_id));
    push_field(&mut r, "agent_id", JsonValue::String(x.agent_id));
    push_field(&mut r, "task_id", JsonValue::String(x.task_id));
    push_field(&mut r, "run_id", opt_string_value(x.run_id));
    push_field(&mut r, "outbox", JsonValue::Object(encode_outbox(x.outbox)));
    r
}

fn encode_task_error(x: TaskError) -> (r: Vec<(String, JsonValue)>)
    ensures
        task_error_ok(r@),
        task_error_is(r@, x),
{
    proof {
        reveal_strlit("ts");
        assert("ts"@.len() == 2);
        reveal_strlit("event_id");
        assert("event_id"@.len() == 8);
        reveal_strlit("req_id");
        assert("req_id"@.len() == 6);
        reveal_strlit("agent_id");
        assert("agent_id"@.len() == 8);
        reveal_strlit("task_id");
        assert("task_id"@.len() == 7);
        reveal_strlit("run_id");
        assert("run_id"@.len() == 6);
        reveal_strlit("error_taxonomy");
        assert("error_taxonomy"@.len() == 14);
        reveal_strlit("detail");
        assert("detail"@.len() == 6);
        assert("event_id"@[0] != "agent_id"@[0]);
        assert("req_id"@[1] != "run_id"@[1]);
        assert("req_id"@[0] != "detail"@[0]);
        assert("run_id"@[0] != "detail"@[0]);
    }
    let mut r: Vec<(String, JsonValue)> = Vec::new();
    push_field(&mut r, "ts", JsonValue::String(x.ts));
    push_field(&mut r, "event_id", opt_string_value(x.event_id));
    push_field(&mut r, "req_id", JsonValue::String(x.req_id));
    push_field(&mut r, "agent_id", JsonValue::String(x.agent_id));
    push_field(&mut r, "task_id", JsonValue::String(x.task_id));
    push_field(&mut r, "run_id", opt_string_value(x.run_id));
    push_field(&mut r, "error_taxonomy", JsonValue::String(x.error_taxonomy));
    push_field(&mut r, "detail", JsonValue::String(x.detail));
    r
}

fn encode_permission_request(x: PermissionRequest) -> (r: Vec<(String, JsonValue)>)
    ensures
        permission_request_ok(r@),
        permission_request_is(r@, x),
{
    proof {
        reveal_strlit("ts");
        assert("ts"@.len() == 2);
        reveal_strlit("event_id");
        assert("event_id"@.len() == 8);
        reveal_strlit("permission_id");
        assert("permission_id"@.len() == 13);
        reveal_strlit("req_id");
        assert("req_id"@.len() == 6);
        reveal_strlit("agent_id");
        assert("agent_id"@.len() == 8);
        reveal_strlit("tool");
        assert("tool"@.len() == 4);
        reveal_strlit("args");
        assert("args"@.len() == 4);
        assert("event_id"@[0] != "agent_id"@[0]);
        assert("tool"@[0] != "args"@[0]);
    }
    let mut r: Vec<(String, JsonValue)> = Vec::new();
    push_field(&mut r, "ts", JsonValue::String(x.ts));
    push_field(&mut r, "event_id", opt_string_value(x.event_id));
    push_field(&mut r, "permission_id", JsonValue::String(x.permission_id));
    push_field(&mut r, "req_id", JsonValue::String(x.req_id));
    push_field(&mut r, "agent_id", JsonValue::String(x.agent_id));
    push_field(&mut r, "tool", JsonValue::String(x.tool));
    push_field(&mut r, "args", x.args);
    r
}

fn encode_permission_response(x: PermissionResponse) -> (r: Vec<(String, JsonValue)>)
    ensures
        permission_response_ok(r@),
        permission_response_is(r@, x),
{
    proof {
        reveal_strlit("ts");
        assert("ts"@.len() == 2);
        reveal_strlit("event_id");
        assert("event_id"@.len() == 8);
        reveal_strlit("permission_id");
        assert("permission_id"@.len() == 13);
        reveal_strlit("req_id");
        assert("req_id"@.len() == 6);
        reveal_strlit("decision");
        assert("decision"@.len() == 8);
        assert("event_id"@[0] != "decision"@[0]);
    }
    let mut r: Vec<(String, JsonValue)> = Vec::new();
    push_field(&mut r, "ts", JsonValue::String(x.ts));
    push_field(&mut r, "event_id", opt_string_value(x.event_id));
    push_field(&mut r, "permission_id", JsonValue::String(x.permission_id));
    push_field(&mut r, "req_id", JsonValue::String(x.req_id));
    push_field(&mut r, "decision", decision_value(x.decision));
    r
}

fn encode_session_rejoin(x: SessionRejoin) -> (r: Vec<(String, JsonValue)>)
    ensures
        session_rejoin_ok(r@),
        session_rejoin_is(r@, x),
{
    proof {
        reveal_strlit("ts");
        assert("ts"@.len() == 2);
        reveal_strlit("req_id");
        assert("req_id"@.len() == 6);
        reveal_strlit("task_id");
        assert("task_id"@.len() == 7);
        reveal_strlit("last_event_id");
        assert("last_event_id"@.len() == 13);
    }
    let mut r: Vec<(String, JsonValue)> = Vec::new();
    push_field(&mut r, "ts", JsonValue::String(x.ts));
    push_field(&mut r, "req_id", JsonValue::String(x.req_id));
    push_field(&mut r, "task_id", JsonValue::String(x.task_id));
    push_field(&mut r, "last_event_id", opt_string_value(x.last_event_id));
    r
}

fn encode_system_ack(x: SystemAck) -> (r: Vec<(String, JsonValue)>)
    ensures
        system_ack_ok(r@),
        system_ack_is(r@, x),
{
    proof {
        reveal_strlit("ts");
        assert("ts"@.len() == 2);
        reveal_strlit("event_id");
        assert("event_id"@.len() == 8);
        reveal_strlit("req_id");
        assert("req_id"@.len() == 6);
    }
    let mut r: Vec<(String, JsonValue)> = Vec::new();
    push_field(&mut r, "ts", JsonValue::String(x.ts));
    push_field(&mut r, "event_id", JsonValue::String(x.event_id));
    push_field(&mut r, "req_id", JsonValue::String(x.req_id));
    r
}

/// Writes a message as a JSON object: `type` first, then the fields in
/// declaration order.  Reading the result back gives the same message.
pub fn encode_message(msg: Message) -> (r: JsonValue)
    ensures
        message_ok(r),
        message_is(r, msg),
{
    proof {
        reveal_strlit("type");
        assert("type"@.len() == 4);
        reveal_strlit("agent_id");
        assert("agent_id"@.len() == 8);
        reveal_strlit("args");
        assert("args"@.len() == 4);
        assert("args"@[0] != "type"@[0]);
        reveal_strlit("chunk");
        assert("chunk"@.len() == 5);
        reveal_strlit("decision");
        assert("decision"@.len() == 8);
        reveal_strlit("detail");
        assert("detail"@.len() == 6);
        reveal_strlit("emotion");
        assert("emotion"@.len() == 7);
        reveal_strlit("error");
        assert("error"@.len() == 5);
        reveal_strlit("error_taxonomy");
        assert("error_taxonomy"@.len() == 14);
        reveal_strlit("event_id");
        assert("event_id"@.len() == 8);
        reveal_strlit("last_event_id");
        assert("last_event_id"@.len() == 13);
        reveal_strlit("outbox");
        assert("outbox"@.len() == 6);
        reveal_strlit("permission_id");
        assert("permission_id"@.len() == 13);
        reveal_strlit("req_id");
        assert("req_id"@.len() == 6);
        reveal_strlit("run_id");
        assert("run_id"@.len() == 6);
        reveal_strlit("task_card");
        assert("task_card"@.len() == 9);
        reveal_strlit("task_id");
        assert("task_id"@.len() == 7);
        reveal_strlit("text");
        assert("text"@.len() == 4);
        assert("text"@[1] != "type"@[1]);
        reveal_strlit("tool");
        assert("tool"@.len() == 4);
        assert("tool"@[1] != "type"@[1]);
        reveal_strlit("ts");
        assert("ts"@.len() == 2);
        reveal_strlit("system.ping");
        reveal_strlit("system.pong");
        reveal_strlit("system.error");
        reveal_strlit("task.dispatch");
        reveal_strlit("task.stream");
        reveal_strlit("narrative.speak");
        reveal_strlit("task.done");
        reveal_strlit("task.error");
        reveal_strlit("permission.request");
        reveal_strlit("permission.response");
        reveal_strlit("session.rejoin");
        reveal_strlit("system.ack");
        assert("system.ping"@.len() == 11);
        assert("system.pong"@.len() == 11);
        assert("system.error"@.len() == 12);
        assert("task.dispatch"@.len() == 13);
        assert("task.stream"@.len() == 11);
        assert("narrative.speak"@.len() == 15);
        assert("task.done"@.len() == 9);
        assert("task.error"@.len() == 10);
        assert("permission.request"@.len() == 18);
        assert("permission.response"@.len() == 19);
        assert("session.rejoin"@.len() == 14);
        assert("system.ack"@.len() == 10);
        assert("system.ping"@[8] != "system.pong"@[8]);
        assert("system.ping"@[0] != "task.stream"@[0]);
        assert("system.pong"@[0] != "task.stream"@[0]);
        assert("task.error"@[0] != "system.ack"@[0]);
    }
    let ghost m0 = msg;
    let (t, mut body) = match msg {
        Message::SystemPing(x) => ("system.ping", encode_ping(x)),
        Message::SystemPong(x) => ("system.pong", encode_pong(x)),
        Message::SystemError(x) => ("system.error", encode_system_error(x)),
        Message::TaskDispatch(x) => ("task.dispatch", encode_task_dispatch(*x)),
        Message::TaskStream(x) => ("task.stream", encode_task_stream(x)),
        Message::NarrativeSpeak(x) => ("narrative.speak", encode_narrative_speak(x)),
        Message::TaskDone(x) => ("task.done", encode_task_done(*x)),
        Message::TaskError(x) => ("task.error", encode_task_error(x)),
        Message::PermissionRequest(x) => ("permission.request", encode_permission_request(x)),
        Message::PermissionResponse(x) => ("permission.response", encode_permission_response(x)),
        Message::SessionRejoin(x) => ("session.rejoin", encode_session_rejoin(x)),
        Message::SystemAck(x) => ("system.ack", encode_system_ack(x)),
    };
    let ghost b = body@;
    body.insert(0, (String::from_str("type"), JsonValue::String(String::from_str(t))));
    proof {
        assert(body@.drop_first() =~= b);
        assert forall|k: Seq<char>| k != "type"@ implies #[trigger] lookup(body@, k) == lookup(b, k) by {}
    }
    JsonValue::Object(body)
}

} // verus!
