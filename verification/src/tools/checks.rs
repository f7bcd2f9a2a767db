//! The input checks of the tools, and the payloads the narrative tools
//! answer with.
use vstd::prelude::*;

use crate::ipc::protocol::{is_valid_emotion, valid_emotion};
use crate::json::{member, member_str, push_field, JsonNumber, JsonValue};
use crate::narrative::{confession_stage_rank, stage_rank};
use crate::text::{chars_of, concat2, concat3, is_ws, is_whitespace_char, push_str, string_of, trim, trim_start, trim_str};

verus! {

/// `{tool}: '{field}' ` followed by `tail`.
pub open spec fn field_msg(tool: Seq<char>, field: Seq<char>, tail: Seq<char>) -> Seq<char> {
    tool + ": '"@ + field + "' "@ + tail
}

fn field_error(tool: &str, field: &str, tail: &str) -> (r: String)
    ensures
        r@ == field_msg(tool@, field@, tail@),
{
    let mut s = concat3(tool, ": '", field);
    push_str(&mut s, "' ");
    push_str(&mut s, tail);
    s
}

/// A required string field, trimmed; it must not be blank.
pub open spec fn non_empty_spec(input: JsonValue, field: Seq<char>, tool: Seq<char>) -> Result<Seq<char>, Seq<char>> {
    match member_str(input, field) {
        None => Err(field_msg(tool, field, "must be a string"@)),
        Some(v) => if trim(v).len() == 0 {
            Err(field_msg(tool, field, "must not be empty"@))
        } else {
            Ok(trim(v))
        },
    }
}

pub open spec fn str_result(r: Result<String, String>) -> Result<Seq<char>, Seq<char>> {
    match r {
        Ok(s) => Ok(s@),
        Err(e) => Err(e@),
    }
}

pub open spec fn unit_result(r: Result<(), String>) -> Result<(), Seq<char>> {
    match r {
        Ok(()) => Ok(()),
        Err(e) => Err(e@),
    }
}

pub fn non_empty_string(input: &JsonValue, field: &str, tool: &str) -> (r: Result<String, String>)
    ensures
        str_result(r) == non_empty_spec(*input, field@, tool@),
{
    let v = match input.get(field) {
        Some(x) => match x.as_str() {
            Some(v) => v,
            None => return Err(field_error(tool, field, "must be a string")),
        },
        None => return Err(field_error(tool, field, "must be a string")),
    };
    let t = trim_str(v);
    if t.as_str().is_empty() {
        return Err(field_error(tool, field, "must not be empty"));
    }
    Ok(t)
}

/// `speak`: a non-blank text of at most 500 characters and a known emotion.
pub open spec fn speak_check(input: JsonValue) -> Result<(), Seq<char>> {
    match non_empty_spec(input, "text"@, "speak"@) {
        Err(e) => Err(e),
        Ok(t) => if t.len() > 500 {
            Err("speak: 'text' must be at most 500 characters"@)
        } else {
            match non_empty_spec(input, "emotion"@, "speak"@) {
                Err(e) => Err(e),
                Ok(em) => if valid_emotion(em) {
                    Ok(())
                } else {
                    Err("speak: 'emotion' must be one of calm, defensive, nervous, anxious, angry, broken"@)
                },
            }
        },
    }
}

pub fn speak_validate(input: &JsonValue) -> (r: Result<(), String>)
    ensures
        unit_result(r) == speak_check(*input),
{
    let text = non_empty_string(input, "text", "speak")?;
    if chars_of(text.as_str()).len() > 500 {
        return Err(String::from_str("speak: 'text' must be at most 500 characters"));
    }
    let emotion = non_empty_string(input, "emotion", "speak")?;
    if !is_valid_emotion(emotion.as_str()) {
        return Err(
            String::from_str(
                "speak: 'emotion' must be one of calm, defensive, nervous, anxious, angry, broken",
            ),
        );
    }
    Ok(())
}

/// `update_confession_stage`: a known stage and a non-blank reason.
pub open spec fn stage_tool_check(input: JsonValue) -> Result<(), Seq<char>> {
    match non_empty_spec(input, "new_stage"@, "update_confession_stage"@) {
        Err(e) => Err(e),
        Ok(s) => if stage_rank(s) is None {
            Err("update_confession_stage: 'new_stage' must be one of denial, vague, partial, breakdown"@)
        } else {
            match non_empty_spec(input, "reason"@, "update_confession_stage"@) {
                Err(e) => Err(e),
                Ok(_) => Ok(()),
            }
        },
    }
}

pub fn update_stage_validate(input: &JsonValue) -> (r: Result<(), String>)
    ensures
        unit_result(r) == stage_tool_check(*input),
{
    let stage = non_empty_string(input, "new_stage", "update_confession_stage")?;
    if confession_stage_rank(stage.as_str()).is_none() {
        return Err(
            String::from_str(
                "update_confession_stage: 'new_stage' must be one of denial, vague, partial, breakdown",
            ),
        );
    }
    non_empty_string(input, "reason", "update_confession_stage")?;
    Ok(())
}

/// A tool whose only check is one non-blank string field.
pub fn single_field_validate(input: &JsonValue, field: &str, tool: &str) -> (r: Result<(), String>)
    ensures
        unit_result(r) == match non_empty_spec(*input, field@, tool@) {
            Ok(_) => Ok::<(), Seq<char>>(()),
            Err(e) => Err(e),
        },
{
    non_empty_string(input, field, tool)?;
    Ok(())
}

/// `log_interrogation_event`: a non-blank type and an object payload.
pub open spec fn log_event_check(input: JsonValue) -> Result<(), Seq<char>> {
    match non_empty_spec(input, "type"@, "log_interrogation_event"@) {
        Err(e) => Err(e),
        Ok(_) => match member(input, "payload"@) {
            Some(JsonValue::Object(_)) => Ok(()),
            _ => Err("log_interrogation_event: 'payload' must be a JSON object"@),
        },
    }
}

pub fn log_event_validate(input: &JsonValue) -> (r: Result<(), String>)
    ensures
        unit_result(r) == log_event_check(*input),
{
    non_empty_string(input, "type", "log_interrogation_event")?;
    let ok = match input.get("payload") {
        Some(p) => p.is_object(),
        None => false,
    };
    if !ok {
        return Err(String::from_str("log_interrogation_event: 'payload' must be a JSON object"));
    }
    Ok(())
}

/// `task_done`: the summary must be a non-blank string.
pub open spec fn task_done_check(input: JsonValue) -> Result<(), Seq<char>> {
    match member_str(input, "summary"@) {
        None => Err("task_done: 'summary' must be a string"@),
        Some(s) => if trim(s).len() == 0 {
            Err("task_done: 'summary' must not be empty"@)
        } else {
            Ok(())
        },
    }
}

pub fn task_done_validate(input: &JsonValue) -> (r: Result<(), String>)
    ensures
        unit_result(r) == task_done_check(*input),
{
    let s = match input.get("summary") {
        Some(v) => match v.as_str() {
            Some(s) => s,
            None => return Err(String::from_str("task_done: 'summary' must be a string")),
        },
        None => return Err(String::from_str("task_done: 'summary' must be a string")),
    };
    if trim_str(s).as_str().is_empty() {
        return Err(String::from_str("task_done: 'summary' must not be empty"));
    }
    Ok(())
}

/// The first whitespace-separated word of a command.
pub open spec fn first_token(s: Seq<char>) -> Seq<char> {
    let t = trim_start(s);
    t.take(word_len(t, 0))
}

/// The length of the run of non-space characters from `i`.
pub open spec fn word_len(t: Seq<char>, i: int) -> int
    decreases t.len() - i,
{
    if i >= t.len() || i < 0 {
        if i < 0 { 0 } else { t.len() as int }
    } else if is_ws(t[i]) {
        i
    } else {
        word_len(t, i + 1)
    }
}

/// How long a command may run, in seconds, at most.
pub const MAX_TIMEOUT_SECS: u64 = 300;

/// `terminal`: the command must be a non-blank string, a timeout (when it
/// is a non-negative integer) must lie in 1..=300, and the command's
/// first word must not be denied.
pub open spec fn terminal_check(input: JsonValue, denied: Seq<Seq<char>>) -> Result<(), Seq<char>> {
    match member_str(input, "command"@) {
        None => Err("terminal: 'command' must be a string"@),
        Some(c) => if trim(c).len() == 0 {
            Err("terminal: 'command' must not be empty"@)
        } else if (match member(input, "timeout_secs"@) {
            Some(JsonValue::Number(JsonNumber::PosInt(t))) => t == 0 || t > MAX_TIMEOUT_SECS,
            _ => false,
        }) {
            Err("terminal: timeout_secs must be 1..300"@)
        } else if denied.contains(first_token(c)) {
            Err("terminal: command '"@ + first_token(c) + "' is denied"@)
        } else {
            Ok(())
        },
    }
}

fn first_word(c: &str) -> (r: String)
    ensures
        r@ == first_token(c@),
{
    let cs = chars_of(c);
    let mut i: usize = 0;
    while i < cs.len() && is_whitespace_char(cs[i])
        invariant
            i <= cs@.len(),
            cs@ == c@,
            forall|j: int| 0 <= j < i ==> is_ws(#[trigger] cs@[j]),
        decreases cs@.len() - i,
    {
        i = i + 1;
    }
    proof {
        crate::text::lemma_lead_ws_exact(c@, i as int);
    }
    let start = i;
    let ghost t = trim_start(c@);
    assert(t =~= c@.subrange(start as int, c@.len() as int));
    while i < cs.len() && !is_whitespace_char(cs[i])
        invariant
            start <= i <= cs@.len(),
            cs@ == c@,
            t == c@.subrange(start as int, c@.len() as int),
            word_len(t, (i - start) as int) == word_len(t, 0),
        decreases cs@.len() - i,
    {
        assert(t[(i - start) as int] == cs@[i as int]);
        i = i + 1;
    }
    if i < cs.len() {
        assert(t[(i - start) as int] == cs@[i as int]);
    }
    let w = crate::text::slice_range(cs.as_slice(), start, i);
    let r = string_of(w.as_slice());
    assert(r@ =~= t.take(word_len(t, 0)));
    r
}

fn contains_word(denied: &Vec<String>, w: &str) -> (r: bool)
    ensures
        r == denied@.map_values(|s: String| s@).contains(w@),
{
    let ghost m = denied@.map_values(|s: String| s@);
    let mut i: usize = 0;
    while i < denied.len()
        invariant
            i <= denied@.len(),
            m == denied@.map_values(|s: String| s@),
            forall|j: int| 0 <= j < i ==> m[j] != w@,
        decreases denied@.len() - i,
    {
        if crate::text::str_eq(denied[i].as_str(), w) {
            assert(m[i as int] == w@);
            return true;
        }
        i = i + 1;
    }
    false
}

pub fn terminal_validate(input: &JsonValue, denied_commands: &Vec<String>) -> (r: Result<(), String>)
    ensures
        unit_result(r) == terminal_check(*input, denied_commands@.map_values(|s: String| s@)),
{
    let c = match input.get("command") {
        Some(v) => match v.as_str() {
            Some(c) => c,
            None => return Err(String::from_str("terminal: 'command' must be a string")),
        },
        None => return Err(String::from_str("terminal: 'command' must be a string")),
    };
    if trim_str(c).as_str().is_empty() {
        return Err(String::from_str("terminal: 'command' must not be empty"));
    }
    let bad_timeout = match input.get("timeout_secs") {
        Some(v) => match v.as_number() {
            Some(JsonNumber::PosInt(t)) => t == 0 || t > MAX_TIMEOUT_SECS,
            _ => false,
        },
        None => false,
    };
    if bad_timeout {
        return Err(String::from_str("terminal: timeout_secs must be 1..300"));
    }
    let w = first_word(c);
    if contains_word(denied_commands, w.as_str()) {
        return Err(concat3("terminal: command '", w.as_str(), "' is denied"));
    }
    Ok(())
}

/// `file_read`: the path must be a non-empty string.  Gives the path.
pub fn file_read_path(input: &JsonValue) -> (r: Result<String, String>)
    ensures
        match member_str(*input, "path"@) {
            None => r matches Err(e) && e@ == "file_read: 'path' must be a string"@,
            Some(p) => if p.len() == 0 {
                r matches Err(e) && e@ == "file_read: 'path' must not be empty"@
            } else {
                r matches Ok(x) && x@ == p
            },
        },
{
    let p = match input.get("path") {
        Some(v) => match v.as_str() {
            Some(p) => p,
            None => return Err(String::from_str("file_read: 'path' must be a string")),
        },
        None => return Err(String::from_str("file_read: 'path' must be a string")),
    };
    if p.is_empty() {
        return Err(String::from_str("file_read: 'path' must not be empty"));
    }
    Ok(String::from_str(p))
}

/// `file_write`: the path must be a non-empty string and the content a
/// string.  Gives the path.
pub fn file_write_path(input: &JsonValue) -> (r: Result<String, String>)
    ensures
        match member_str(*input, "path"@) {
            None => r matches Err(e) && e@ == "file_write: 'path' must be a string"@,
            Some(p) => if p.len() == 0 {
                r matches Err(e) && e@ == "file_write: 'path' must not be empty"@
            } else if member_str(*input, "content"@) is None {
                r matches Err(e) && e@ == "file_write: 'content' must be a string"@
            } else {
                r matches Ok(x) && x@ == p
            },
        },
{
    let p = match input.get("path") {
        Some(v) => match v.as_str() {
            Some(p) => p,
            None => return Err(String::from_str("file_write: 'path' must be a string")),
        },
        None => return Err(String::from_str("file_write: 'path' must be a string")),
    };
    if p.is_empty() {
        return Err(String::from_str("file_write: 'path' must not be empty"));
    }
    let has_content = match input.get("content") {
        Some(v) => v.as_str().is_some(),
        None => false,
    };
    if !has_content {
        return Err(String::from_str("file_write: 'content' must be a string"));
    }
    Ok(String::from_str(p))
}

} // verus!
