//! The events streamed to the player for one reply: the utterance one
//! character at a time, then the complete line, a stage change when the
//! stage moved, each revealed clue, and a final `done`.
use vstd::prelude::*;

use crate::json::{lookup, member, member_str, push_field, JsonValue};
use crate::text::{chars_of, push_char, str_eq, string_of};

verus! {

/// One streamed event: its name and payload.
#[derive(Debug)]
pub struct NarrativeStreamEvent {
    pub event: &'static str,
    pub payload: JsonValue,
}

/// What a reply streams.
pub struct MessageStreamInput<'a> {
    pub session_id: &'a str,
    pub npc_id: &'a str,
    pub utterance: &'a str,
    pub emotion: &'a str,
    pub old_confession_stage: &'a str,
    pub confession_stage: &'a str,
    pub stage_change_reason: Option<&'a str>,
    pub revealed_clues: &'a [String],
}

/// The `i`-th chunk: the `i`-th character and the text up to it.
pub open spec fn chunk_ok(e: NarrativeStreamEvent, sid: Seq<char>, nid: Seq<char>, u: Seq<char>, i: int) -> bool {
    &&& e.event@ == "utterance_chunk"@
    &&& member_str(e.payload, "session_id"@) == Some(sid)
    &&& member_str(e.payload, "npc_id"@) == Some(nid)
    &&& member_str(e.payload, "text"@) == Some(seq![u[i]])
    &&& member_str(e.payload, "cumulative"@) == Some(u.subrange(0, i + 1))
}

pub open spec fn complete_ok(
    e: NarrativeStreamEvent,
    sid: Seq<char>,
    nid: Seq<char>,
    u: Seq<char>,
    emotion: Seq<char>,
) -> bool {
    &&& e.event@ == "utterance_complete"@
    &&& member_str(e.payload, "session_id"@) == Some(sid)
    &&& member_str(e.payload, "npc_id"@) == Some(nid)
    &&& member_str(e.payload, "full_text"@) == Some(u)
    &&& member_str(e.payload, "emotion"@) == Some(emotion)
}

pub open spec fn stage_ok(
    e: NarrativeStreamEvent,
    sid: Seq<char>,
    old: Seq<char>,
    new: Seq<char>,
    reason: Option<Seq<char>>,
) -> bool {
    &&& e.event@ == "stage_change"@
    &&& member_str(e.payload, "session_id"@) == Some(sid)
    &&& member_str(e.payload, "old_stage"@) == Some(old)
    &&& member_str(e.payload, "new_stage"@) == Some(new)
    &&& match reason {
        Some(r) => member_str(e.payload, "reason"@) == Some(r),
        None => member(e.payload, "reason"@) == Some(JsonValue::Null),
    }
}

pub open spec fn clue_ok(e: NarrativeStreamEvent, sid: Seq<char>, clue: Seq<char>) -> bool {
    &&& e.event@ == "clue_unlocked"@
    &&& member_str(e.payload, "session_id"@) == Some(sid)
    &&& member_str(e.payload, "clue_id"@) == Some(clue)
}

pub open spec fn done_ok(e: NarrativeStreamEvent, sid: Seq<char>, stage: Seq<char>) -> bool {
    &&& e.event@ == "done"@
    &&& member_str(e.payload, "session_id"@) == Some(sid)
    &&& member_str(e.payload, "confession_stage"@) == Some(stage)
}

fn str_value(s: &str) -> (r: JsonValue)
    ensures
        r matches JsonValue::String(t) && t@ == s@,
{
    JsonValue::String(String::from_str(s))
}

/// One chunk event per character of the utterance.
pub fn utterance_chunk_events(session_id: &str, npc_id: &str, utterance: &str) -> (r: Vec<
    NarrativeStreamEvent,
>)
    ensures
        r@.len() == utterance@.len(),
        forall|i: int|
            0 <= i < r@.len() ==> chunk_ok(#[trigger] r@[i], session_id@, npc_id@, utterance@, i),
{
    proof {
        reveal_strlit("session_id");
        reveal_strlit("npc_id");
        reveal_strlit("text");
        reveal_strlit("cumulative");
        reveal_strlit("utterance_chunk");
        assert("session_id"@.len() == 10);
        assert("npc_id"@.len() == 6);
        assert("text"@.len() == 4);
        assert("cumulative"@.len() == 10);
        assert("session_id"@[0] != "cumulative"@[0]);
    }
    let chars = chars_of(utterance);
    let mut events: Vec<NarrativeStreamEvent> = Vec::new();
    let mut cumulative = String::new();
    let mut i: usize = 0;
    while i < chars.len()
        invariant
            i <= chars@.len(),
            chars@ == utterance@,
            cumulative@ == utterance@.subrange(0, i as int),
            events@.len() == i,
            forall|j: int|
                0 <= j < i ==> chunk_ok(#[trigger] events@[j], session_id@, npc_id@, utterance@, j),
        decreases chars@.len() - i,
    {
        proof {
            reveal_strlit("session_id");
            reveal_strlit("npc_id");
            reveal_strlit("text");
            reveal_strlit("cumulative");
            reveal_strlit("utterance_chunk");
            assert("session_id"@.len() == 10);
            assert("npc_id"@.len() == 6);
            assert("text"@.len() == 4);
            assert("cumulative"@.len() == 10);
            assert("session_id"@[0] != "cumulative"@[0]);
        }
        let c = chars[i];
        push_char(&mut cumulative, c);
        assert(cumulative@ =~= utterance@.subrange(0, i + 1));
        let one = vec![c];
        let text = string_of(one.as_slice());
        assert(text@ =~= seq![utterance@[i as int]]);
        let mut payload: Vec<(String, JsonValue)> = Vec::new();
        push_field(&mut payload, "session_id", str_value(session_id));
        push_field(&mut payload, "npc_id", str_value(npc_id));
        push_field(&mut payload, "text", JsonValue::String(text));
        push_field(&mut payload, "cumulative", JsonValue::String(cumulative.clone()));
        let ghost pl = payload@;
        let ghost before = events@;
        events.push(NarrativeStreamEvent { event: "utterance_chunk", payload: JsonValue::Object(payload) });
        proof {
            assert(lookup(pl, "text"@) == Some(JsonValue::String(text)));
            assert(lookup(pl, "cumulative"@) matches Some(JsonValue::String(t)) && t@ == utterance@.subrange(0, i + 1));
            assert(chunk_ok(events@[i as int], session_id@, npc_id@, utterance@, i as int));
            assert forall|j: int| 0 <= j < i implies events@[j] == before[j] by {}
        }
        i = i + 1;
    }
    events
}

/// The events a reply streams, in order: one chunk per character, the
/// complete utterance, the stage change when the stage moved, one event
/// per revealed clue, and `done`.
pub fn message_events(input: MessageStreamInput<'_>) -> (r: Vec<NarrativeStreamEvent>)
    ensures
        ({
            let n = input.utterance@.len() as int;
            let changed = input.old_confession_stage@ != input.confession_stage@;
            let k = if changed { n + 2 } else { n + 1 };
            let clues = input.revealed_clues@;
            &&& r@.len() == k + clues.len() + 1
            &&& forall|i: int|
                0 <= i < n ==> chunk_ok(
                    #[trigger] r@[i],
                    input.session_id@,
                    input.npc_id@,
                    input.utterance@,
                    i,
                )
            &&& complete_ok(
                r@[n],
                input.session_id@,
                input.npc_id@,
                input.utterance@,
                input.emotion@,
            )
            &&& changed ==> stage_ok(
                r@[n + 1],
                input.session_id@,
                input.old_confession_stage@,
                input.confession_stage@,
                match input.stage_change_reason {
                    Some(s) => Some(s@),
                    None => None,
                },
            )
            &&& forall|j: int|
                0 <= j < clues.len() ==> clue_ok(#[trigger] r@[k + j], input.session_id@, clues[j]@)
            &&& done_ok(r@[k + clues.len()], input.session_id@, input.confession_stage@)
        }),
{
    proof {
        reveal_strlit("session_id");
        reveal_strlit("npc_id");
        reveal_strlit("full_text");
        reveal_strlit("emotion");
        reveal_strlit("old_stage");
        reveal_strlit("new_stage");
        reveal_strlit("reason");
        reveal_strlit("clue_id");
        reveal_strlit("confession_stage");
        reveal_strlit("utterance_complete");
        reveal_strlit("stage_change");
        reveal_strlit("clue_unlocked");
        reveal_strlit("done");
        assert("session_id"@.len() == 10);
        assert("npc_id"@.len() == 6);
        assert("full_text"@.len() == 9);
        assert("emotion"@.len() == 7);
        assert("old_stage"@.len() == 9);
        assert("new_stage"@.len() == 9);
        assert("reason"@.len() == 6);
        assert("clue_id"@.len() == 7);
        assert("confession_stage"@.len() == 16);
        assert("npc_id"@[0] != "reason"@[0]);
        assert("old_stage"@[0] != "new_stage"@[0]);
    }
    let mut events = utterance_chunk_events(input.session_id, input.npc_id, input.utterance);
    let ghost n = events@.len() as int;
    let mut p1: Vec<(String, JsonValue)> = Vec::new();
    push_field(&mut p1, "session_id", str_value(input.session_id));
    push_field(&mut p1, "npc_id", str_value(input.npc_id));
    push_field(&mut p1, "full_text", str_value(input.utterance));
    push_field(&mut p1, "emotion", str_value(input.emotion));
    events.push(NarrativeStreamEvent { event: "utterance_complete", payload: JsonValue::Object(p1) });
    if !str_eq(input.old_confession_stage, input.confession_stage) {
        let mut p2: Vec<(String, JsonValue)> = Vec::new();
        push_field(&mut p2, "session_id", str_value(input.session_id));
        push_field(&mut p2, "old_stage", str_value(input.old_confession_stage));
        push_field(&mut p2, "new_stage", str_value(input.confession_stage));
        let reason = match input.stage_change_reason {
            Some(s) => str_value(s),
            None => JsonValue::Null,
        };
        push_field(&mut p2, "reason", reason);
        events.push(NarrativeStreamEvent { event: "stage_change", payload: JsonValue::Object(p2) });
    }
    let ghost k = events@.len() as int;
    let ghost prefix = events@;
    let clues = input.revealed_clues;
    let mut j: usize = 0;
    while j < clues.len()
        invariant
            j <= clues@.len(),
            events@.len() == k + j,
            prefix.len() == k,
            forall|i: int| 0 <= i < k ==> #[trigger] events@[i] == prefix[i],
            forall|q: int|
                0 <= q < j ==> clue_ok(#[trigger] events@[k + q], input.session_id@, clues@[q]@),
        decreases clues@.len() - j,
    {
        proof {
            reveal_strlit("session_id");
            reveal_strlit("clue_id");
            reveal_strlit("clue_unlocked");
            assert("session_id"@.len() == 10);
            assert("clue_id"@.len() == 7);
        }
        let mut p3: Vec<(String, JsonValue)> = Vec::new();
        push_field(&mut p3, "session_id", str_value(input.session_id));
        push_field(&mut p3, "clue_id", str_value(clues[j].as_str()));
        let ghost before = events@;
        events.push(NarrativeStreamEvent { event: "clue_unlocked", payload: JsonValue::Object(p3) });
        proof {
            assert(clue_ok(events@[k + j], input.session_id@, clues@[j as int]@));
            assert forall|q: int| 0 <= q < k + j implies events@[q] == before[q] by {}
        }
        j = j + 1;
    }
    let mut p4: Vec<(String, JsonValue)> = Vec::new();
    push_field(&mut p4, "session_id", str_value(input.session_id));
    push_field(&mut p4, "confession_stage", str_value(input.confession_stage));
    events.push(NarrativeStreamEvent { event: "done", payload: JsonValue::Object(p4) });
    events
}

} // verus!
