//! Payloads of the events a narrative session records.
use vstd::prelude::*;

use crate::ipc::decode::{all_strings, string_items};
use crate::json::{field_is, member, member_str, object_is, opt_field, push_field, str_is, FieldV, JsonValue};
use crate::narrative::reply::{views, NarrativeReply};

verus! {

/// An optional string slice by its characters.
pub open spec fn opt_view(o: Option<&str>) -> Option<Seq<char>> {
    match o {
        Some(t) => Some(t@),
        None => None,
    }
}

/// The members of a `player_message` event.
pub open spec fn player_message_fields(
    session_id: Seq<char>,
    npc_id: Seq<char>,
    player_text: Seq<char>,
    evidence_id: Option<Seq<char>>,
    pressure_level: Seq<char>,
    confession_stage: Seq<char>,
) -> Seq<(Seq<char>, FieldV)> {
    seq![
        ("session_id"@, FieldV::Str(session_id)),
        ("npc_id"@, FieldV::Str(npc_id)),
        ("player_text"@, FieldV::Str(player_text)),
        ("evidence_id"@, opt_field(evidence_id)),
        ("pressure_level"@, FieldV::Str(pressure_level)),
        ("confession_stage"@, FieldV::Str(confession_stage)),
    ]
}

/// The members of a `stage_change` event.
pub open spec fn stage_change_fields(
    session_id: Seq<char>,
    npc_id: Seq<char>,
    old_stage: Seq<char>,
    new_stage: Seq<char>,
    reason: Seq<char>,
) -> Seq<(Seq<char>, FieldV)> {
    seq![
        ("session_id"@, FieldV::Str(session_id)),
        ("npc_id"@, FieldV::Str(npc_id)),
        ("old_stage"@, FieldV::Str(old_stage)),
        ("new_stage"@, FieldV::Str(new_stage)),
        ("reason"@, FieldV::Str(reason)),
    ]
}

/// The members of an `npc_reply` event.
pub open spec fn npc_reply_fields(session_id: Seq<char>, npc_id: Seq<char>, reply: NarrativeReply) -> Seq<
    (Seq<char>, FieldV),
> {
    seq![
        ("session_id"@, FieldV::Str(session_id)),
        ("npc_id"@, FieldV::Str(npc_id)),
        ("utterance"@, FieldV::Str(reply.utterance@)),
        ("emotion"@, FieldV::Str(reply.emotion@)),
        ("confession_stage"@, FieldV::Str(reply.confession_stage@)),
        ("revealed_clues"@, FieldV::Strs(views(reply.revealed_clues@))),
        ("validation_status"@, FieldV::Str(reply.validation_status@)),
        ("validation_error"@, opt_field(match reply.validation_error {
            Some(e) => Some(e@),
            None => None,
        })),
    ]
}

/// The members of a `clue_unlocked` event for a non-empty list of clues.
pub open spec fn clue_unlocked_fields(session_id: Seq<char>, npc_id: Seq<char>, clue_ids: Seq<Seq<char>>) -> Seq<
    (Seq<char>, FieldV),
> {
    seq![
        ("session_id"@, FieldV::Str(session_id)),
        ("npc_id"@, FieldV::Str(npc_id)),
        ("clue_id"@, FieldV::Str(clue_ids[0])),
        ("clue_ids"@, FieldV::Strs(clue_ids)),
    ]
}

fn str_value(s: &str) -> (r: JsonValue)
    ensures
        r matches JsonValue::String(t) && t@ == s@,
        field_is(r, FieldV::Str(s@)),
{
    JsonValue::String(String::from_str(s))
}

fn opt_value(s: Option<&str>) -> (r: JsonValue)
    ensures
        match s {
            Some(t) => r matches JsonValue::String(u) && u@ == t@,
            None => r == JsonValue::Null,
        },
        field_is(r, opt_field(opt_view(s))),
{
    match s {
        Some(t) => str_value(t),
        None => JsonValue::Null,
    }
}

fn strings_value(v: &[String]) -> (r: JsonValue)
    ensures
        r matches JsonValue::Array(items) && all_strings(items@) && string_items(items@).map_values(
            |s: String| s@,
        ) == views(v@),
        field_is(r, FieldV::Strs(views(v@))),
{
    let mut items: Vec<JsonValue> = Vec::new();
    let mut i: usize = 0;
    while i < v.len()
        invariant
            i <= v@.len(),
            all_strings(items@),
            string_items(items@).map_values(|s: String| s@) == views(v@.subrange(0, i as int)),
            items@.len() == i,
            forall|j: int| 0 <= j < i ==> str_is(#[trigger] items@[j], v@[j]@),
        decreases v@.len() - i,
    {
        let ghost before = items@;
        items.push(JsonValue::String(v[i].clone()));
        proof {
            assert(string_items(items@) =~= string_items(before).push(v@[i as int]));
            assert(string_items(items@).map_values(|s: String| s@) =~= string_items(before).map_values(
                |s: String| s@,
            ).push(v@[i as int]@));
            assert(views(v@.subrange(0, i + 1)) =~= views(v@.subrange(0, i as int)).push(
                v@[i as int]@,
            ));
        }
        i = i + 1;
    }
    assert(v@.subrange(0, v@.len() as int) =~= v@);
    JsonValue::Array(items)
}

/// `session_start`: who is questioned in which case, from which stage.
pub fn session_start(session_id: &str, npc_id: &str, case_id: &str, confession_stage: &str) -> (r:
    JsonValue)
    ensures
        member_str(r, "session_id"@) == Some(session_id@),
        member_str(r, "npc_id"@) == Some(npc_id@),
        member_str(r, "case_id"@) == Some(case_id@),
        member_str(r, "confession_stage"@) == Some(confession_stage@),
{
    proof {
        reveal_strlit("session_id");
        reveal_strlit("npc_id");
        reveal_strlit("case_id");
        reveal_strlit("confession_stage");
        assert("session_id"@.len() == 10);
        assert("npc_id"@.len() == 6);
        assert("case_id"@.len() == 7);
        assert("confession_stage"@.len() == 16);
    }
    let mut es: Vec<(String, JsonValue)> = Vec::new();
    push_field(&mut es, "session_id", str_value(session_id));
    push_field(&mut es, "npc_id", str_value(npc_id));
    push_field(&mut es, "case_id", str_value(case_id));
    push_field(&mut es, "confession_stage", str_value(confession_stage));
    JsonValue::Object(es)
}

/// `session_end`: why the session ended and at which stage.
pub fn session_end(session_id: &str, npc_id: &str, reason: &str, final_stage: &str) -> (r: JsonValue)
    ensures
        member_str(r, "session_id"@) == Some(session_id@),
        member_str(r, "npc_id"@) == Some(npc_id@),
        member_str(r, "reason"@) == Some(reason@),
        member_str(r, "final_stage"@) == Some(final_stage@),
{
    proof {
        reveal_strlit("session_id");
        reveal_strlit("npc_id");
        reveal_strlit("reason");
        reveal_strlit("final_stage");
        assert("session_id"@.len() == 10);
        assert("npc_id"@.len() == 6);
        assert("reason"@.len() == 6);
        assert("final_stage"@.len() == 11);
        assert("npc_id"@[0] != "reason"@[0]);
    }
    let mut es: Vec<(String, JsonValue)> = Vec::new();
    push_field(&mut es, "session_id", str_value(session_id));
    push_field(&mut es, "npc_id", str_value(npc_id));
    push_field(&mut es, "reason", str_value(reason));
    push_field(&mut es, "final_stage", str_value(final_stage));
    JsonValue::Object(es)
}

/// `player_message`: what the player said, the evidence shown (`null`
/// when none), the pressure and the stage at that moment.
pub fn player_message(
    session_id: &str,
    npc_id: &str,
    player_text: &str,
    evidence_id: Option<&str>,
    pressure_level: &str,
    confession_stage: &str,
) -> (r: JsonValue)
    ensures
        member_str(r, "session_id"@) == Some(session_id@),
        member_str(r, "npc_id"@) == Some(npc_id@),
        member_str(r, "player_text"@) == Some(player_text@),
        match evidence_id {
            Some(e) => member_str(r, "evidence_id"@) == Some(e@),
            None => member(r, "evidence_id"@) == Some(JsonValue::Null),
        },
        member_str(r, "pressure_level"@) == Some(pressure_level@),
        member_str(r, "confession_stage"@) == Some(confession_stage@),
        object_is(
            r,
            player_message_fields(
                session_id@,
                npc_id@,
                player_text@,
                opt_view(evidence_id),
                pressure_level@,
                confession_stage@,
            ),
        ),
{
    proof {
        reveal_strlit("session_id");
        reveal_strlit("npc_id");
        reveal_strlit("player_text");
        reveal_strlit("evidence_id");
        reveal_strlit("pressure_level");
        reveal_strlit("confession_stage");
        assert("session_id"@.len() == 10);
        assert("npc_id"@.len() == 6);
        assert("player_text"@.len() == 11);
        assert("evidence_id"@.len() == 11);
        assert("pressure_level"@.len() == 14);
        assert("confession_stage"@.len() == 16);
        assert("player_text"@[0] != "evidence_id"@[0]);
    }
    let mut es: Vec<(String, JsonValue)> = Vec::new();
    push_field(&mut es, "session_id", str_value(session_id));
    push_field(&mut es, "npc_id", str_value(npc_id));
    push_field(&mut es, "player_text", str_value(player_text));
    push_field(&mut es, "evidence_id", opt_value(evidence_id));
    push_field(&mut es, "pressure_level", str_value(pressure_level));
    push_field(&mut es, "confession_stage", str_value(confession_stage));
    JsonValue::Object(es)
}

/// `stage_change`: the stage moved from `old_stage` to `new_stage`.
pub fn stage_change(session_id: &str, npc_id: &str, old_stage: &str, new_stage: &str, reason: &str) -> (r:
    JsonValue)
    ensures
        member_str(r, "session_id"@) == Some(session_id@),
        member_str(r, "npc_id"@) == Some(npc_id@),
        member_str(r, "old_stage"@) == Some(old_stage@),
        member_str(r, "new_stage"@) == Some(new_stage@),
        member_str(r, "reason"@) == Some(reason@),
        object_is(r, stage_change_fields(session_id@, npc_id@, old_stage@, new_stage@, reason@)),
{
    proof {
        reveal_strlit("session_id");
        reveal_strlit("npc_id");
        reveal_strlit("old_stage");
        reveal_strlit("new_stage");
        reveal_strlit("reason");
        assert("session_id"@.len() == 10);
        assert("npc_id"@.len() == 6);
        assert("old_stage"@.len() == 9);
        assert("new_stage"@.len() == 9);
        assert("reason"@.len() == 6);
        assert("npc_id"@[0] != "reason"@[0]);
        assert("old_stage"@[0] != "new_stage"@[0]);
    }
    let mut es: Vec<(String, JsonValue)> = Vec::new();
    push_field(&mut es, "session_id", str_value(session_id));
    push_field(&mut es, "npc_id", str_value(npc_id));
    push_field(&mut es, "old_stage", str_value(old_stage));
    push_field(&mut es, "new_stage", str_value(new_stage));
    push_field(&mut es, "reason", str_value(reason));
    JsonValue::Object(es)
}

/// `npc_reply`: the reply recorded for a turn.
pub fn npc_reply(session_id: &str, npc_id: &str, reply: &NarrativeReply) -> (r: JsonValue)
    ensures
        member_str(r, "session_id"@) == Some(session_id@),
        member_str(r, "npc_id"@) == Some(npc_id@),
        member_str(r, "utterance"@) == Some(reply.utterance@),
        member_str(r, "emotion"@) == Some(reply.emotion@),
        member_str(r, "confession_stage"@) == Some(reply.confession_stage@),
        member(r, "revealed_clues"@) matches Some(JsonValue::Array(items)) && all_strings(items@)
            && string_items(items@).map_values(|s: String| s@) == views(reply.revealed_clues@),
        member_str(r, "validation_status"@) == Some(reply.validation_status@),
        match reply.validation_error {
            Some(e) => member_str(r, "validation_error"@) == Some(e@),
            None => member(r, "validation_error"@) == Some(JsonValue::Null),
        },
        object_is(r, npc_reply_fields(session_id@, npc_id@, *reply)),
{
    proof {
        reveal_strlit("session_id");
        reveal_strlit("npc_id");
        reveal_strlit("utterance");
        reveal_strlit("emotion");
        reveal_strlit("confession_stage");
        reveal_strlit("revealed_clues");
        reveal_strlit("validation_status");
        reveal_strlit("validation_error");
        assert("session_id"@.len() == 10);
        assert("npc_id"@.len() == 6);
        assert("utterance"@.len() == 9);
        assert("emotion"@.len() == 7);
        assert("confession_stage"@.len() == 16);
        assert("revealed_clues"@.len() == 14);
        assert("validation_status"@.len() == 17);
        assert("validation_error"@.len() == 16);
        assert("confession_stage"@[0] != "validation_error"@[0]);
    }
    let mut es: Vec<(String, JsonValue)> = Vec::new();
    push_field(&mut es, "session_id", str_value(session_id));
    push_field(&mut es, "npc_id", str_value(npc_id));
    push_field(&mut es, "utterance", str_value(reply.utterance.as_str()));
    push_field(&mut es, "emotion", str_value(reply.emotion.as_str()));
    push_field(&mut es, "confession_stage", str_value(reply.confession_stage.as_str()));
    push_field(&mut es, "revealed_clues", strings_value(reply.revealed_clues.as_slice()));
    push_field(&mut es, "validation_status", str_value(reply.validation_status.as_str()));
    let err = match &reply.validation_error {
        Some(e) => str_value(e.as_str()),
        None => JsonValue::Null,
    };
    push_field(&mut es, "validation_error", err);
    JsonValue::Object(es)
}

/// `clue_unlocked`: the clues a turn revealed, the first one also as
/// `clue_id`; `None` when the turn revealed none.
pub fn clue_unlocked(session_id: &str, npc_id: &str, clue_ids: &[String]) -> (r: Option<JsonValue>)
    ensures
        (r is None) == (clue_ids@.len() == 0),
        r matches Some(v) ==> {
            &&& member_str(v, "session_id"@) == Some(session_id@)
            &&& member_str(v, "npc_id"@) == Some(npc_id@)
            &&& member_str(v, "clue_id"@) == Some(clue_ids@[0]@)
            &&& member(v, "clue_ids"@) matches Some(JsonValue::Array(items)) && all_strings(items@)
                && string_items(items@).map_values(|s: String| s@) == views(clue_ids@)
            &&& object_is(v, clue_unlocked_fields(session_id@, npc_id@, views(clue_ids@)))
        },
{
    proof {
        reveal_strlit("session_id");
        reveal_strlit("npc_id");
        reveal_strlit("clue_id");
        reveal_strlit("clue_ids");
        assert("session_id"@.len() == 10);
        assert("npc_id"@.len() == 6);
        assert("clue_id"@.len() == 7);
        assert("clue_ids"@.len() == 8);
    }
    if clue_ids.len() == 0 {
        return None;
    }
    let mut es: Vec<(String, JsonValue)> = Vec::new();
    push_field(&mut es, "session_id", str_value(session_id));
    push_field(&mut es, "npc_id", str_value(npc_id));
    push_field(&mut es, "clue_id", str_value(clue_ids[0].as_str()));
    push_field(&mut es, "clue_ids", strings_value(clue_ids));
    Some(JsonValue::Object(es))
}

} // verus!
