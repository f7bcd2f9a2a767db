//! The messages of a session as they are logged.
use vstd::prelude::*;

use crate::ipc::decode::{all_strings, string_items};
use crate::json::{field_is, member, member_str, object_is, opt_field, push_field, str_is, FieldV, JsonNumber, JsonValue};
use crate::narrative::reply::{views, NarrativeReply};

verus! {

/// A timestamp as a JSON number.
pub open spec fn ts_number(ts: i64) -> JsonNumber {
    if ts >= 0 {
        JsonNumber::PosInt(ts as u64)
    } else {
        JsonNumber::NegInt(ts)
    }
}

/// The members of the logged form of what the player said.
pub open spec fn player_log_fields(
    player_text: Seq<char>,
    evidence_id: Option<Seq<char>>,
    pressure_level: Seq<char>,
    ts: i64,
) -> Seq<(Seq<char>, FieldV)> {
    seq![
        ("role"@, FieldV::Str("player"@)),
        ("text"@, FieldV::Str(player_text)),
        ("evidence_id"@, opt_field(evidence_id)),
        ("pressure_level"@, FieldV::Str(pressure_level)),
        ("ts"@, FieldV::Num(ts_number(ts))),
    ]
}

/// The members of the logged form of the character's reply.
pub open spec fn npc_log_fields(reply: NarrativeReply, ts: i64) -> Seq<(Seq<char>, FieldV)> {
    seq![
        ("role"@, FieldV::Str("npc"@)),
        ("text"@, FieldV::Str(reply.utterance@)),
        ("emotion"@, FieldV::Str(reply.emotion@)),
        ("confession_stage"@, FieldV::Str(reply.confession_stage@)),
        ("revealed_clues"@, FieldV::Strs(views(reply.revealed_clues@))),
        ("ts"@, FieldV::Num(ts_number(ts))),
    ]
}

fn ts_value(ts: i64) -> (r: JsonValue)
    ensures
        r == JsonValue::Number(ts_number(ts)),
{
    if ts >= 0 {
        JsonValue::Number(JsonNumber::PosInt(ts as u64))
    } else {
        JsonValue::Number(JsonNumber::NegInt(ts))
    }
}

fn clue_list(v: &[String]) -> (r: JsonValue)
    ensures
        r matches JsonValue::Array(items) && all_strings(items@) && string_items(items@).map_values(
            |s: String| s@,
        ) == views(v@),
        field_is(r, FieldV::Strs(views(v@))),
{
    let mut items: Vec<JsonValue> = Vec::new();
    let mut i: usize = 0;
    while i < v.len()
        invariant
            i <= v@.len(),
            all_strings(items@),
            string_items(items@).map_values(|s: String| s@) == views(v@.subrange(0, i as int)),
            items@.len() == i,
            forall|j: int| 0 <= j < i ==> str_is(#[trigger] items@[j], v@[j]@),
        decreases v@.len() - i,
    {
        let ghost before = items@;
        items.push(JsonValue::String(v[i].clone()));
        proof {
            assert(string_items(items@) =~= string_items(before).push(v@[i as int]));
            assert(string_items(items@).map_values(|s: String| s@) =~= string_items(before).map_values(
                |s: String| s@,
            ).push(v@[i as int]@));
            assert(views(v@.subrange(0, i + 1)) =~= views(v@.subrange(0, i as int)).push(
                v@[i as int]@,
            ));
        }
        i = i + 1;
    }
    assert(v@.subrange(0, v@.len() as int) =~= v@);
    JsonValue::Array(items)
}

/// The logged form of what the player said.
pub fn player_message(player_text: &str, evidence_id: Option<&str>, pressure_level: &str, ts: i64) -> (r:
    JsonValue)
    ensures
        member_str(r, "role"@) == Some("player"@),
        member_str(r, "text"@) == Some(player_text@),
        match evidence_id {
            Some(e) => member_str(r, "evidence_id"@) == Some(e@),
            None => member(r, "evidence_id"@) == Some(JsonValue::Null),
        },
        member_str(r, "pressure_level"@) == Some(pressure_level@),
        member(r, "ts"@) == Some(JsonValue::Number(ts_number(ts))),
        object_is(
            r,
            player_log_fields(
                player_text@,
                match evidence_id {
                    Some(e) => Some(e@),
                    None => None,
                },
                pressure_level@,
                ts,
            ),
        ),
{
    proof {
        reveal_strlit("role");
        reveal_strlit("text");
        reveal_strlit("evidence_id");
        reveal_strlit("pressure_level");
        reveal_strlit("ts");
        assert("role"@.len() == 4);
        assert("text"@.len() == 4);
        assert("role"@[0] != "text"@[0]);
        assert("evidence_id"@.len() == 11);
        assert("pressure_level"@.len() == 14);
        assert("ts"@.len() == 2);
    }
    let mut es: Vec<(String, JsonValue)> = Vec::new();
    push_field(&mut es, "role", JsonValue::String(String::from_str("player")));
    push_field(&mut es, "text", JsonValue::String(String::from_str(player_text)));
    let ev = match evidence_id {
        Some(e) => JsonValue::String(String::from_str(e)),
        None => JsonValue::Null,
    };
    push_field(&mut es, "evidence_id", ev);
    push_field(&mut es, "pressure_level", JsonValue::String(String::from_str(pressure_level)));
    push_field(&mut es, "ts", ts_value(ts));
    JsonValue::Object(es)
}

/// The logged form of the character's reply.
pub fn npc_message(reply: &NarrativeReply, ts: i64) -> (r: JsonValue)
    ensures
        member_str(r, "role"@) == Some("npc"@),
        member_str(r, "text"@) == Some(reply.utterance@),
        member_str(r, "emotion"@) == Some(reply.emotion@),
        member_str(r, "confession_stage"@) == Some(reply.confession_stage@),
        member(r, "revealed_clues"@) matches Some(JsonValue::Array(items)) && all_strings(items@)
            && string_items(items@).map_values(|s: String| s@) == views(reply.revealed_clues@),
        member(r, "ts"@) == Some(JsonValue::Number(ts_number(ts))),
        object_is(r, npc_log_fields(*reply, ts)),
{
    proof {
        reveal_strlit("role");
        reveal_strlit("text");
        reveal_strlit("emotion");
        reveal_strlit("confession_stage");
        reveal_strlit("revealed_clues");
        reveal_strlit("ts");
        assert("role"@.len() == 4);
        assert("text"@.len() == 4);
        assert("role"@[0] != "text"@[0]);
        assert("emotion"@.len() == 7);
        assert("confession_stage"@.len() == 16);
        assert("revealed_clues"@.len() == 14);
        assert("ts"@.len() == 2);
    }
    let mut es: Vec<(String, JsonValue)> = Vec::new();
    push_field(&mut es, "role", JsonValue::String(String::from_str("npc")));
    push_field(&mut es, "text", JsonValue::String(reply.utterance.clone()));
    push_field(&mut es, "emotion", JsonValue::String(reply.emotion.clone()));
    push_field(&mut es, "confession_stage", JsonValue::String(reply.confession_stage.clone()));
    push_field(&mut es, "revealed_clues", clue_list(reply.revealed_clues.as_slice()));
    push_field(&mut es, "ts", ts_value(ts));
    JsonValue::Object(es)
}

} // verus!
