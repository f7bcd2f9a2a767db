//! Session state derived from the recorded messages and events.
use vstd::prelude::*;

use crate::json::{member, member_str, str_of, JsonValue};
use crate::narrative::reply::views;
use crate::text::str_eq;

verus! {

/// One recorded event: its type and payload.
#[derive(Debug, Clone, Copy)]
pub struct EventView<'a> {
    pub event_type: &'a str,
    pub payload: &'a JsonValue,
}

/// What a session looks like after its recorded turns.
#[derive(Debug)]
pub struct DerivedSessionState {
    pub emotional_state: String,
    pub turn_count: usize,
    pub unlocked_clues: Vec<String>,
    pub is_ended: bool,
}

/// Whether a message was said by the character.
pub open spec fn is_npc(m: JsonValue) -> bool {
    member_str(m, "role"@) == Some("npc"@)
}

/// How many messages the character said.
pub open spec fn npc_count(ms: Seq<JsonValue>) -> nat
    decreases ms.len(),
{
    if ms.len() == 0 {
        0
    } else {
        npc_count(ms.drop_last()) + if is_npc(ms.last()) {
            1nat
        } else {
            0nat
        }
    }
}

/// The turn count counts the character's messages: none for no message,
/// one more for a message whose role is `npc`, and no more for a message
/// with any other role or none.
pub proof fn lemma_npc_count_step(ms: Seq<JsonValue>, m: JsonValue)
    ensures
        npc_count(Seq::<JsonValue>::empty()) == 0,
        member_str(m, "role"@) == Some("npc"@) ==> npc_count(ms.push(m)) == npc_count(ms) + 1,
        member_str(m, "role"@) != Some("npc"@) ==> npc_count(ms.push(m)) == npc_count(ms),
{
    assert(ms.push(m).drop_last() =~= ms);
}

/// The emotion of the character's last message, `calm` when there is none
/// or it carries no emotion.
pub open spec fn last_emotion(ms: Seq<JsonValue>) -> Seq<char>
    decreases ms.len(),
{
    if ms.len() == 0 {
        "calm"@
    } else if is_npc(ms.last()) {
        match member_str(ms.last(), "emotion"@) {
            Some(e) => e,
            None => "calm"@,
        }
    } else {
        last_emotion(ms.drop_last())
    }
}

/// `clues` extended by `c` unless it holds it already.
pub open spec fn add_unique(clues: Seq<Seq<char>>, c: Seq<char>) -> Seq<Seq<char>> {
    if clues.contains(c) {
        clues
    } else {
        clues.push(c)
    }
}

/// Adds every string of a `clue_ids` list, in order.
pub open spec fn add_all(clues: Seq<Seq<char>>, items: Seq<JsonValue>) -> Seq<Seq<char>>
    decreases items.len(),
{
    if items.len() == 0 {
        clues
    } else {
        let c = add_all(clues, items.drop_last());
        match str_of(items.last()) {
            Some(s) => add_unique(c, s),
            None => c,
        }
    }
}

/// The clues one event unlocks on top of `clues`: a `clue_unlocked`
/// event adds its `clue_id`, then each of its `clue_ids`.
pub open spec fn event_clues(clues: Seq<Seq<char>>, t: Seq<char>, p: JsonValue) -> Seq<Seq<char>> {
    if t != "clue_unlocked"@ {
        clues
    } else {
        let c1 = match member_str(p, "clue_id"@) {
            Some(s) => add_unique(clues, s),
            None => clues,
        };
        match member(p, "clue_ids"@) {
            Some(JsonValue::Array(items)) => add_all(c1, items@),
            _ => c1,
        }
    }
}

/// The clues unlocked by a sequence of events, each once, in order.
pub open spec fn unlocked(evs: Seq<(Seq<char>, JsonValue)>) -> Seq<Seq<char>>
    decreases evs.len(),
{
    if evs.len() == 0 {
        seq![]
    } else {
        event_clues(unlocked(evs.drop_last()), evs.last().0, evs.last().1)
    }
}

pub open spec fn event_seq(events: Seq<EventView>) -> Seq<(Seq<char>, JsonValue)> {
    events.map_values(|e: EventView| (e.event_type@, *e.payload))
}

fn push_unique(values: &mut Vec<String>, value: &str)
    ensures
        views(final(values)@) == add_unique(views(old(values)@), value@),
{
    let mut i: usize = 0;
    while i < values.len()
        invariant
            i <= values@.len(),
            values@ == old(values)@,
            forall|j: int| 0 <= j < i ==> #[trigger] views(values@)[j] != value@,
        decreases values@.len() - i,
    {
        if str_eq(values[i].as_str(), value) {
            assert(views(values@)[i as int] == value@);
            return;
        }
        i = i + 1;
    }
    let ghost before = values@;
    values.push(String::from_str(value));
    assert(views(values@) =~= views(before).push(value@));
}

/// How many messages the character said.
pub fn turn_count(messages: &Vec<JsonValue>) -> (r: usize)
    ensures
        r == npc_count(messages@),
{
    let mut n: usize = 0;
    let mut i: usize = 0;
    while i < messages.len()
        invariant
            i <= messages@.len(),
            n == npc_count(messages@.subrange(0, i as int)),
            n <= i,
        decreases messages@.len() - i,
    {
        proof {
            assert(messages@.subrange(0, i + 1).drop_last() =~= messages@.subrange(0, i as int));
        }
        let npc = match messages[i].get("role") {
            Some(r) => match r.as_str() {
                Some(s) => str_eq(s, "npc"),
                None => false,
            },
            None => false,
        };
        if npc {
            n = n + 1;
        }
        i = i + 1;
    }
    assert(messages@.subrange(0, messages@.len() as int) =~= messages@);
    n
}

/// The character's current emotion: that of its last message.
pub fn emotional_state(messages: &Vec<JsonValue>) -> (r: String)
    ensures
        r@ == last_emotion(messages@),
{
    let mut i: usize = messages.len();
    assert(messages@.subrange(0, i as int) =~= messages@);
    while i > 0
        invariant
            i <= messages@.len(),
            last_emotion(messages@) == last_emotion(messages@.subrange(0, i as int)),
        decreases i,
    {
        let ghost pre = messages@.subrange(0, i as int);
        proof {
            assert(pre.drop_last() =~= messages@.subrange(0, i - 1));
            assert(pre.last() == messages@[i - 1]);
        }
        let m = &messages[i - 1];
        let npc = match m.get("role") {
            Some(r) => match r.as_str() {
                Some(s) => str_eq(s, "npc"),
                None => false,
            },
            None => false,
        };
        if npc {
            return match m.get("emotion") {
                Some(e) => match e.as_str() {
                    Some(s) => String::from_str(s),
                    None => String::from_str("calm"),
                },
                None => String::from_str("calm"),
            };
        }
        i = i - 1;
    }
    String::from_str("calm")
}

/// The clues unlocked by the events, each once, in order.
pub fn unlocked_clues(events: &Vec<EventView>) -> (r: Vec<String>)
    ensures
        views(r@) == unlocked(event_seq(events@)),
{
    let mut clues: Vec<String> = Vec::new();
    let mut i: usize = 0;
    while i < events.len()
        invariant
            i <= events@.len(),
            views(clues@) == unlocked(event_seq(events@.subrange(0, i as int))),
        decreases events@.len() - i,
    {
        proof {
            let s = event_seq(events@.subrange(0, i + 1));
            assert(s.drop_last() =~= event_seq(events@.subrange(0, i as int)));
            assert(s.last() == (events@[i as int].event_type@, *events@[i as int].payload));
        }
        let ev = events[i];
        if str_eq(ev.event_type, "clue_unlocked") {
            match ev.payload.get("clue_id") {
                Some(c) => match c.as_str() {
                    Some(s) => push_unique(&mut clues, s),
                    None => {},
                },
                None => {},
            }
            match ev.payload.get("clue_ids") {
                Some(list) => match list.as_array() {
                    Some(items) => {
                        let ghost start = views(clues@);
                        let mut k: usize = 0;
                        while k < items.len()
                            invariant
                                k <= items@.len(),
                                views(clues@) == add_all(start, items@.subrange(0, k as int)),
                            decreases items@.len() - k,
                        {
                            proof {
                                assert(items@.subrange(0, k + 1).drop_last() =~= items@.subrange(
                                    0,
                                    k as int,
                                ));
                            }
                            match items[k].as_str() {
                                Some(s) => push_unique(&mut clues, s),
                                None => {},
                            }
                            k = k + 1;
                        }
                        assert(items@.subrange(0, items@.len() as int) =~= items@);
                    },
                    None => {},
                },
                None => {},
            }
        }
        i = i + 1;
    }
    assert(events@.subrange(0, events@.len() as int) =~= events@);
    clues
}

/// Whether the session was ended.
pub fn is_ended(events: &Vec<EventView>) -> (r: bool)
    ensures
        r == exists|i: int| 0 <= i < events@.len() && #[trigger] events@[i].event_type@ == "session_end"@,
{
    let mut i: usize = 0;
    while i < events.len()
        invariant
            i <= events@.len(),
            forall|j: int| 0 <= j < i ==> #[trigger] events@[j].event_type@ != "session_end"@,
        decreases events@.len() - i,
    {
        if str_eq(events[i].event_type, "session_end") {
            return true;
        }
        i = i + 1;
    }
    false
}

/// Derives the session state from its messages and events.
pub fn derive_session_state(messages: &Vec<JsonValue>, events: &Vec<EventView>) -> (r:
    DerivedSessionState)
    ensures
        r.emotional_state@ == last_emotion(messages@),
        r.turn_count == npc_count(messages@),
        views(r.unlocked_clues@) == unlocked(event_seq(events@)),
        r.is_ended == exists|i: int|
            0 <= i < events@.len() && #[trigger] events@[i].event_type@ == "session_end"@,
{
    DerivedSessionState {
        emotional_state: emotional_state(messages),
        turn_count: turn_count(messages),
        unlocked_clues: unlocked_clues(events),
        is_ended: is_ended(events),
    }
}

/// However the events run, no clue is listed twice.
pub proof fn lemma_unlocked_unique(evs: Seq<(Seq<char>, JsonValue)>)
    ensures
        unlocked(evs).no_duplicates(),
    decreases evs.len(),
{
    if evs.len() > 0 {
        lemma_unlocked_unique(evs.drop_last());
        let u = unlocked(evs.drop_last());
        let p = evs.last().1;
        if evs.last().0 == "clue_unlocked"@ {
            let c1 = match member_str(p, "clue_id"@) {
                Some(s) => add_unique(u, s),
                None => u,
            };
            if let Some(s) = member_str(p, "clue_id"@) {
                lemma_add_unique(u, s);
            }
            if let Some(JsonValue::Array(items)) = member(p, "clue_ids"@) {
                lemma_add_all_unique(c1, items@);
            }
        }
    }
}

proof fn lemma_add_unique(clues: Seq<Seq<char>>, c: Seq<char>)
    requires
        clues.no_duplicates(),
    ensures
        add_unique(clues, c).no_duplicates(),
{
    if !clues.contains(c) {
        let n = clues.push(c);
        assert forall|i: int, j: int| 0 <= i < n.len() && 0 <= j < n.len() && i != j implies n[i]
            != n[j] by {
            if i < clues.len() && j < clues.len() {
            } else if i == clues.len() {
                assert(clues[j] == n[j]);
            } else {
                assert(clues[i] == n[i]);
            }
        }
    }
}

proof fn lemma_add_all_unique(clues: Seq<Seq<char>>, items: Seq<JsonValue>)
    requires
        clues.no_duplicates(),
    ensures
        add_all(clues, items).no_duplicates(),
    decreases items.len(),
{
    if items.len() > 0 {
        lemma_add_all_unique(clues, items.drop_last());
        if let Some(s) = str_of(items.last()) {
            lemma_add_unique(add_all(clues, items.drop_last()), s);
        }
    }
}

} // verus!
