//! What a character may draw on at its current confession stage: the
//! facts it knows that are unlocked, and those still locked or hidden.
use vstd::prelude::*;

use crate::json::{member, member_str, push_field, JsonValue};
use crate::narrative::{condition_rank, confession_stage_rank, stage_name, stage_rank, stages, unlock_condition_rank};
use crate::text::{is_ws, lead_ws, str_eq, trail_ws, trim};

verus! {

/// A fact the character knows, unlocked from a stage on.
#[derive(Debug, Clone)]
pub struct PromptKnownFact {
    pub fact_id: String,
    pub content: String,
    pub unlock_condition: Option<String>,
}

/// A fact the character hides until a stage.
#[derive(Debug, Clone)]
pub struct PromptHiddenFact {
    pub fact_id: String,
    pub content: Option<String>,
    pub reveal_stage: Option<String>,
}

/// A character's knowledge file.
#[derive(Debug, Clone)]
pub struct PromptKnowledgeFile {
    pub npc_id: String,
    pub knows: Vec<PromptKnownFact>,
    pub hides: Vec<PromptHiddenFact>,
}

/// The outcome of reading a knowledge file.
#[derive(Debug, Clone)]
pub enum KnowledgeRead {
    /// No file exists.
    Missing,
    /// The file could not be read or is not a knowledge file.
    Invalid,
    Parsed(PromptKnowledgeFile),
}

pub open spec fn opt_view(o: Option<String>) -> Option<Seq<char>> {
    match o {
        Some(s) => Some(s@),
        None => None,
    }
}

/// The `(fact_id, content)` of the known facts unlocked at rank `cur`.
pub open spec fn visible(knows: Seq<PromptKnownFact>, cur: nat) -> Seq<(Seq<char>, Seq<char>, Seq<char>)>
    decreases knows.len(),
{
    if knows.len() == 0 {
        seq![]
    } else {
        let rest = visible(knows.drop_last(), cur);
        let f = knows.last();
        match condition_rank(opt_view(f.unlock_condition)) {
            Some(r) => if cur >= r {
                rest.push((f.fact_id@, "content"@, f.content@))
            } else {
                rest
            },
            None => rest,
        }
    }
}

/// The locked known facts with the stage that unlocks them
/// (`invalid_rule` when their condition cannot be read).
pub open spec fn locked_known(knows: Seq<PromptKnownFact>, cur: nat) -> Seq<(Seq<char>, Seq<char>, Seq<char>)>
    decreases knows.len(),
{
    if knows.len() == 0 {
        seq![]
    } else {
        let rest = locked_known(knows.drop_last(), cur);
        let f = knows.last();
        match condition_rank(opt_view(f.unlock_condition)) {
            Some(r) => if cur >= r {
                rest
            } else {
                rest.push((f.fact_id@, "unlock_stage"@, stages()[r as int]))
            },
            None => rest.push((f.fact_id@, "unlock_stage"@, "invalid_rule"@)),
        }
    }
}

/// A known fact is visible exactly when the current stage ranks at or
/// above the stage its condition names; otherwise it is listed as locked,
/// with the stage that unlocks it (`invalid_rule` when its condition
/// cannot be read).  A fact with no condition is visible at every stage,
/// and a fact unlocked at a stage is visible at that stage.
pub proof fn lemma_fact_visibility(knows: Seq<PromptKnownFact>, f: PromptKnownFact, cur: nat)
    ensures
        condition_rank(None) == Some(0nat),
        f.unlock_condition is None ==> visible(knows.push(f), cur) == visible(knows, cur).push(
            (f.fact_id@, "content"@, f.content@),
        ),
        match condition_rank(opt_view(f.unlock_condition)) {
            Some(r) => if r <= cur {
                &&& visible(knows.push(f), cur) == visible(knows, cur).push(
                    (f.fact_id@, "content"@, f.content@),
                )
                &&& locked_known(knows.push(f), cur) == locked_known(knows, cur)
            } else {
                &&& visible(knows.push(f), cur) == visible(knows, cur)
                &&& locked_known(knows.push(f), cur) == locked_known(knows, cur).push(
                    (f.fact_id@, "unlock_stage"@, stages()[r as int]),
                )
            },
            None => {
                &&& visible(knows.push(f), cur) == visible(knows, cur)
                &&& locked_known(knows.push(f), cur) == locked_known(knows, cur).push(
                    (f.fact_id@, "unlock_stage"@, "invalid_rule"@),
                )
            },
        },
{
    assert(knows.push(f).drop_last() =~= knows);
}

/// The condition `stage >= S` names stage `S`: a fact with that condition
/// is unlocked from `S` on.
pub proof fn lemma_stage_condition(i: int)
    requires
        0 <= i < 4,
    ensures
        condition_rank(Some("stage >= "@ + stages()[i])) == Some(i as nat),
{
    reveal_strlit("stage >= ");
    reveal_strlit("stage >=");
    reveal_strlit("denial");
    reveal_strlit("vague");
    reveal_strlit("partial");
    reveal_strlit("breakdown");
    let s = stages()[i];
    let t = "stage >= "@ + s;
    assert(s.len() > 0);
    assert(!is_ws(t[0]));
    assert(lead_ws(t) == 0);
    assert(t.last() == s.last());
    assert(!is_ws(s.last()));
    assert(trail_ws(t) == 0);
    assert(trim(t) =~= t);
    assert(t.subrange(0, 8) =~= "stage >="@);
    let u = t.subrange(8, t.len() as int);
    assert(u =~= seq![' '] + s);
    assert(u.drop_first() =~= s);
    assert(!is_ws(s[0]));
    assert(lead_ws(s) == 0);
    assert(lead_ws(u) == 1);
    assert(u.last() == s.last());
    assert(trail_ws(u) == 0);
    assert(trim(u) =~= s);
}

/// The hidden facts with the stage that reveals them (`breakdown` when
/// none is given).
pub open spec fn hidden(hides: Seq<PromptHiddenFact>) -> Seq<(Seq<char>, Seq<char>, Seq<char>)> {
    hides.map_values(
        |h: PromptHiddenFact|
            (
                h.fact_id@,
                "reveal_stage"@,
                match h.reveal_stage {
                    Some(s) => s@,
                    None => "breakdown"@,
                },
            ),
    )
}

/// Whether `items` are the fact objects `facts`: each holds its
/// `fact_id` and the named member.
pub open spec fn facts_are(items: Seq<JsonValue>, facts: Seq<(Seq<char>, Seq<char>, Seq<char>)>) -> bool {
    &&& items.len() == facts.len()
    &&& forall|i: int|
        0 <= i < items.len() ==> {
            &&& member_str(#[trigger] items[i], "fact_id"@) == Some(facts[i].0)
            &&& member_str(items[i], facts[i].1) == Some(facts[i].2)
        }
}

/// Whether the value is `{"knowledge_status": status}`.
pub open spec fn status_only(v: JsonValue, status: Seq<char>) -> bool {
    member_str(v, "knowledge_status"@) == Some(status)
}

fn status_object(status: &str) -> (r: JsonValue)
    ensures
        status_only(r, status@),
{
    let mut es: Vec<(String, JsonValue)> = Vec::new();
    push_field(&mut es, "knowledge_status", JsonValue::String(String::from_str(status)));
    JsonValue::Object(es)
}

fn fact_object(id: &str, key: &str, value: &str) -> (r: JsonValue)
    requires
        key@ != "fact_id"@,
    ensures
        member_str(r, "fact_id"@) == Some(id@),
        member_str(r, key@) == Some(value@),
{
    let mut es: Vec<(String, JsonValue)> = Vec::new();
    push_field(&mut es, "fact_id", JsonValue::String(String::from_str(id)));
    push_field(&mut es, key, JsonValue::String(String::from_str(value)));
    JsonValue::Object(es)
}

/// The knowledge a character may draw on at `confession_stage`.
///
/// `knowledge_status` is `missing` or `invalid` when the file could not
/// be had, `npc_mismatch` when it belongs to another character, `invalid`
/// when the stage is unknown, else `ok` with the visible facts
/// (`fact_id`, `content`) and the locked ones: known facts with their
/// `unlock_stage`, then hidden facts with their `reveal_stage`.
pub fn prompt_snapshot(knowledge: KnowledgeRead, npc_id: &str, confession_stage: &str) -> (r: JsonValue)
    ensures
        match knowledge {
            KnowledgeRead::Missing => status_only(r, "missing"@),
            KnowledgeRead::Invalid => status_only(r, "invalid"@),
            KnowledgeRead::Parsed(k) => if k.npc_id@ != npc_id@ {
                status_only(r, "npc_mismatch"@)
            } else {
                match stage_rank(confession_stage@) {
                    None => status_only(r, "invalid"@),
                    Some(cur) => {
                        &&& status_only(r, "ok"@)
                        &&& member(r, "visible_facts"@) matches Some(JsonValue::Array(v))
                            && facts_are(v@, visible(k.knows@, cur))
                        &&& member(r, "locked_facts"@) matches Some(JsonValue::Array(l))
                            && facts_are(l@, locked_known(k.knows@, cur) + hidden(k.hides@))
                    },
                }
            },
        },
{
    proof {
        reveal_strlit("fact_id");
        reveal_strlit("content");
        reveal_strlit("unlock_stage");
        reveal_strlit("reveal_stage");
        reveal_strlit("knowledge_status");
        reveal_strlit("visible_facts");
        reveal_strlit("locked_facts");
        assert("fact_id"@.len() == 7);
        assert("content"@.len() == 7);
        assert("fact_id"@[0] != "content"@[0]);
        assert("unlock_stage"@.len() == 12);
        assert("reveal_stage"@.len() == 12);
        assert("knowledge_status"@.len() == 16);
        assert("visible_facts"@.len() == 13);
        assert("locked_facts"@.len() == 12);
    }
    let k = match knowledge {
        KnowledgeRead::Missing => return status_object("missing"),
        KnowledgeRead::Invalid => return status_object("invalid"),
        KnowledgeRead::Parsed(k) => k,
    };
    if !str_eq(k.npc_id.as_str(), npc_id) {
        return status_object("npc_mismatch");
    }
    let cur = match confession_stage_rank(confession_stage) {
        Some(r) => r,
        None => return status_object("invalid"),
    };
    let mut visible_facts: Vec<JsonValue> = Vec::new();
    let mut locked_facts: Vec<JsonValue> = Vec::new();
    let mut i: usize = 0;
    while i < k.knows.len()
        invariant
            i <= k.knows@.len(),
            cur < 4,
            facts_are(visible_facts@, visible(k.knows@.subrange(0, i as int), cur as nat)),
            facts_are(locked_facts@, locked_known(k.knows@.subrange(0, i as int), cur as nat)),
        decreases k.knows@.len() - i,
    {
        proof {
            reveal_strlit("fact_id");
            reveal_strlit("content");
            reveal_strlit("unlock_stage");
            reveal_strlit("invalid_rule");
            assert("fact_id"@.len() == 7);
            assert("content"@.len() == 7);
            assert("fact_id"@[0] != "content"@[0]);
            assert("unlock_stage"@.len() == 12);
            let pre = k.knows@.subrange(0, i + 1);
            assert(pre.drop_last() =~= k.knows@.subrange(0, i as int));
            assert(pre.last() == k.knows@[i as int]);
        }
        let f = &k.knows[i];
        let cond = match &f.unlock_condition {
            Some(c) => Some(c.as_str()),
            None => None,
        };
        proof {
            assert(match cond { Some(c) => Some(c@), None => None::<Seq<char>> } == opt_view(f.unlock_condition));
        }
        let ghost vis0 = visible_facts@;
        let ghost loc0 = locked_facts@;
        match unlock_condition_rank(cond) {
            Some(req) => {
                if cur >= req {
                    visible_facts.push(fact_object(f.fact_id.as_str(), "content", f.content.as_str()));
                    assert(visible_facts@.drop_last() == vis0);
                } else {
                    proof {
                        lemma_condition_rank_bound(opt_view(f.unlock_condition));
                    }
                    locked_facts.push(fact_object(f.fact_id.as_str(), "unlock_stage", stage_name(req)));
                    assert(locked_facts@.drop_last() == loc0);
                }
            },
            None => {
                locked_facts.push(fact_object(f.fact_id.as_str(), "unlock_stage", "invalid_rule"));
                assert(locked_facts@.drop_last() == loc0);
            },
        }
        i = i + 1;
    }
    assert(k.knows@.subrange(0, k.knows@.len() as int) =~= k.knows@);
    let ghost known_locked = locked_known(k.knows@, cur as nat);
    let ghost n0 = locked_facts@.len();
    let mut j: usize = 0;
    while j < k.hides.len()
        invariant
            j <= k.hides@.len(),
            n0 == known_locked.len(),
            facts_are(locked_facts@, known_locked + hidden(k.hides@.subrange(0, j as int))),
        decreases k.hides@.len() - j,
    {
        proof {
            reveal_strlit("fact_id");
            reveal_strlit("reveal_stage");
            reveal_strlit("breakdown");
            assert("fact_id"@.len() == 7);
            assert("reveal_stage"@.len() == 12);
            assert(hidden(k.hides@.subrange(0, j + 1)) =~= hidden(k.hides@.subrange(0, j as int)).push(
                hidden(k.hides@)[j as int],
            ));
            assert(known_locked + hidden(k.hides@.subrange(0, j + 1)) =~= (known_locked + hidden(
                k.hides@.subrange(0, j as int),
            )).push(hidden(k.hides@)[j as int]));
        }
        let h = &k.hides[j];
        let stage = match &h.reveal_stage {
            Some(s) => s.as_str(),
            None => "breakdown",
        };
        let ghost loc0 = locked_facts@;
        locked_facts.push(fact_object(h.fact_id.as_str(), "reveal_stage", stage));
        assert(locked_facts@.drop_last() == loc0);
        j = j + 1;
    }
    assert(k.hides@.subrange(0, k.hides@.len() as int) =~= k.hides@);
    let mut es: Vec<(String, JsonValue)> = Vec::new();
    push_field(&mut es, "knowledge_status", JsonValue::String(String::from_str("ok")));
    push_field(&mut es, "visible_facts", JsonValue::Array(visible_facts));
    push_field(&mut es, "locked_facts", JsonValue::Array(locked_facts));
    JsonValue::Object(es)
}

proof fn lemma_condition_rank_bound(c: Option<Seq<char>>)
    ensures
        condition_rank(c) matches Some(r) ==> r < 4,
{
}

} // verus!
