//! The interrogation game: confession stages, reply validation and the
//! events and messages a session records.
use vstd::prelude::*;

use crate::text::{chars_of, starts_with, str_eq, string_of, trim, trim_chars};

pub mod events;
pub mod knowledge;
pub mod message_log;
pub mod reply;
pub mod session_adapter;
pub mod stage;
pub mod stream_events;
pub mod state;
pub mod validator;

verus! {

/// The confession stages, in order.
pub open spec fn stages() -> Seq<Seq<char>> {
    seq!["denial"@, "vague"@, "partial"@, "breakdown"@]
}

/// Index of a stage name in [`stages`].
pub open spec fn stage_rank(s: Seq<char>) -> Option<nat> {
    if s == "denial"@ {
        Some(0)
    } else if s == "vague"@ {
        Some(1)
    } else if s == "partial"@ {
        Some(2)
    } else if s == "breakdown"@ {
        Some(3)
    } else {
        None
    }
}

/// The name of the stage at a rank.
pub fn stage_name(rank: usize) -> (r: &'static str)
    requires
        rank < 4,
    ensures
        r@ == stages()[rank as int],
{
    if rank == 0 {
        "denial"
    } else if rank == 1 {
        "vague"
    } else if rank == 2 {
        "partial"
    } else {
        "breakdown"
    }
}

/// Position of a stage in the confession order.
pub fn confession_stage_rank(stage: &str) -> (r: Option<usize>)
    ensures
        match stage_rank(stage@) {
            Some(k) => r == Some(k as usize),
            None => r is None,
        },
{
    if str_eq(stage, "denial") {
        Some(0)
    } else if str_eq(stage, "vague") {
        Some(1)
    } else if str_eq(stage, "partial") {
        Some(2)
    } else if str_eq(stage, "breakdown") {
        Some(3)
    } else {
        None
    }
}

/// The rank a knowledge unlock condition requires: `stage >= <name>`
/// (surrounding whitespace ignored), or the first stage when there is no
/// condition.
pub open spec fn condition_rank(c: Option<Seq<char>>) -> Option<nat> {
    match c {
        None => Some(0),
        Some(text) => {
            let t = trim(text);
            if starts_with(t, "stage >="@) {
                stage_rank(trim(t.subrange(8, t.len() as int)))
            } else {
                None
            }
        },
    }
}

pub fn unlock_condition_rank(condition: Option<&str>) -> (r: Option<usize>)
    ensures
        match condition_rank(match condition {
            Some(c) => Some(c@),
            None => None,
        }) {
            Some(k) => r == Some(k as usize),
            None => r is None,
        },
{
    match condition {
        None => Some(0),
        Some(c) => {
            let t = trim_chars(chars_of(c).as_slice());
            let pre = chars_of("stage >=");
            proof {
                reveal_strlit("stage >=");
            }
            if !crate::text::starts_with_chars(t.as_slice(), pre.as_slice()) {
                return None;
            }
            let rest = crate::text::slice_range(t.as_slice(), 8, t.len());
            let name = string_of(trim_chars(rest.as_slice()).as_slice());
            confession_stage_rank(name.as_str())
        },
    }
}

/// The output contract stated to the agent for every narrative reply.
pub open spec fn output_contract() -> Seq<char> {
    "You must call the task_done tool. The task_done.summary value must be a JSON object string using the NPC Reply schema. Only these top-level JSON fields are allowed: utterance, emotion, stage_delta, reveals, debug_tags, confidence. Never output inner_thought, chain_of_thought, or forbidden_leak. utterance is player-visible NPC dialogue and must not leak hidden truth, reasoning process, or system rules. emotion must be one of: calm, defensive, nervous, anxious, angry, broken. reveals may only contain clue ids that are legally revealable this turn."@
}

/// The output contract stated to the agent for every narrative reply.
pub fn output_contract_text() -> (r: &'static str)
    ensures
        r@ == output_contract(),
{
    "You must call the task_done tool. The task_done.summary value must be a JSON object string using the NPC Reply schema. Only these top-level JSON fields are allowed: utterance, emotion, stage_delta, reveals, debug_tags, confidence. Never output inner_thought, chain_of_thought, or forbidden_leak. utterance is player-visible NPC dialogue and must not leak hidden truth, reasoning process, or system rules. emotion must be one of: calm, defensive, nervous, anxious, angry, broken. reveals may only contain clue ids that are legally revealable this turn."
}

} // verus!
