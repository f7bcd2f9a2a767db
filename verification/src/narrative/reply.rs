//! Replies shown to the player: the validated reply of an agent, or a
//! fallback line when the agent's reply is refused.
use vstd::prelude::*;

use crate::json::JsonValue;
use crate::narrative::validator::{
    opt_ref_view, opt_str_view, outcome_view, summary_check, validate_task_summary, ReplyView, summary_json,
};
use crate::text::str_eq;

verus! {

/// The reply recorded for one turn.
#[derive(Debug)]
pub struct NarrativeReply {
    pub utterance: String,
    pub emotion: String,
    pub confession_stage: String,
    pub revealed_clues: Vec<String>,
    pub validation_status: String,
    pub validation_error: Option<String>,
    pub stage_change_reason: Option<String>,
}

/// The character views of a list of strings.
pub open spec fn views(v: Seq<String>) -> Seq<Seq<char>> {
    v.map_values(|s: String| s@)
}

/// The line a character says when its agent's reply cannot be used.
pub open spec fn fallback_line(stage: Seq<char>) -> Seq<char> {
    if stage == "denial"@ {
        "我不知道你在说什么。"@
    } else {
        "我需要再想想。"@
    }
}

/// The fallback line for a confession stage.
pub fn fallback_utterance(confession_stage: &str) -> (r: String)
    ensures
        r@ == fallback_line(confession_stage@),
{
    if str_eq(confession_stage, "denial") {
        String::from_str("我不知道你在说什么。")
    } else {
        String::from_str("我需要再想想。")
    }
}

/// The reply used when no validated reply is available: the fallback line,
/// a defensive emotion, the stage and clues unchanged.
pub fn fallback_reply(confession_stage: String, revealed_clues: Vec<String>) -> (r: NarrativeReply)
    ensures
        r.utterance@ == fallback_line(confession_stage@),
        r.emotion@ == "defensive"@,
        r.confession_stage == confession_stage,
        r.revealed_clues == revealed_clues,
        r.validation_status@ == "fallback"@,
        r.validation_error is None,
        r.stage_change_reason is None,
{
    let utterance = fallback_utterance(confession_stage.as_str());
    NarrativeReply {
        utterance,
        emotion: String::from_str("defensive"),
        confession_stage,
        revealed_clues,
        validation_status: String::from_str("fallback"),
        validation_error: None,
        stage_change_reason: None,
    }
}

/// `base` extended, in order, by each clue of `more` that it does not
/// hold yet.
pub open spec fn merge(base: Seq<Seq<char>>, more: Seq<Seq<char>>) -> Seq<Seq<char>>
    decreases more.len(),
{
    if more.len() == 0 {
        base
    } else {
        let m = merge(base, more.drop_last());
        if m.contains(more.last()) {
            m
        } else {
            m.push(more.last())
        }
    }
}

fn contains_string(v: &Vec<String>, x: &str) -> (r: bool)
    ensures
        r == views(v@).contains(x@),
{
    let mut i: usize = 0;
    while i < v.len()
        invariant
            i <= v@.len(),
            forall|j: int| 0 <= j < i ==> #[trigger] views(v@)[j] != x@,
        decreases v@.len() - i,
    {
        if str_eq(v[i].as_str(), x) {
            assert(views(v@)[i as int] == x@);
            return true;
        }
        i = i + 1;
    }
    false
}

/// The clues of the default reply followed by the newly validated ones
/// that are not among them yet.
pub fn merge_revealed_clues(default_clues: &Vec<String>, validated_clues: &Vec<String>) -> (r: Vec<
    String,
>)
    ensures
        views(r@) == merge(views(default_clues@), views(validated_clues@)),
{
    let mut merged: Vec<String> = Vec::new();
    let mut i: usize = 0;
    while i < default_clues.len()
        invariant
            i <= default_clues@.len(),
            views(merged@) == views(default_clues@.subrange(0, i as int)),
        decreases default_clues@.len() - i,
    {
        let ghost before = merged@;
        merged.push(default_clues[i].clone());
        proof {
            assert(views(merged@) =~= views(before).push(default_clues@[i as int]@));
            assert(default_clues@.subrange(0, i + 1) =~= default_clues@.subrange(0, i as int).push(
                default_clues@[i as int],
            ));
        }
        i = i + 1;
    }
    assert(default_clues@.subrange(0, default_clues@.len() as int) =~= default_clues@);
    let mut j: usize = 0;
    while j < validated_clues.len()
        invariant
            j <= validated_clues@.len(),
            views(merged@) == merge(
                views(default_clues@),
                views(validated_clues@.subrange(0, j as int)),
            ),
        decreases validated_clues@.len() - j,
    {
        let ghost pre = views(validated_clues@.subrange(0, j as int));
        let ghost post = views(validated_clues@.subrange(0, j + 1));
        proof {
            assert(post.drop_last() =~= pre);
            assert(post.last() == validated_clues@[j as int]@);
        }
        let clue = validated_clues[j].as_str();
        if !contains_string(&merged, clue) {
            let ghost before = merged@;
            merged.push(validated_clues[j].clone());
            assert(views(merged@) =~= views(before).push(clue@));
        }
        j = j + 1;
    }
    assert(validated_clues@.subrange(0, validated_clues@.len() as int) =~= validated_clues@);
    merged
}

/// Every clue the merge adds comes from `more`, every clue of `more` ends
/// up in it, `base` stays its prefix, and when `base` has no clue twice
/// neither has the merge.
pub proof fn lemma_merge_laws(base: Seq<Seq<char>>, more: Seq<Seq<char>>)
    ensures
        merge(base, more).subrange(0, base.len() as int) == base,
        base.len() <= merge(base, more).len(),
        forall|i: int| 0 <= i < more.len() ==> merge(base, more).contains(#[trigger] more[i]),
        forall|i: int|
            base.len() <= i < merge(base, more).len() ==> more.contains(
                #[trigger] merge(base, more)[i],
            ),
        base.no_duplicates() ==> merge(base, more).no_duplicates(),
    decreases more.len(),
{
    if more.len() > 0 {
        let prev = more.drop_last();
        lemma_merge_laws(base, prev);
        let m = merge(base, prev);
        assert forall|i: int| 0 <= i < prev.len() implies #[trigger] more[i] == prev[i] by {}
        if !m.contains(more.last()) {
            let n = m.push(more.last());
            assert(n.subrange(0, base.len() as int) =~= m.subrange(0, base.len() as int));
            assert forall|i: int| 0 <= i < more.len() implies n.contains(#[trigger] more[i]) by {
                if i < more.len() - 1 {
                    assert(prev[i] == more[i]);
                    let k = choose|k: int| 0 <= k < m.len() && m[k] == prev[i];
                    assert(n[k] == more[i]);
                } else {
                    assert(n[m.len() as int] == more[i]);
                }
            }
            assert forall|i: int| base.len() <= i < n.len() implies more.contains(#[trigger] n[i]) by {
                if i < m.len() {
                    assert(prev.contains(m[i]));
                    let k = choose|k: int| 0 <= k < prev.len() && prev[k] == m[i];
                    assert(more[k] == prev[k]);
                } else {
                    assert(more[more.len() - 1] == n[i]);
                }
            }
        } else {
            assert forall|i: int| 0 <= i < more.len() implies m.contains(#[trigger] more[i]) by {
                if i < more.len() - 1 {
                    assert(prev[i] == more[i]);
                }
            }
            assert forall|i: int| base.len() <= i < m.len() implies more.contains(#[trigger] m[i]) by {
                assert(prev.contains(m[i]));
                let k = choose|k: int| 0 <= k < prev.len() && prev[k] == m[i];
                assert(more[k] == prev[k]);
            }
        }
    } else {
        assert(base.subrange(0, base.len() as int) =~= base);
    }
}

/// The reply for a turn: the agent's reply when it passes validation
/// (stage unchanged unless it moved, clues merged into the default
/// ones), otherwise the default reply carrying the validation error code.
pub open spec fn reply_from(
    outcome: Result<ReplyView, Seq<char>>,
    default: NarrativeReply,
    r: NarrativeReply,
) -> bool {
    match outcome {
        Ok((utterance, emotion, stage, reason, clues)) => {
            &&& r.utterance@ == utterance
            &&& r.emotion@ == emotion
            &&& r.confession_stage@ == match stage {
                Some(s) => s,
                None => default.confession_stage@,
            }
            &&& views(r.revealed_clues@) == merge(views(default.revealed_clues@), clues)
            &&& r.validation_status@ == "validated"@
            &&& r.validation_error is None
            &&& opt_str_view(r.stage_change_reason) == reason
        },
        Err(code) => {
            &&& r.utterance == default.utterance
            &&& r.emotion == default.emotion
            &&& r.confession_stage == default.confession_stage
            &&& r.revealed_clues == default.revealed_clues
            &&& r.validation_status == default.validation_status
            &&& opt_str_view(r.validation_error) == Some(code)
            &&& r.stage_change_reason == default.stage_change_reason
        },
    }
}

/// The reply for a turn given the agent's summary text.
pub fn from_task_summary(
    summary: &str,
    current_confession_stage: &str,
    game_state: &JsonValue,
    request_evidence_id: Option<&str>,
    default_reply: NarrativeReply,
) -> (r: NarrativeReply)
    ensures
        exists|p: Option<JsonValue>|
            #[trigger] summary_json(summary@, p) && reply_from(
                summary_check(p, current_confession_stage@, *game_state, opt_ref_view(request_evidence_id)),
                default_reply,
                r,
            ),
{
    let checked = validate_task_summary(summary, current_confession_stage, game_state, request_evidence_id);
    let ghost p = choose|p: Option<JsonValue>|
        #[trigger] summary_json(summary@, p) && outcome_view(checked) == summary_check(
            p,
            current_confession_stage@,
            *game_state,
            opt_ref_view(request_evidence_id),
        );
    let r = match checked {
        Ok(validated) => {
            let revealed_clues = merge_revealed_clues(
                &default_reply.revealed_clues,
                &validated.revealed_clues,
            );
            let confession_stage = match validated.confession_stage {
                Some(s) => s,
                None => default_reply.confession_stage,
            };
            NarrativeReply {
                utterance: validated.utterance,
                emotion: validated.emotion,
                confession_stage,
                revealed_clues,
                validation_status: String::from_str("validated"),
                validation_error: None,
                stage_change_reason: validated.stage_change_reason,
            }
        },
        Err(err) => NarrativeReply {
            validation_error: Some(String::from_str(err.code())),
            ..default_reply
        },
    };
    assert(summary_json(summary@, p));
    r
}

} // verus!
