//! Stage defaults and the reason recorded for a stage change.
use vstd::prelude::*;

use crate::text::str_eq;

verus! {

/// The stage a reply falls back to: aggressive pressure moves a denial to
/// `vague`; otherwise the stage stays.
pub open spec fn default_stage(stage: Seq<char>, pressure: Seq<char>) -> Seq<char> {
    if pressure == "aggressive"@ && stage == "denial"@ {
        "vague"@
    } else {
        stage
    }
}

pub fn default_confession_stage(confession_stage: &str, pressure_level: &str) -> (r: String)
    ensures
        r@ == default_stage(confession_stage@, pressure_level@),
{
    if str_eq(pressure_level, "aggressive") && str_eq(confession_stage, "denial") {
        return String::from_str("vague");
    }
    String::from_str(confession_stage)
}

/// What is known when a reply's stage is compared with the current one.
pub struct StageChangeReasonInput<'a> {
    pub current_stage: &'a str,
    pub reply_stage: &'a str,
    pub default_stage: &'a str,
    pub pressure_level: &'a str,
    pub reply_reason: Option<String>,
}

/// No reason when the stage is unchanged; otherwise the reply's own
/// reason, or `aggressive_pressure` when the change is the default one
/// caused by aggressive pressure on a denial, or `agent_output`.
pub open spec fn change_reason(
    current: Seq<char>,
    reply: Seq<char>,
    dflt: Seq<char>,
    pressure: Seq<char>,
    reason: Option<Seq<char>>,
) -> Option<Seq<char>> {
    if reply == current {
        None
    } else if reason is Some {
        reason
    } else if reply == dflt && pressure == "aggressive"@ && current == "denial"@ {
        Some("aggressive_pressure"@)
    } else {
        Some("agent_output"@)
    }
}

pub fn stage_change_reason(input: StageChangeReasonInput<'_>) -> (r: Option<String>)
    ensures
        (match r {
            Some(s) => Some(s@),
            None => None,
        }) == change_reason(
            input.current_stage@,
            input.reply_stage@,
            input.default_stage@,
            input.pressure_level@,
            match input.reply_reason {
                Some(s) => Some(s@),
                None => None,
            },
        ),
{
    if str_eq(input.reply_stage, input.current_stage) {
        return None;
    }
    match input.reply_reason {
        Some(r) => Some(r),
        None => {
            if str_eq(input.reply_stage, input.default_stage) && str_eq(
                input.pressure_level,
                "aggressive",
            ) && str_eq(input.current_stage, "denial") {
                Some(String::from_str("aggressive_pressure"))
            } else {
                Some(String::from_str("agent_output"))
            }
        },
    }
}

} // verus!
