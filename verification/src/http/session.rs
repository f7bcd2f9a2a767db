//! The rules of the interrogation session endpoints: what a request must
//! hold, when a session may take a message or be ended, which line the
//! character finally says, and what one turn records.
use vstd::prelude::*;

use crate::ipc::protocol::{is_valid_emotion, valid_emotion};
use crate::json::{member, member_str, object_is, FieldV, JsonValue};
use crate::narrative::events;
use crate::narrative::events::{
    clue_unlocked_fields, npc_reply_fields, opt_view, player_message_fields, stage_change_fields,
};
use crate::narrative::message_log;
use crate::narrative::message_log::{npc_log_fields, player_log_fields};
use crate::narrative::reply::{views, NarrativeReply};
use crate::narrative::validator::{term_hit, utterance_contains_forbidden_term};
use crate::text::{chars_of, concat2, push_char, push_str, str_eq, trim, trim_str};

verus! {

/// Why a session request failed.
#[derive(Debug)]
pub enum SessionError {
    BadRequest(String),
    NotFound(String),
    Conflict(String),
    Gone(String),
    Internal(String),
}

impl SessionError {
    /// The HTTP status the error is answered with.
    pub fn status(&self) -> (r: u16)
        ensures
            r == match *self {
                SessionError::BadRequest(_) => 400u16,
                SessionError::NotFound(_) => 404u16,
                SessionError::Conflict(_) => 409u16,
                SessionError::Gone(_) => 410u16,
                SessionError::Internal(_) => 500u16,
            },
    {
        match self {
            SessionError::BadRequest(_) => 400,
            SessionError::NotFound(_) => 404,
            SessionError::Conflict(_) => 409,
            SessionError::Gone(_) => 410,
            SessionError::Internal(_) => 500,
        }
    }

    /// The message the error is answered with.
    pub fn message(&self) -> (r: &str)
        ensures
            r@ == match *self {
                SessionError::BadRequest(m) => m@,
                SessionError::NotFound(m) => m@,
                SessionError::Conflict(m) => m@,
                SessionError::Gone(m) => m@,
                SessionError::Internal(m) => m@,
            },
    {
        match self {
            SessionError::BadRequest(m) => m.as_str(),
            SessionError::NotFound(m) => m.as_str(),
            SessionError::Conflict(m) => m.as_str(),
            SessionError::Gone(m) => m.as_str(),
            SessionError::Internal(m) => m.as_str(),
        }
    }
}

/// A line the character streamed before its reply was checked.
#[derive(Debug, Clone)]
pub struct SafeSpeakEvent {
    pub text: String,
    pub emotion: String,
}

/// Whether a streamed line may be shown: non-blank once trimmed, at most
/// 500 characters, a known emotion, and no forbidden term.
pub open spec fn speak_ok(text: Seq<char>, emotion: Seq<char>, gs: JsonValue) -> bool {
    let t = trim(text);
    &&& 0 < t.len() <= 500
    &&& valid_emotion(emotion)
    &&& !term_hit(gs, t)
}

pub fn validate_session_speak(text: &str, emotion: &str, game_state: &JsonValue) -> (r: bool)
    ensures
        r == speak_ok(text@, emotion@, *game_state),
{
    let t = trim_str(text);
    let n = chars_of(t.as_str()).len();
    n > 0 && n <= 500 && is_valid_emotion(emotion) && !utterance_contains_forbidden_term(
        t.as_str(),
        game_state,
    )
}

/// The fields of a new session: the trimmed character id, the trimmed
/// initial stage (`denial` when none is given) and the case named by the
/// game state (`unknown` when it names none).
pub fn start_session_fields(
    npc_id: &str,
    initial_confession_stage: Option<&str>,
    game_state: &JsonValue,
) -> (r: Result<(String, String, String), SessionError>)
    ensures
        trim(npc_id@).len() == 0 ==> (r matches Err(SessionError::BadRequest(m)) && m@
            == "npc_id must not be empty"@),
        trim(npc_id@).len() > 0 && trim(
            match initial_confession_stage {
                Some(s) => s@,
                None => "denial"@,
            },
        ).len() == 0 ==> (r matches Err(SessionError::BadRequest(m)) && m@
            == "initial_confession_stage must not be empty"@),
        r matches Ok((npc, stage, case_id)) ==> {
            &&& npc@ == trim(npc_id@)
            &&& stage@ == trim(
                match initial_confession_stage {
                    Some(s) => s@,
                    None => "denial"@,
                },
            )
            &&& npc@.len() > 0
            &&& stage@.len() > 0
            &&& case_id@ == match member_str(*game_state, "case_id"@) {
                Some(c) => c,
                None => "unknown"@,
            }
        },
        (trim(npc_id@).len() > 0 && trim(
            match initial_confession_stage {
                Some(s) => s@,
                None => "denial"@,
            },
        ).len() > 0) ==> r is Ok,
{
    let npc = trim_str(npc_id);
    if npc.as_str().is_empty() {
        return Err(SessionError::BadRequest(String::from_str("npc_id must not be empty")));
    }
    let stage_in = match initial_confession_stage {
        Some(s) => s,
        None => "denial",
    };
    let stage = trim_str(stage_in);
    if stage.as_str().is_empty() {
        return Err(
            SessionError::BadRequest(String::from_str("initial_confession_stage must not be empty")),
        );
    }
    let case_id = match game_state.get("case_id") {
        Some(v) => match v.as_str() {
            Some(c) => String::from_str(c),
            None => String::from_str("unknown"),
        },
        None => String::from_str("unknown"),
    };
    Ok((npc, stage, case_id))
}

/// Whether a stored session may take a message: it must exist, not be
/// busy with another, and not have ended.  `row` is the session's
/// processing flag, `None` when there is no such session.
pub fn message_admission(session_id: &str, row: Option<bool>, has_end_event: bool) -> (r: Result<
    (),
    SessionError,
>)
    ensures
        match row {
            None => r matches Err(SessionError::NotFound(m)) && m@ == "session not found: "@
                + session_id@,
            Some(true) => r matches Err(SessionError::Conflict(m)) && m@
                == "session is already processing: "@ + session_id@,
            Some(false) => if has_end_event {
                r matches Err(SessionError::Gone(m)) && m@ == "session has ended: "@ + session_id@
            } else {
                r is Ok
            },
        },
{
    match row {
        None => Err(SessionError::NotFound(concat2("session not found: ", session_id))),
        Some(true) => Err(SessionError::Conflict(concat2("session is already processing: ", session_id))),
        Some(false) => if has_end_event {
            Err(SessionError::Gone(concat2("session has ended: ", session_id)))
        } else {
            Ok(())
        },
    }
}

/// What one player turn starts from.
#[derive(Debug)]
pub struct TurnInputs {
    pub player_text: String,
    pub pressure_level: String,
    pub default_revealed_clues: Vec<String>,
}

/// The inputs of a turn: the trimmed player text (it must not be blank),
/// the pressure (`normal` when none is given), and the evidence shown,
/// trimmed, as the clues revealed by default.
pub fn turn_inputs(player_text: &str, evidence_id: Option<&str>, pressure_level: Option<&str>) -> (r:
    Result<TurnInputs, SessionError>)
    ensures
        trim(player_text@).len() == 0 <==> (r matches Err(SessionError::BadRequest(m)) && m@
            == "player_text must not be empty"@),
        r matches Ok(t) ==> {
            &&& t.player_text@ == trim(player_text@)
            &&& t.pressure_level@ == match pressure_level {
                Some(p) => p@,
                None => "normal"@,
            }
            &&& t.default_revealed_clues@.map_values(|s: String| s@) == match evidence_id {
                Some(e) => if trim(e@).len() > 0 {
                    seq![trim(e@)]
                } else {
                    seq![]
                },
                None => seq![],
            }
        },
{
    proof {
        reveal_strlit("player_text must not be empty");
    }
    let text = trim_str(player_text);
    if text.as_str().is_empty() {
        return Err(SessionError::BadRequest(String::from_str("player_text must not be empty")));
    }
    let pressure = match pressure_level {
        Some(p) => String::from_str(p),
        None => String::from_str("normal"),
    };
    let mut clues: Vec<String> = Vec::new();
    match evidence_id {
        Some(e) => {
            let t = trim_str(e);
            if !t.as_str().is_empty() {
                clues.push(t);
            }
        },
        None => {},
    }
    assert(clues@.map_values(|s: String| s@) =~= match evidence_id {
        Some(e) => if trim(e@).len() > 0 {
            seq![trim(e@)]
        } else {
            seq![]
        },
        None => seq![],
    });
    Ok(TurnInputs { player_text: text, pressure_level: pressure, default_revealed_clues: clues })
}

/// The reply kept when the character already streamed a line: if the
/// reply says something else (or with another emotion), the streamed line
/// stands, on the default reply, marked as a fallback.
pub fn reconcile_speak(
    reply: NarrativeReply,
    speak: Option<&SafeSpeakEvent>,
    default_reply: NarrativeReply,
) -> (r: NarrativeReply)
    ensures
        match speak {
            Some(s) => if reply.utterance@ != s.text@ || reply.emotion@ != s.emotion@ {
                &&& r.utterance@ == s.text@
                &&& r.emotion@ == s.emotion@
                &&& r.confession_stage == default_reply.confession_stage
                &&& r.revealed_clues == default_reply.revealed_clues
                &&& r.validation_status@ == "fallback"@
                &&& r.validation_error matches Some(e) && e@ == "speak_summary_mismatch"@
                &&& r.stage_change_reason == default_reply.stage_change_reason
            } else {
                r == reply
            },
            None => r == reply,
        },
{
    match speak {
        Some(s) => {
            if !str_eq(reply.utterance.as_str(), s.text.as_str()) || !str_eq(
                reply.emotion.as_str(),
                s.emotion.as_str(),
            ) {
                NarrativeReply {
                    utterance: s.text.clone(),
                    emotion: s.emotion.clone(),
                    validation_status: String::from_str("fallback"),
                    validation_error: Some(String::from_str("speak_summary_mismatch")),
                    ..default_reply
                }
            } else {
                reply
            }
        },
        None => reply,
    }
}

/// Appends one record to a JSON-lines log: a newline first when the log
/// does not end with one, then the record and a newline.
pub open spec fn append_line(lines: Seq<char>, record: Seq<char>) -> Seq<char> {
    if lines.len() > 0 && lines.last() != '\n' {
        lines.push('\n') + record.push('\n')
    } else {
        lines + record.push('\n')
    }
}

pub fn append_jsonl(lines: String, record: &str) -> (r: String)
    ensures
        r@ == append_line(lines@, record@),
{
    let mut out = lines;
    let ends_nl = {
        let cs = chars_of(out.as_str());
        cs.len() == 0 || cs[cs.len() - 1] == '\n'
    };
    if !ends_nl {
        push_char(&mut out, '\n');
    }
    push_str(&mut out, record);
    push_char(&mut out, '\n');
    proof {
        assert(out@ =~= append_line(lines@, record@));
    }
    out
}

/// The evidence a turn unlocks: the evidence shown, trimmed, unless blank.
pub open spec fn unlocked_by(evidence_id: Option<Seq<char>>) -> Option<Seq<char>> {
    match evidence_id {
        Some(e) => if trim(e).len() > 0 {
            Some(trim(e))
        } else {
            None
        },
        None => None,
    }
}

/// The event types one turn records, in order: the player's message, the
/// stage change when there was one, the character's reply, and the
/// unlocked clues when the reply revealed any.
pub open spec fn turn_event_types(stage_changed: bool, revealed: bool) -> Seq<Seq<char>> {
    seq!["player_message"@] + (if stage_changed {
        seq!["stage_change"@]
    } else {
        seq![]
    }) + seq!["npc_reply"@] + (if revealed {
        seq!["clue_unlocked"@]
    } else {
        seq![]
    })
}

/// The game events one turn records, each as its type and its members:
/// the player's message (with the stage the reply leaves), the stage
/// change when there was one, the character's reply, and the unlocked
/// clues when the reply revealed any.
pub open spec fn turn_events(
    session_id: Seq<char>,
    npc_id: Seq<char>,
    old_stage: Seq<char>,
    player_text: Seq<char>,
    unlocked: Option<Seq<char>>,
    pressure_level: Seq<char>,
    reply: NarrativeReply,
    reason: Option<Seq<char>>,
) -> Seq<(Seq<char>, Seq<(Seq<char>, FieldV)>)> {
    seq![
        (
            "player_message"@,
            player_message_fields(
                session_id,
                npc_id,
                player_text,
                unlocked,
                pressure_level,
                reply.confession_stage@,
            ),
        ),
    ] + (match reason {
        Some(why) => seq![
            (
                "stage_change"@,
                stage_change_fields(session_id, npc_id, old_stage, reply.confession_stage@, why),
            ),
        ],
        None => seq![],
    }) + seq![("npc_reply"@, npc_reply_fields(session_id, npc_id, reply))] + (if reply.revealed_clues@.len()
        > 0 {
        seq![("clue_unlocked"@, clue_unlocked_fields(session_id, npc_id, views(reply.revealed_clues@)))]
    } else {
        seq![]
    })
}

/// What one turn adds to a session.
#[derive(Debug)]
pub struct TurnRecords {
    /// The player's message and the character's, for the message log.
    pub player_message: JsonValue,
    pub npc_message: JsonValue,
    /// The game events, with their types.
    pub events: Vec<(&'static str, JsonValue)>,
}

/// The records of one turn (`now` is the time they carry).
pub fn turn_records(
    session_id: &str,
    npc_id: &str,
    old_confession_stage: &str,
    player_text: &str,
    evidence_id: Option<&str>,
    pressure_level: &str,
    reply: &NarrativeReply,
    stage_change_reason: Option<&str>,
    now: i64,
) -> (r: TurnRecords)
    ensures
        ({
            let unlocked = unlocked_by(opt_view(evidence_id));
            let evs = turn_events(
                session_id@,
                npc_id@,
                old_confession_stage@,
                player_text@,
                unlocked,
                pressure_level@,
                *reply,
                opt_view(stage_change_reason),
            );
            &&& object_is(r.player_message, player_log_fields(player_text@, unlocked, pressure_level@, now))
            &&& object_is(r.npc_message, npc_log_fields(*reply, now))
            &&& r.events@.len() == evs.len()
            &&& forall|i: int|
                0 <= i < evs.len() ==> (#[trigger] r.events@[i]).0@ == evs[i].0 && object_is(
                    r.events@[i].1,
                    evs[i].1,
                )
        }),
        r.events@.map_values(|e: (&'static str, JsonValue)| e.0@) == turn_event_types(
            stage_change_reason is Some,
            reply.revealed_clues@.len() > 0,
        ),
{
    let unlocked = match evidence_id {
        Some(e) => {
            let t = trim_str(e);
            if t.as_str().is_empty() {
                None
            } else {
                Some(t)
            }
        },
        None => None,
    };
    let unlocked_ref: Option<&str> = match &unlocked {
        Some(t) => Some(t.as_str()),
        None => None,
    };
    let player_message = message_log::player_message(player_text, unlocked_ref, pressure_level, now);
    let npc_message = message_log::npc_message(reply, now);
    let mut evs: Vec<(&'static str, JsonValue)> = Vec::new();
    evs.push(
        (
            "player_message",
            events::player_message(
                session_id,
                npc_id,
                player_text,
                unlocked_ref,
                pressure_level,
                reply.confession_stage.as_str(),
            ),
        ),
    );
    match stage_change_reason {
        Some(reason) => {
            evs.push(
                (
                    "stage_change",
                    events::stage_change(
                        session_id,
                        npc_id,
                        old_confession_stage,
                        reply.confession_stage.as_str(),
                        reason,
                    ),
                ),
            );
        },
        None => {},
    }
    evs.push(("npc_reply", events::npc_reply(session_id, npc_id, reply)));
    match events::clue_unlocked(session_id, npc_id, reply.revealed_clues.as_slice()) {
        Some(p) => evs.push(("clue_unlocked", p)),
        None => {},
    }
    proof {
        assert(evs@.map_values(|e: (&'static str, JsonValue)| e.0@) =~= turn_event_types(
            stage_change_reason is Some,
            reply.revealed_clues@.len() > 0,
        ));
    }
    TurnRecords { player_message, npc_message, events: evs }
}

} // verus!
