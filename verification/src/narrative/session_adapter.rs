//! The task a player's message becomes: a dispatch to the character's
//! agent whose card carries the message, the game and the reply contract.
use vstd::prelude::*;

use crate::json::{json_same, member, member_str, push_field, JsonValue};
use crate::narrative::{output_contract, output_contract_text};
use crate::text::{concat3, push_str};
use crate::types::{ProjectContext, SafetyRules, TaskCard, TaskContext, TaskDispatch};

verus! {

/// What one player message hands to the character's agent.
pub struct SessionTaskInput<'a> {
    pub session_id: &'a str,
    pub npc_id: &'a str,
    pub case_id: &'a str,
    pub confession_stage: &'a str,
    pub game_state: &'a JsonValue,
    pub history: &'a [JsonValue],
    pub player_text: &'a str,
    pub evidence_id: Option<String>,
    pub pressure_level: &'a str,
}

/// The goal of the task.
pub open spec fn session_goal(npc_id: Seq<char>, contract: Seq<char>) -> Seq<char> {
    "Reply in character as "@ + npc_id + " to the player's interrogation message.\n\n"@ + contract
}

/// The members both the intent and the project data carry: the turn's
/// ids and text, the stage, the reply contract, the conversation so far
/// (message by message) and the knowledge boundary `kb`.
pub open spec fn carries_turn(v: JsonValue, input: SessionTaskInput, contract: Seq<char>, kb: JsonValue) -> bool {
    &&& member_str(v, "session_id"@) == Some(input.session_id@)
    &&& member_str(v, "case_id"@) == Some(input.case_id@)
    &&& member_str(v, "npc_id"@) == Some(input.npc_id@)
    &&& member_str(v, "player_text"@) == Some(input.player_text@)
    &&& match input.evidence_id {
        Some(e) => member_str(v, "evidence_id"@) == Some(e@),
        None => member(v, "evidence_id"@) == Some(JsonValue::Null),
    }
    &&& member_str(v, "pressure_level"@) == Some(input.pressure_level@)
    &&& member_str(v, "current_confession_stage"@) == Some(input.confession_stage@)
    &&& member_str(v, "narrative_output_contract"@) == Some(contract)
    &&& member(v, "history"@) matches Some(JsonValue::Array(h)) && h@.len() == input.history@.len()
        && forall|i: int| 0 <= i < h@.len() ==> json_same(input.history@[i], #[trigger] h@[i])
    &&& member(v, "knowledge_boundary"@) matches Some(x) && json_same(kb, x)
}

fn str_value(s: &str) -> (r: JsonValue)
    ensures
        r matches JsonValue::String(t) && t@ == s@,
{
    JsonValue::String(String::from_str(s))
}

fn history_value(history: &[JsonValue]) -> (r: JsonValue)
    ensures
        r matches JsonValue::Array(h) && h@.len() == history@.len() && forall|i: int|
            0 <= i < h@.len() ==> json_same(history@[i], #[trigger] h@[i]),
{
    let mut v: Vec<JsonValue> = Vec::new();
    let mut i: usize = 0;
    while i < history.len()
        invariant
            i <= history@.len(),
            v@.len() == i,
            forall|j: int| 0 <= j < i ==> json_same(history@[j], #[trigger] v@[j]),
        decreases history@.len() - i,
    {
        v.push(history[i].duplicate());
        i = i + 1;
    }
    JsonValue::Array(v)
}

/// The members the intent and the project data share, in order.
fn turn_members(
    es: &mut Vec<(String, JsonValue)>,
    input: &SessionTaskInput,
    contract: &str,
    knowledge_boundary: &JsonValue,
)
    requires
        forall|k: Seq<char>| #[trigger] crate::json::lookup(old(es)@, k) is None,
    ensures
        carries_turn(JsonValue::Object(*final(es)), *input, contract@, *knowledge_boundary),
        crate::json::lookup(final(es)@, "game_state"@) is None,
{
    proof {
        reveal_strlit("game_state");
        assert("game_state"@.len() == 10);
    }
    proof {
        reveal_strlit("session_id");
        reveal_strlit("case_id");
        reveal_strlit("npc_id");
        reveal_strlit("player_text");
        reveal_strlit("evidence_id");
        reveal_strlit("pressure_level");
        reveal_strlit("current_confession_stage");
        reveal_strlit("narrative_output_contract");
        reveal_strlit("history");
        reveal_strlit("knowledge_boundary");
        assert("game_state"@[0] != "session_id"@[0]);
        assert("game_state"@[0] != "case_id"@[0]);
        assert("game_state"@[0] != "npc_id"@[0]);
        assert("game_state"@[0] != "player_text"@[0]);
        assert("game_state"@[0] != "evidence_id"@[0]);
        assert("game_state"@[0] != "pressure_level"@[0]);
        assert("game_state"@[0] != "current_confession_stage"@[0]);
        assert("game_state"@[0] != "narrative_output_contract"@[0]);
        assert("game_state"@[0] != "history"@[0]);
        assert("game_state"@[0] != "knowledge_boundary"@[0]);
        reveal_strlit("session_id");
        reveal_strlit("case_id");
        reveal_strlit("npc_id");
        reveal_strlit("player_text");
        reveal_strlit("evidence_id");
        reveal_strlit("pressure_level");
        reveal_strlit("current_confession_stage");
        reveal_strlit("narrative_output_contract");
        reveal_strlit("history");
        reveal_strlit("knowledge_boundary");
        assert("session_id"@.len() == 10);
        assert("case_id"@.len() == 7);
        assert("npc_id"@.len() == 6);
        assert("player_text"@.len() == 11);
        assert("evidence_id"@.len() == 11);
        assert("player_text"@[0] != "evidence_id"@[0]);
        assert("pressure_level"@.len() == 14);
        assert("current_confession_stage"@.len() == 24);
        assert("narrative_output_contract"@.len() == 25);
        assert("history"@.len() == 7);
        assert("case_id"@[0] != "history"@[0]);
        assert("knowledge_boundary"@.len() == 18);
    }
    push_field(es, "session_id", str_value(input.session_id));
    push_field(es, "case_id", str_value(input.case_id));
    push_field(es, "npc_id", str_value(input.npc_id));
    push_field(es, "player_text", str_value(input.player_text));
    let ev = match &input.evidence_id {
        Some(e) => str_value(e.as_str()),
        None => JsonValue::Null,
    };
    push_field(es, "evidence_id", ev);
    push_field(es, "pressure_level", str_value(input.pressure_level));
    push_field(es, "current_confession_stage", str_value(input.confession_stage));
    push_field(es, "narrative_output_contract", str_value(contract));
    push_field(es, "history", history_value(input.history));
    push_field(es, "knowledge_boundary", knowledge_boundary.duplicate());
}

fn single(key: &str, value: JsonValue) -> (r: JsonValue)
    ensures
        member(r, key@) == Some(value),
{
    let mut es: Vec<(String, JsonValue)> = Vec::new();
    push_field(&mut es, key, value);
    JsonValue::Object(es)
}

/// The shape of the reply the card asks for.
fn reply_shape() -> (r: JsonValue)
    ensures
        member(r, "summary_shape"@) matches Some(JsonValue::Object(_)),
{
    let mut delta: Vec<(String, JsonValue)> = Vec::new();
    push_field(&mut delta, "should_change", str_value("bool"));
    push_field(&mut delta, "new_stage", str_value("null|string"));
    push_field(&mut delta, "reason", str_value("null|string"));
    let mut shape: Vec<(String, JsonValue)> = Vec::new();
    push_field(&mut shape, "utterance", str_value("string"));
    push_field(&mut shape, "emotion", str_value("enum(calm|defensive|nervous|anxious|angry|broken)"));
    push_field(&mut shape, "stage_delta", JsonValue::Object(delta));
    push_field(&mut shape, "reveals", str_value("string[]"));
    push_field(&mut shape, "debug_tags", str_value("string[] optional"));
    push_field(&mut shape, "confidence", str_value("number 0..=1"));
    single("summary_shape", JsonValue::Object(shape))
}

/// The dispatch for a player's message.  `task_id`, `req_id` and `ts` are
/// the fresh ids and time it carries; `knowledge_boundary` is what the
/// character may draw on at its stage.
pub fn build_task_dispatch(
    input: SessionTaskInput<'_>,
    task_id: String,
    req_id: String,
    ts: String,
    knowledge_boundary: JsonValue,
) -> (r: TaskDispatch)
    ensures
        r.ts == ts,
        r.event_id is None,
        r.req_id == req_id,
        r.agent_id@ == input.npc_id@,
        r.task_id == task_id,
        r.task_card.schema_version@ == "2.8"@,
        r.task_card.task_card_id == task_id,
        r.task_card.project@ == "narrative-session"@,
        r.task_card.created_at == ts,
        r.task_card.status@ == "created"@,
        r.task_card.goal@ == session_goal(input.npc_id@, output_contract()),
        carries_turn(r.task_card.compiled_intent, input, output_contract(), knowledge_boundary),
        r.task_card.context.project_context.name@ == "narrative-session"@,
        carries_turn(r.task_card.context.project_context.data, input, output_contract(), knowledge_boundary),
        member(r.task_card.context.project_context.data, "game_state"@) matches Some(g) && json_same(
            *input.game_state,
            g,
        ),
        r.task_card.context.project_context.global_must_avoid@.len() == 0,
        r.task_card.context.relevant_feedback matches JsonValue::Array(a) && a@.len() == 0,
        member_str(r.task_card.execution_plan, "primary_agent"@) == Some(input.npc_id@),
        r.task_card.allowed_files@.len() == 0,
        r.task_card.safety.allowed_paths@.len() == 0,
        r.task_card.safety.denied_commands@.len() == 0,
        member(r.task_card.output_contract, "summary_shape"@) is Some,
{
    let contract = output_contract_text();
    let goal = concat3(
        "Reply in character as ",
        input.npc_id,
        " to the player's interrogation message.\n\n",
    );
    let mut goal = goal;
    push_str(&mut goal, contract);
    let mut intent: Vec<(String, JsonValue)> = Vec::new();
    assert(intent@ =~= Seq::<(String, JsonValue)>::empty());
    turn_members(&mut intent, &input, contract, &knowledge_boundary);
    let mut data: Vec<(String, JsonValue)> = Vec::new();
    assert(data@ =~= Seq::<(String, JsonValue)>::empty());
    turn_members(&mut data, &input, contract, &knowledge_boundary);
    let ghost d0 = data@;
    let gs = input.game_state.duplicate();
    let ghost gsv = gs;
    push_field(&mut data, "game_state", gs);
    proof {
        reveal_strlit("game_state");
        reveal_strlit("session_id");
        reveal_strlit("case_id");
        reveal_strlit("npc_id");
        reveal_strlit("player_text");
        reveal_strlit("evidence_id");
        reveal_strlit("pressure_level");
        reveal_strlit("current_confession_stage");
        reveal_strlit("narrative_output_contract");
        reveal_strlit("history");
        reveal_strlit("knowledge_boundary");
        assert("game_state"@.len() == 10);
        assert("game_state"@[0] != "session_id"@[0]);
        assert("case_id"@.len() == 7);
        assert("npc_id"@.len() == 6);
        assert("player_text"@.len() == 11);
        assert("evidence_id"@.len() == 11);
        assert("pressure_level"@.len() == 14);
        assert("current_confession_stage"@.len() == 24);
        assert("narrative_output_contract"@.len() == 25);
        assert("history"@.len() == 7);
        assert("knowledge_boundary"@.len() == 18);
        assert(crate::json::lookup(d0, "game_state"@) is None);
        assert(member(JsonValue::Object(data), "game_state"@) == Some(gsv));
    }
    let plan = single("primary_agent", str_value(input.npc_id));
    TaskDispatch {
        ts: ts.clone(),
        event_id: None,
        req_id,
        agent_id: String::from_str(input.npc_id),
        task_id: task_id.clone(),
        task_card: TaskCard {
            schema_version: String::from_str("2.8"),
            task_card_id: task_id,
            project: String::from_str("narrative-session"),
            created_at: ts,
            status: String::from_str("created"),
            goal,
            compiled_intent: JsonValue::Object(intent),
            context: TaskContext {
                user_preferences: JsonValue::Object(Vec::new()),
                project_context: ProjectContext {
                    name: String::from_str("narrative-session"),
                    data: JsonValue::Object(data),
                    global_must_avoid: Vec::new(),
                },
                relevant_feedback: JsonValue::Array(Vec::new()),
            },
            execution_plan: plan,
            acceptance_criteria: JsonValue::Object(Vec::new()),
            allowed_files: Vec::new(),
            safety: SafetyRules { allowed_paths: Vec::new(), denied_commands: Vec::new() },
            output_contract: reply_shape(),
            review_gate_criteria: JsonValue::Object(Vec::new()),
        },
    }
}

} // verus!
