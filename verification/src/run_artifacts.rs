//! The artifacts a finished run leaves: its summary, the log of each hook
//! and the environment hooks run with, and transcript records.
use vstd::prelude::*;

use crate::json::{member_str, push_field, JsonValue};
use crate::text::{concat2, concat3, dec, decimal, push_str};

verus! {

/// The summary of a run that finished.
pub open spec fn done_summary_text(
    run_id: Seq<char>,
    task_id: Seq<char>,
    agent_id: Seq<char>,
    goal: Seq<char>,
    summary: Seq<char>,
    started: Seq<char>,
    finished: Seq<char>,
) -> Seq<char> {
    "# Run Summary\n\n- Run ID: "@ + run_id + "\n- Task ID: "@ + task_id + "\n- Agent: "@ + agent_id
        + "\n- Goal: "@ + goal + "\n- Status: done\n- Started: "@ + started + "\n- Finished: "@
        + finished + "\n\n## Result\n\n"@ + summary
        + "\n\n## Artifacts\n\n- [transcript.jsonl](./transcript.jsonl)\n"@
}

/// The summary of a run that failed.
pub open spec fn error_summary_text(
    run_id: Seq<char>,
    task_id: Seq<char>,
    agent_id: Seq<char>,
    goal: Seq<char>,
    taxonomy: Seq<char>,
    detail: Seq<char>,
    started: Seq<char>,
    finished: Seq<char>,
) -> Seq<char> {
    "# Run Summary\n\n- Run ID: "@ + run_id + "\n- Task ID: "@ + task_id + "\n- Agent: "@ + agent_id
        + "\n- Goal: "@ + goal + "\n- Status: error ("@ + taxonomy + ")\n- Started: "@ + started
        + "\n- Finished: "@ + finished + "\n\n## Error\n\n"@ + detail
        + "\n\n## Artifacts\n\n- [transcript.jsonl](./transcript.jsonl)\n"@
}

pub fn summary_for_done(
    run_id: &str,
    task_id: &str,
    agent_id: &str,
    goal: &str,
    summary: &str,
    started_at: &str,
    finished_at: &str,
) -> (r: String)
    ensures
        r@ == done_summary_text(run_id@, task_id@, agent_id@, goal@, summary@, started_at@, finished_at@),
{
    let mut s = concat2("# Run Summary\n\n- Run ID: ", run_id);
    push_str(&mut s, "\n- Task ID: ");
    push_str(&mut s, task_id);
    push_str(&mut s, "\n- Agent: ");
    push_str(&mut s, agent_id);
    push_str(&mut s, "\n- Goal: ");
    push_str(&mut s, goal);
    push_str(&mut s, "\n- Status: done\n- Started: ");
    push_str(&mut s, started_at);
    push_str(&mut s, "\n- Finished: ");
    push_str(&mut s, finished_at);
    push_str(&mut s, "\n\n## Result\n\n");
    push_str(&mut s, summary);
    push_str(&mut s, "\n\n## Artifacts\n\n- [transcript.jsonl](./transcript.jsonl)\n");
    s
}

pub fn summary_for_error(
    run_id: &str,
    task_id: &str,
    agent_id: &str,
    goal: &str,
    error_taxonomy: &str,
    detail: &str,
    started_at: &str,
    finished_at: &str,
) -> (r: String)
    ensures
        r@ == error_summary_text(
            run_id@,
            task_id@,
            agent_id@,
            goal@,
            error_taxonomy@,
            detail@,
            started_at@,
            finished_at@,
        ),
{
    let mut s = concat2("# Run Summary\n\n- Run ID: ", run_id);
    push_str(&mut s, "\n- Task ID: ");
    push_str(&mut s, task_id);
    push_str(&mut s, "\n- Agent: ");
    push_str(&mut s, agent_id);
    push_str(&mut s, "\n- Goal: ");
    push_str(&mut s, goal);
    push_str(&mut s, "\n- Status: error (");
    push_str(&mut s, error_taxonomy);
    push_str(&mut s, ")\n- Started: ");
    push_str(&mut s, started_at);
    push_str(&mut s, "\n- Finished: ");
    push_str(&mut s, finished_at);
    push_str(&mut s, "\n\n## Error\n\n");
    push_str(&mut s, detail);
    push_str(&mut s, "\n\n## Artifacts\n\n- [transcript.jsonl](./transcript.jsonl)\n");
    s
}

/// How long a hook may run, in seconds.
pub const HOOK_TIMEOUT_SECS: u64 = 30;

/// The decimal text of a signed exit code.
pub open spec fn int_text(c: i32) -> Seq<char> {
    if c < 0 {
        "-"@ + dec((-c) as nat)
    } else {
        dec(c as nat)
    }
}

fn exit_code_text(c: i32) -> (r: String)
    ensures
        r@ == int_text(c),
{
    if c < 0 {
        let m: u64 = (0i64 - (c as i64)) as u64;
        let d = decimal(m);
        concat2("-", d.as_str())
    } else {
        decimal(c as u64)
    }
}

/// The log of a hook that ran: its exit code (`signal` when a signal ended
/// it), its output and its error output.
pub open spec fn hook_log(code: Option<i32>, stdout: Seq<char>, stderr: Seq<char>) -> Seq<char> {
    "exit="@ + match code {
        Some(c) => int_text(c),
        None => "signal"@,
    } + "\n--- stdout ---\n"@ + stdout + "\n--- stderr ---\n"@ + stderr
}

pub fn hook_log_text(code: Option<i32>, stdout: &str, stderr: &str) -> (r: String)
    ensures
        r@ == hook_log(code, stdout@, stderr@),
{
    let c = match code {
        Some(c) => exit_code_text(c),
        None => String::from_str("signal"),
    };
    let mut s = concat2("exit=", c.as_str());
    push_str(&mut s, "\n--- stdout ---\n");
    push_str(&mut s, stdout);
    push_str(&mut s, "\n--- stderr ---\n");
    push_str(&mut s, stderr);
    s
}

/// The log of a hook that could not be started.
pub fn hook_failed_text(error: &str) -> (r: String)
    ensures
        r@ == "hook failed: "@ + error@ + "\n"@,
{
    concat3("hook failed: ", error, "\n")
}

/// The log of a hook that ran past its time.
pub fn hook_timeout_text() -> (r: String)
    ensures
        r@ == "hook timed out after 30s\n"@,
{
    String::from_str("hook timed out after 30s\n")
}

/// The environment a hook runs with.
pub fn hook_env(
    run_id: &str,
    task_id: &str,
    run_dir: &str,
    transcript_path: &str,
    summary_path: &str,
    status: &str,
) -> (r: Vec<(String, String)>)
    ensures
        r@.map_values(|e: (String, String)| (e.0@, e.1@)) == seq![
            ("DAEDALUS_RUN_ID"@, run_id@),
            ("DAEDALUS_TASK_ID"@, task_id@),
            ("DAEDALUS_RUN_DIR"@, run_dir@),
            ("DAEDALUS_TRANSCRIPT_PATH"@, transcript_path@),
            ("DAEDALUS_SUMMARY_PATH"@, summary_path@),
            ("DAEDALUS_STATUS"@, status@),
        ],
{
    let mut v: Vec<(String, String)> = Vec::new();
    v.push((String::from_str("DAEDALUS_RUN_ID"), String::from_str(run_id)));
    v.push((String::from_str("DAEDALUS_TASK_ID"), String::from_str(task_id)));
    v.push((String::from_str("DAEDALUS_RUN_DIR"), String::from_str(run_dir)));
    v.push((String::from_str("DAEDALUS_TRANSCRIPT_PATH"), String::from_str(transcript_path)));
    v.push((String::from_str("DAEDALUS_SUMMARY_PATH"), String::from_str(summary_path)));
    v.push((String::from_str("DAEDALUS_STATUS"), String::from_str(status)));
    assert(v@.map_values(|e: (String, String)| (e.0@, e.1@)) =~= seq![
        ("DAEDALUS_RUN_ID"@, run_id@),
        ("DAEDALUS_TASK_ID"@, task_id@),
        ("DAEDALUS_RUN_DIR"@, run_dir@),
        ("DAEDALUS_TRANSCRIPT_PATH"@, transcript_path@),
        ("DAEDALUS_SUMMARY_PATH"@, summary_path@),
        ("DAEDALUS_STATUS"@, status@),
    ]);
    v
}

/// The transcript record of a run that started.
pub fn started_record(run_id: &str, task_id: &str, agent_id: &str, goal: &str, timestamp: &str) -> (r:
    JsonValue)
    ensures
        member_str(r, "type"@) == Some("task.started"@),
        member_str(r, "run_id"@) == Some(run_id@),
        member_str(r, "task_id"@) == Some(task_id@),
        member_str(r, "agent_id"@) == Some(agent_id@),
        member_str(r, "goal"@) == Some(goal@),
        member_str(r, "timestamp"@) == Some(timestamp@),
{
    proof {
        reveal_strlit("type");
        reveal_strlit("run_id");
        reveal_strlit("task_id");
        reveal_strlit("agent_id");
        reveal_strlit("goal");
        reveal_strlit("timestamp");
        assert("type"@.len() == 4);
        assert("goal"@.len() == 4);
        assert("type"@[0] != "goal"@[0]);
        assert("run_id"@.len() == 6);
        assert("task_id"@.len() == 7);
        assert("agent_id"@.len() == 8);
        assert("timestamp"@.len() == 9);
    }
    let mut es: Vec<(String, JsonValue)> = Vec::new();
    push_field(&mut es, "type", JsonValue::String(String::from_str("task.started")));
    push_field(&mut es, "run_id", JsonValue::String(String::from_str(run_id)));
    push_field(&mut es, "task_id", JsonValue::String(String::from_str(task_id)));
    push_field(&mut es, "agent_id", JsonValue::String(String::from_str(agent_id)));
    push_field(&mut es, "goal", JsonValue::String(String::from_str(goal)));
    push_field(&mut es, "timestamp", JsonValue::String(String::from_str(timestamp)));
    JsonValue::Object(es)
}

/// The transcript record of a run that failed.
pub fn error_record(
    run_id: &str,
    task_id: &str,
    agent_id: &str,
    error_taxonomy: &str,
    detail: &str,
    timestamp: &str,
) -> (r: JsonValue)
    ensures
        member_str(r, "type"@) == Some("task.error"@),
        member_str(r, "run_id"@) == Some(run_id@),
        member_str(r, "task_id"@) == Some(task_id@),
        member_str(r, "agent_id"@) == Some(agent_id@),
        member_str(r, "error_taxonomy"@) == Some(error_taxonomy@),
        member_str(r, "detail"@) == Some(detail@),
        member_str(r, "timestamp"@) == Some(timestamp@),
{
    proof {
        reveal_strlit("type");
        reveal_strlit("run_id");
        reveal_strlit("task_id");
        reveal_strlit("agent_id");
        reveal_strlit("error_taxonomy");
        reveal_strlit("detail");
        reveal_strlit("timestamp");
        assert("type"@.len() == 4);
        assert("run_id"@.len() == 6);
        assert("detail"@.len() == 6);
        assert("run_id"@[0] != "detail"@[0]);
        assert("task_id"@.len() == 7);
        assert("agent_id"@.len() == 8);
        assert("error_taxonomy"@.len() == 14);
        assert("timestamp"@.len() == 9);
    }
    let mut es: Vec<(String, JsonValue)> = Vec::new();
    push_field(&mut es, "type", JsonValue::String(String::from_str("task.error")));
    push_field(&mut es, "run_id", JsonValue::String(String::from_str(run_id)));
    push_field(&mut es, "task_id", JsonValue::String(String::from_str(task_id)));
    push_field(&mut es, "agent_id", JsonValue::String(String::from_str(agent_id)));
    push_field(&mut es, "error_taxonomy", JsonValue::String(String::from_str(error_taxonomy)));
    push_field(&mut es, "detail", JsonValue::String(String::from_str(detail)));
    push_field(&mut es, "timestamp", JsonValue::String(String::from_str(timestamp)));
    JsonValue::Object(es)
}

} // verus!
