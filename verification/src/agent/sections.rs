//! The text each prompt source contributes, made from what was read.
//!
//! Reading a source (a file, the database) is the caller's part; these
//! functions turn the records read into the section bodies.
use vstd::prelude::*;

use crate::agent::prompt::joined;
use crate::db::registry::{run_status_name, AgentRunStatus};
use crate::json::{member, member_str, JsonValue};
use crate::agent::prompt_sources::{kept, pieces, tokenize};
use crate::text::{concat2, concat3, lemma_seq_lt_total, lemma_seq_lt_trans, lowercase, push_str, seq_lt, str_eq, str_lt};
use crate::types::TaskCard;

verus! {

/// Strings joined by a separator.
pub fn join_strings(items: &Vec<String>, sep: &str) -> (r: String)
    ensures
        r@ == joined(items@.map_values(|s: String| s@), sep@),
{
    let ghost v = items@.map_values(|s: String| s@);
    let mut out = String::new();
    let mut i: usize = 0;
    while i < items.len()
        invariant
            i <= items@.len(),
            v == items@.map_values(|s: String| s@),
            out@ == joined(v.subrange(0, i as int), sep@),
        decreases items@.len() - i,
    {
        proof {
            assert(v.subrange(0, i + 1).drop_last() =~= v.subrange(0, i as int));
        }
        if i > 0 {
            push_str(&mut out, sep);
        }
        push_str(&mut out, items[i].as_str());
        proof {
            if i == 0 {
                assert(v.subrange(0, 1) =~= seq![v[0]]);
            }
        }
        i = i + 1;
    }
    assert(v.subrange(0, items@.len() as int) =~= v);
    out
}

/// The permission of an agent entry: `ask_user` when none is configured.
pub open spec fn effective_permission(p: Seq<char>) -> Seq<char> {
    if p.len() == 0 {
        "ask_user"@
    } else {
        p
    }
}

pub fn permission_or_default(permission: &str) -> (r: String)
    ensures
        r@ == effective_permission(permission@),
{
    proof {
        reveal_strlit("");
    }
    if permission.is_empty() {
        String::from_str("ask_user")
    } else {
        String::from_str(permission)
    }
}

/// The `agent` section: role, tools and permission of the agent's entry.
pub fn agent_section(role_summary: &str, tools: &Vec<String>, permission: &str) -> (r: String)
    ensures
        r@ == "角色: "@ + role_summary@ + "\n工具: "@ + joined(tools@.map_values(|s: String| s@), ", "@)
            + "\n权限: "@ + permission@,
{
    let mut s = concat3("角色: ", role_summary, "\n工具: ");
    let t = join_strings(tools, ", ");
    push_str(&mut s, t.as_str());
    push_str(&mut s, "\n权限: ");
    push_str(&mut s, permission);
    s
}

/// One entry of the feedback memory.
#[derive(Debug, Clone)]
pub struct FeedbackEntry {
    pub task_id: String,
    pub timestamp: String,
    pub feedback: String,
    pub category: Option<String>,
}

/// `- {timestamp} [{category}]: {feedback}`, the category left out when
/// there is none.
pub open spec fn feedback_line(e: FeedbackEntry) -> Seq<char> {
    "- "@ + e.timestamp@ + match e.category {
        Some(c) => " ["@ + c@ + "]"@,
        None => ""@,
    } + ": "@ + e.feedback@
}

fn feedback_text(e: &FeedbackEntry) -> (r: String)
    ensures
        r@ == feedback_line(*e),
{
    proof {
        reveal_strlit("");
    }
    let mut s = concat2("- ", e.timestamp.as_str());
    match &e.category {
        Some(c) => {
            push_str(&mut s, " [");
            push_str(&mut s, c.as_str());
            push_str(&mut s, "]");
        },
        None => {},
    }
    push_str(&mut s, ": ");
    push_str(&mut s, e.feedback.as_str());
    s
}

/// The `feedback` section: nothing for no entries, else a heading and one
/// line per entry in order.
pub fn feedback_section(entries: &Vec<FeedbackEntry>) -> (r: Option<String>)
    ensures
        entries@.len() == 0 ==> r is None,
        entries@.len() > 0 ==> (r matches Some(s) && s@ == "最近反馈:\n"@ + joined(
            entries@.map_values(|e: FeedbackEntry| feedback_line(e)),
            "\n"@,
        )),
{
    if entries.len() == 0 {
        return None;
    }
    let mut lines: Vec<String> = Vec::new();
    let mut i: usize = 0;
    while i < entries.len()
        invariant
            i <= entries@.len(),
            lines@.map_values(|s: String| s@) == entries@.subrange(0, i as int).map_values(
                |e: FeedbackEntry| feedback_line(e),
            ),
        decreases entries@.len() - i,
    {
        let ghost old_lines = lines@;
        let t = feedback_text(&entries[i]);
        lines.push(t);
        proof {
            assert(lines@.map_values(|s: String| s@) =~= old_lines.map_values(|s: String| s@).push(t@));
            assert(entries@.subrange(0, i + 1) =~= entries@.subrange(0, i as int).push(entries@[i as int]));
            assert(entries@.subrange(0, i + 1).map_values(|e: FeedbackEntry| feedback_line(e))
                =~= entries@.subrange(0, i as int).map_values(|e: FeedbackEntry| feedback_line(e)).push(
                feedback_line(entries@[i as int]),
            ));
        }
        i = i + 1;
    }
    assert(entries@.subrange(0, entries@.len() as int) =~= entries@);
    let body = join_strings(&lines, "\n");
    Some(concat2("最近反馈:\n", body.as_str()))
}

/// The lines of the `project` section: the name, the description when
/// there is one, the conventions when there are any.
pub open spec fn project_lines(name: Seq<char>, description: Option<Seq<char>>, conventions: Seq<Seq<char>>) -> Seq<Seq<char>> {
    let a = seq!["项目: "@ + name];
    let b = match description {
        Some(d) => a.push("描述: "@ + d),
        None => a,
    };
    if conventions.len() > 0 {
        b.push("约定: "@ + joined(conventions, ", "@))
    } else {
        b
    }
}

/// The `project` section, its lines joined by newlines.
pub fn project_section(name: &str, description: Option<&str>, conventions: &Vec<String>) -> (r: String)
    ensures
        r@ == joined(
            project_lines(
                name@,
                match description {
                    Some(d) => Some(d@),
                    None => None,
                },
                conventions@.map_values(|s: String| s@),
            ),
            "\n"@,
        ),
{
    let mut lines: Vec<String> = Vec::new();
    lines.push(concat2("项目: ", name));
    match description {
        Some(d) => lines.push(concat2("描述: ", d)),
        None => {},
    }
    if conventions.len() > 0 {
        let c = join_strings(conventions, ", ");
        lines.push(concat2("约定: ", c.as_str()));
    }
    let ghost d = match description {
        Some(d) => Some(d@),
        None => None::<Seq<char>>,
    };
    assert(lines@.map_values(|s: String| s@) =~= project_lines(name@, d, conventions@.map_values(|s: String| s@)));
    join_strings(&lines, "\n")
}

/// One rule of the authority map.
#[derive(Debug, Clone)]
pub struct AuthorityRule {
    pub tool: String,
    pub risk_level: String,
    pub approver: String,
}

/// `  {tool} (risk={risk}) → {approver}`.
pub open spec fn rule_line(r: AuthorityRule) -> Seq<char> {
    "  "@ + r.tool@ + " (risk="@ + r.risk_level@ + ") → "@ + r.approver@
}

/// The `authority` section: nothing for no rules, else a heading line
/// followed by one line per rule.
pub fn authority_section(rules: &Vec<AuthorityRule>) -> (r: Option<String>)
    ensures
        rules@.len() == 0 ==> r is None,
        rules@.len() > 0 ==> (r matches Some(s) && s@ == joined(
            seq!["权限规则:"@] + rules@.map_values(|x: AuthorityRule| rule_line(x)),
            "\n"@,
        )),
{
    if rules.len() == 0 {
        return None;
    }
    let mut lines: Vec<String> = Vec::new();
    lines.push(String::from_str("权限规则:"));
    let mut i: usize = 0;
    while i < rules.len()
        invariant
            i <= rules@.len(),
            lines@.map_values(|s: String| s@) == seq!["权限规则:"@] + rules@.subrange(0, i as int).map_values(
                |x: AuthorityRule| rule_line(x),
            ),
        decreases rules@.len() - i,
    {
        let mut s = concat3("  ", rules[i].tool.as_str(), " (risk=");
        push_str(&mut s, rules[i].risk_level.as_str());
        push_str(&mut s, ") → ");
        push_str(&mut s, rules[i].approver.as_str());
        let ghost old_lines = lines@;
        lines.push(s);
        proof {
            assert(lines@.map_values(|s: String| s@) =~= old_lines.map_values(|s: String| s@).push(s@));
            assert(rules@.subrange(0, i + 1) =~= rules@.subrange(0, i as int).push(rules@[i as int]));
            assert(rules@.subrange(0, i + 1).map_values(|x: AuthorityRule| rule_line(x))
                =~= rules@.subrange(0, i as int).map_values(|x: AuthorityRule| rule_line(x)).push(
                rule_line(rules@[i as int]),
            ));
            assert(lines@.map_values(|s: String| s@) =~= seq!["权限规则:"@] + rules@.subrange(0, i + 1).map_values(
                |x: AuthorityRule| rule_line(x),
            ));
        }
        i = i + 1;
    }
    assert(rules@.subrange(0, rules@.len() as int) =~= rules@);
    Some(join_strings(&lines, "\n"))
}

/// A past run of the agent, as the history section shows it.
#[derive(Debug, Clone)]
pub struct PastRun {
    pub task_id: String,
    pub status: AgentRunStatus,
    pub outbox_summary: Option<String>,
}

/// `- {task_id} ({status}): {summary}`, `—` standing for a missing summary.
pub open spec fn run_line(r: PastRun) -> Seq<char> {
    "- "@ + r.task_id@ + " ("@ + run_status_name(r.status) + "): "@ + match r.outbox_summary {
        Some(s) => s@,
        None => "—"@,
    }
}

/// The `history` section: nothing for no runs, else a heading line
/// followed by one line per run, most recent first as given.
pub fn history_section(runs: &Vec<PastRun>) -> (r: Option<String>)
    ensures
        runs@.len() == 0 ==> r is None,
        runs@.len() > 0 ==> (r matches Some(s) && s@ == joined(
            seq!["最近任务历史:"@] + runs@.map_values(|x: PastRun| run_line(x)),
            "\n"@,
        )),
{
    if runs.len() == 0 {
        return None;
    }
    let mut lines: Vec<String> = Vec::new();
    lines.push(String::from_str("最近任务历史:"));
    let mut i: usize = 0;
    while i < runs.len()
        invariant
            i <= runs@.len(),
            lines@.map_values(|s: String| s@) == seq!["最近任务历史:"@] + runs@.subrange(0, i as int).map_values(
                |x: PastRun| run_line(x),
            ),
        decreases runs@.len() - i,
    {
        let mut s = concat3("- ", runs[i].task_id.as_str(), " (");
        push_str(&mut s, runs[i].status.as_str());
        push_str(&mut s, "): ");
        match &runs[i].outbox_summary {
            Some(t) => push_str(&mut s, t.as_str()),
            None => push_str(&mut s, "—"),
        }
        let ghost old_lines = lines@;
        lines.push(s);
        proof {
            assert(lines@.map_values(|s: String| s@) =~= old_lines.map_values(|s: String| s@).push(s@));
            assert(runs@.subrange(0, i + 1) =~= runs@.subrange(0, i as int).push(runs@[i as int]));
            assert(runs@.subrange(0, i + 1).map_values(|x: PastRun| run_line(x))
                =~= runs@.subrange(0, i as int).map_values(|x: PastRun| run_line(x)).push(
                run_line(runs@[i as int]),
            ));
            assert(lines@.map_values(|s: String| s@) =~= seq!["最近任务历史:"@] + runs@.subrange(0, i + 1).map_values(
                |x: PastRun| run_line(x),
            ));
        }
        i = i + 1;
    }
    assert(runs@.subrange(0, runs@.len() as int) =~= runs@);
    Some(join_strings(&lines, "\n"))
}

/// A string member of the compiled intent, else of the project data.
pub open spec fn intent_or_data(task: TaskCard, key: Seq<char>) -> Option<Seq<char>> {
    match member(task.compiled_intent, key) {
        Some(v) => match v {
            JsonValue::String(s) => Some(s@),
            _ => None,
        },
        None => member_str(task.context.project_context.data, key),
    }
}

fn intent_or_data_str<'a>(task: &'a TaskCard, key: &str) -> (r: Option<&'a str>)
    ensures
        match r {
            Some(s) => intent_or_data(*task, key@) == Some(s@),
            None => intent_or_data(*task, key@) is None,
        },
{
    match task.compiled_intent.get(key) {
        Some(v) => v.as_str(),
        None => match task.context.project_context.data.get(key) {
            Some(v) => v.as_str(),
            None => None,
        },
    }
}

/// Whose knowledge the `character_knowledge` section shows and at which
/// stage: the task's `current_confession_stage` (none: no section) and its
/// `npc_id`, the agent's own id when the task names none.
pub fn knowledge_target(task: &TaskCard, agent_id: &str) -> (r: Option<(String, String)>)
    ensures
        match intent_or_data(*task, "current_confession_stage"@) {
            None => r is None,
            Some(stage) => r matches Some((npc, st)) && st@ == stage && npc@ == match intent_or_data(
                *task,
                "npc_id"@,
            ) {
                Some(n) => n,
                None => agent_id@,
            },
        },
{
    let stage = match intent_or_data_str(task, "current_confession_stage") {
        Some(s) => s,
        None => return None,
    };
    let npc = match intent_or_data_str(task, "npc_id") {
        Some(n) => n,
        None => agent_id,
    };
    Some((String::from_str(npc), String::from_str(stage)))
}


// ── skills ───────────────────────────────────────────────────────────

/// A skill document: where it was found, the description of its front
/// matter, and its whole content.
#[derive(Debug, Clone)]
pub struct SkillDoc {
    pub path: String,
    pub description: String,
    pub content: String,
}

/// The tokens `tokenize` gives for a text.
pub open spec fn tokens_of(text: Seq<char>) -> Seq<Seq<char>> {
    kept(pieces(lowercase(text)))
}

/// How many of `ts` (counted with repetition) occur among `input`.
pub open spec fn overlap(ts: Seq<Seq<char>>, input: Seq<Seq<char>>) -> nat
    decreases ts.len(),
{
    if ts.len() == 0 {
        0
    } else {
        overlap(ts.drop_last(), input) + if input.contains(ts.last()) {
            1nat
        } else {
            0nat
        }
    }
}

/// The score of a skill for the task text: the overlap of its
/// description's tokens with the task's tokens.
pub open spec fn skill_score(doc: SkillDoc, corpus: Seq<char>) -> nat {
    overlap(tokens_of(doc.description@), tokens_of(corpus))
}

/// Whether the skill at `a` ranks before the one at `b`: higher score
/// first, then the smaller path, then the earlier position.
pub open spec fn ranks_before(docs: Seq<SkillDoc>, corpus: Seq<char>, a: int, b: int) -> bool {
    let sa = skill_score(docs[a], corpus);
    let sb = skill_score(docs[b], corpus);
    ||| sa > sb
    ||| sa == sb && seq_lt(docs[a].path@, docs[b].path@)
    ||| sa == sb && docs[a].path@ == docs[b].path@ && a < b
}

/// A ranking of the skills: every skill that scores above zero, each
/// once, in ranking order.
pub open spec fn is_ranking(docs: Seq<SkillDoc>, corpus: Seq<char>, ranked: Seq<usize>) -> bool {
    &&& forall|i: int| 0 <= i < ranked.len() ==> (#[trigger] ranked[i]) < docs.len()
    &&& forall|i: int| 0 <= i < ranked.len() ==> skill_score(docs[#[trigger] ranked[i] as int], corpus) > 0
    &&& forall|j: int| 0 <= j < docs.len() && skill_score(docs[j], corpus) > 0 ==> ranked.contains(j as usize)
    &&& forall|i: int, j: int|
        0 <= i < j < ranked.len() ==> ranks_before(docs, corpus, #[trigger] ranked[i] as int, #[trigger] ranked[j] as int)
}

/// The `skills` section: the contents of the first five ranked skills,
/// separated by blank lines; nothing when no skill scores.
pub open spec fn skills_text(docs: Seq<SkillDoc>, ranked: Seq<usize>) -> Option<Seq<char>> {
    if ranked.len() == 0 {
        None
    } else {
        let top = if ranked.len() > 5 {
            ranked.subrange(0, 5)
        } else {
            ranked
        };
        Some(joined(top.map_values(|i: usize| docs[i as int].content@), "\n\n"@))
    }
}

fn count_overlap(ts: &Vec<String>, input: &Vec<String>) -> (r: usize)
    ensures
        r == overlap(ts@.map_values(|t: String| t@), input@.map_values(|t: String| t@)),
{
    let ghost tv = ts@.map_values(|t: String| t@);
    let ghost iv = input@.map_values(|t: String| t@);
    let mut n: usize = 0;
    let mut i: usize = 0;
    while i < ts.len()
        invariant
            i <= ts@.len(),
            tv == ts@.map_values(|t: String| t@),
            iv == input@.map_values(|t: String| t@),
            n == overlap(tv.subrange(0, i as int), iv),
            n <= i,
        decreases ts@.len() - i,
    {
        proof {
            assert(tv.subrange(0, i + 1).drop_last() =~= tv.subrange(0, i as int));
        }
        let mut found = false;
        let mut j: usize = 0;
        while j < input.len()
            invariant
                j <= input@.len(),
                i < ts@.len(),
                tv == ts@.map_values(|t: String| t@),
                iv == input@.map_values(|t: String| t@),
                found == exists|k: int| 0 <= k < j && iv[k] == tv[i as int],
            decreases input@.len() - j,
        {
            proof {
                assert(iv[j as int] == input@[j as int]@);
                assert(tv[i as int] == ts@[i as int]@);
            }
            if str_eq(input[j].as_str(), ts[i].as_str()) {
                found = true;
            }
            j = j + 1;
        }
        proof {
            if found {
                let k = choose|k: int| 0 <= k < input@.len() && iv[k] == tv[i as int];
                assert(iv.contains(tv[i as int]));
            } else {
                assert(!iv.contains(tv[i as int])) by {
                    if iv.contains(tv[i as int]) {
                        let k = choose|k: int| 0 <= k < iv.len() && iv[k] == tv[i as int];
                        assert(iv[k] == tv[i as int]);
                    }
                }
            }
        }
        if found {
            n = n + 1;
        }
        i = i + 1;
    }
    assert(tv.subrange(0, ts@.len() as int) =~= tv);
    n
}

/// The skills that score above zero for the task text, in ranking order.
pub fn rank_skills(corpus: &str, docs: &Vec<SkillDoc>) -> (r: Vec<usize>)
    ensures
        is_ranking(docs@, corpus@, r@),
{
    let input = tokenize(corpus);
    let mut scores: Vec<usize> = Vec::new();
    let mut i: usize = 0;
    while i < docs.len()
        invariant
            i <= docs@.len(),
            input@.map_values(|t: String| t@) == tokens_of(corpus@),
            scores@.len() == i,
            forall|k: int| 0 <= k < i ==> #[trigger] scores@[k] == skill_score(docs@[k], corpus@),
        decreases docs@.len() - i,
    {
        let d = tokenize(docs[i].description.as_str());
        let c = count_overlap(&d, &input);
        scores.push(c);
        i = i + 1;
    }
    let mut ranked: Vec<usize> = Vec::new();
    let mut i: usize = 0;
    while i < docs.len()
        invariant
            i <= docs@.len(),
            scores@.len() == docs@.len(),
            forall|k: int| 0 <= k < docs@.len() ==> #[trigger] scores@[k] == skill_score(docs@[k], corpus@),
            forall|a: int| 0 <= a < ranked@.len() ==> (#[trigger] ranked@[a]) < i,
            forall|a: int| 0 <= a < ranked@.len() ==> skill_score(docs@[#[trigger] ranked@[a] as int], corpus@) > 0,
            forall|j: int| 0 <= j < i && skill_score(docs@[j], corpus@) > 0 ==> ranked@.contains(j as usize),
            forall|a: int, b: int|
                0 <= a < b < ranked@.len() ==> ranks_before(docs@, corpus@, #[trigger] ranked@[a] as int, #[trigger] ranked@[b] as int),
        decreases docs@.len() - i,
    {
        if scores[i] > 0 {
            let mut p: usize = 0;
            while p < ranked.len()
                invariant
                    p <= ranked@.len(),
                    i < docs@.len(),
                    scores@.len() == docs@.len(),
                    forall|k: int| 0 <= k < docs@.len() ==> #[trigger] scores@[k] == skill_score(docs@[k], corpus@),
                    forall|a: int| 0 <= a < ranked@.len() ==> (#[trigger] ranked@[a]) < i,
                    forall|a: int| 0 <= a < p ==> ranks_before(docs@, corpus@, #[trigger] ranked@[a] as int, i as int),
                ensures
                    p <= ranked@.len(),
                    forall|a: int| 0 <= a < p ==> ranks_before(docs@, corpus@, #[trigger] ranked@[a] as int, i as int),
                    p < ranked@.len() ==> ranks_before(docs@, corpus@, i as int, ranked@[p as int] as int),
                decreases ranked@.len() - p,
            {
                let q = ranked[p];
                let sq = scores[q];
                let si = scores[i];
                let goes_first = si > sq || (si == sq && str_lt(docs[i].path.as_str(), docs[q].path.as_str()));
                if goes_first {
                    break;
                }
                proof {
                    let a = q as int;
                    lemma_seq_lt_total(docs@[a].path@, docs@[i as int].path@);
                }
                p = p + 1;
            }
            let ghost old_ranked = ranked@;
            ranked.insert(p, i);
            proof {
                lemma_insert_ranked(docs@, corpus@, old_ranked, p as int, i);
                let t = ranked@;
                assert(t == old_ranked.insert(p as int, i));
                assert forall|j: int| 0 <= j < i + 1 && skill_score(docs@[j], corpus@) > 0 implies t.contains(j as usize) by {
                    if j < i {
                        let a = choose|a: int| 0 <= a < old_ranked.len() && old_ranked[a] == j as usize;
                        if a < p {
                            assert(t[a] == j as usize);
                        } else {
                            assert(t[a + 1] == j as usize);
                        }
                    } else {
                        assert(t[p as int] == i);
                    }
                }
                assert forall|a: int| 0 <= a < t.len() implies (#[trigger] t[a]) < i + 1 by {
                    if a < p {
                        assert(t[a] == old_ranked[a]);
                    } else if a > p {
                        assert(t[a] == old_ranked[a - 1]);
                    }
                }
                assert forall|a: int| 0 <= a < t.len() implies skill_score(docs@[#[trigger] t[a] as int], corpus@) > 0 by {
                    if a < p {
                        assert(t[a] == old_ranked[a]);
                    } else if a > p {
                        assert(t[a] == old_ranked[a - 1]);
                    }
                }
            }
        } else {
            proof {
                assert forall|j: int| 0 <= j < i + 1 && skill_score(docs@[j], corpus@) > 0 implies ranked@.contains(j as usize) by {
                    if j < i {
                    }
                }
            }
        }
        i = i + 1;
    }
    ranked
}

/// Ranking order is transitive.
proof fn lemma_ranks_trans(docs: Seq<SkillDoc>, corpus: Seq<char>, x: int, y: int, z: int)
    requires
        ranks_before(docs, corpus, x, y),
        ranks_before(docs, corpus, y, z),
    ensures
        ranks_before(docs, corpus, x, z),
{
    let sx = skill_score(docs[x], corpus);
    let sy = skill_score(docs[y], corpus);
    let sz = skill_score(docs[z], corpus);
    if sx == sy && sy == sz {
        if seq_lt(docs[x].path@, docs[y].path@) && seq_lt(docs[y].path@, docs[z].path@) {
            lemma_seq_lt_trans(docs[x].path@, docs[y].path@, docs[z].path@);
        }
    }
}

/// Inserting a skill where everything before ranks before it and the
/// next ranks after it keeps a sequence in ranking order.
proof fn lemma_insert_ranked(docs: Seq<SkillDoc>, corpus: Seq<char>, old: Seq<usize>, p: int, i: usize)
    requires
        0 <= p <= old.len(),
        forall|a: int, b: int| 0 <= a < b < old.len() ==> ranks_before(docs, corpus, #[trigger] old[a] as int, #[trigger] old[b] as int),
        forall|a: int| 0 <= a < p ==> ranks_before(docs, corpus, #[trigger] old[a] as int, i as int),
        p < old.len() ==> ranks_before(docs, corpus, i as int, old[p] as int),
    ensures
        forall|a: int, b: int|
            0 <= a < b < old.insert(p, i).len() ==> ranks_before(docs, corpus, #[trigger] old.insert(p, i)[a] as int, #[trigger] old.insert(p, i)[b] as int),
{
    let t = old.insert(p, i);
    assert forall|a: int, b: int| 0 <= a < b < t.len() implies ranks_before(docs, corpus, #[trigger] t[a] as int, #[trigger] t[b] as int) by {
        if b < p {
            assert(t[a] == old[a] && t[b] == old[b]);
        } else if b == p {
            assert(t[a] == old[a]);
        } else if a < p {
            assert(t[a] == old[a] && t[b] == old[b - 1]);
            if b - 1 > p {
                lemma_ranks_trans(docs, corpus, i as int, old[p] as int, old[b - 1] as int);
            }
            lemma_ranks_trans(docs, corpus, old[a] as int, i as int, old[b - 1] as int);
        } else if a == p {
            assert(t[b] == old[b - 1]);
            if b - 1 > p {
                lemma_ranks_trans(docs, corpus, i as int, old[p] as int, old[b - 1] as int);
            }
        } else {
            assert(t[a] == old[a - 1] && t[b] == old[b - 1]);
        }
    }
}

/// The `skills` section for the task text: the best five skills whose
/// description shares tokens with it.
pub fn skills_section(corpus: &str, docs: &Vec<SkillDoc>) -> (r: Option<String>)
    ensures
        exists|ranked: Seq<usize>|
            is_ranking(docs@, corpus@, ranked) && match skills_text(docs@, ranked) {
                Some(t) => r matches Some(s) && s@ == t,
                None => r is None,
            },
{
    let ranked = rank_skills(corpus, docs);
    if ranked.len() == 0 {
        assert(skills_text(docs@, ranked@) is None);
        return None;
    }
    let n = if ranked.len() > 5 {
        5
    } else {
        ranked.len()
    };
    let mut parts: Vec<String> = Vec::new();
    let mut i: usize = 0;
    while i < n
        invariant
            i <= n,
            n <= ranked@.len(),
            forall|a: int| 0 <= a < ranked@.len() ==> (#[trigger] ranked@[a]) < docs@.len(),
            parts@.map_values(|s: String| s@) == ranked@.subrange(0, i as int).map_values(
                |k: usize| docs@[k as int].content@,
            ),
        decreases n - i,
    {
        let ghost old_parts = parts@;
        let k = ranked[i];
        parts.push(docs[k].content.clone());
        proof {
            assert(parts@.map_values(|s: String| s@) =~= old_parts.map_values(|s: String| s@).push(docs@[k as int].content@));
            assert(ranked@.subrange(0, i + 1) =~= ranked@.subrange(0, i as int).push(k));
            assert(ranked@.subrange(0, i + 1).map_values(|k: usize| docs@[k as int].content@)
                =~= ranked@.subrange(0, i as int).map_values(|k: usize| docs@[k as int].content@).push(
                docs@[k as int].content@,
            ));
        }
        i = i + 1;
    }
    let out = join_strings(&parts, "\n\n");
    proof {
        if ranked@.len() <= 5 {
            assert(ranked@.subrange(0, n as int) =~= ranked@);
        }
        assert(skills_text(docs@, ranked@) == Some(out@));
    }
    Some(out)
}

} // verus!
