//! Sources of the system prompt, and the text processing they share.
//!
//! Each provider names one data source; reading the source is done by the
//! caller, and the helpers here turn what was read into prompt text.
use vstd::prelude::*;
use vstd::utf8::*;
use vstd::string::StringSliceAdditionalSpecFns;

use crate::json::{json_parse_error, json_pretty_at, json_value, parse_json_text, pretty_at, JsonValue};
use crate::text::{chars_of, concat2, push_char, starts_with, str_eq, string_of, trim, trim_chars};

verus! {

/// Paths of the memory-layer sources.
#[derive(Debug, Clone)]
pub struct MemoryPaths {
    pub memory_md: String,
    pub user_md: String,
    pub preferences: String,
    pub feedback: String,
    pub project_context: String,
    pub authority_map: String,
}

impl MemoryPaths {
    /// All paths rooted under `home/.daedalus/`.
    pub fn with_home(home: &str) -> (r: Self)
        ensures
            r.memory_md@ == home@ + "/.daedalus/MEMORY.md"@,
            r.user_md@ == home@ + "/.daedalus/USER.md"@,
            r.preferences@ == home@ + "/.daedalus/config/user-preferences.json"@,
            r.feedback@ == home@ + "/.daedalus/config/feedback-memory.json"@,
            r.project_context@ == home@ + "/.daedalus/config/project-context.json"@,
            r.authority_map@ == home@ + "/.daedalus/config/authority-map"@,
    {
        MemoryPaths {
            memory_md: concat2(home, "/.daedalus/MEMORY.md"),
            user_md: concat2(home, "/.daedalus/USER.md"),
            preferences: concat2(home, "/.daedalus/config/user-preferences.json"),
            feedback: concat2(home, "/.daedalus/config/feedback-memory.json"),
            project_context: concat2(home, "/.daedalus/config/project-context.json"),
            authority_map: concat2(home, "/.daedalus/config/authority-map"),
        }
    }
}

/// Identity SOUL document (required).
#[derive(Debug, Clone)]
pub struct SoulProvider {
    pub path: String,
}

/// Project-level instructions from DAEDALUS.md (optional).
#[derive(Debug, Clone)]
pub struct DaedalusMdProvider {
    pub path: String,
}

/// The agent's entry in managed-agents.yaml.
#[derive(Debug, Clone)]
pub struct AgentConfigProvider {
    pub path: String,
}

/// What the interrogated character knows at the current confession stage.
#[derive(Debug, Clone)]
pub struct CharacterKnowledgeProvider {
    pub narrative_root: String,
}

/// MEMORY.md (optional).
#[derive(Debug, Clone)]
pub struct MemoryProvider {
    pub path: String,
}

/// USER.md (optional).
#[derive(Debug, Clone)]
pub struct UserProvider {
    pub path: String,
}

/// User preferences JSON (optional).
#[derive(Debug, Clone)]
pub struct PreferencesProvider {
    pub path: String,
}

/// Recent feedback JSON (optional).
#[derive(Debug, Clone)]
pub struct FeedbackProvider {
    pub path: String,
}

/// Project context JSON (optional).
#[derive(Debug, Clone)]
pub struct ProjectContextProvider {
    pub path: String,
}

/// Authority map YAML (optional).
#[derive(Debug, Clone)]
pub struct AuthorityMapProvider {
    pub path: String,
}

/// Recent runs of the agent from the run registry.
#[derive(Debug, Clone)]
pub struct AgentHistoryProvider {
    pub db_path: String,
    pub limit: usize,
}

/// Skill documents whose description overlaps the task.
#[derive(Debug, Clone)]
pub struct SkillsProvider {
    pub dir: String,
}

impl SoulProvider {
    pub fn new(path: &str) -> (r: Self)
        ensures
            r.path@ == path@,
    {
        SoulProvider { path: String::from_str(path) }
    }

    pub fn label(&self) -> (r: &'static str)
        ensures
            r@ == "soul"@,
    {
        "soul"
    }
}

impl DaedalusMdProvider {
    pub fn new(path: &str) -> (r: Self)
        ensures
            r.path@ == path@,
    {
        DaedalusMdProvider { path: String::from_str(path) }
    }

    pub fn label(&self) -> (r: &'static str)
        ensures
            r@ == "daedalus"@,
    {
        "daedalus"
    }
}

impl AgentConfigProvider {
    pub fn new(path: &str) -> (r: Self)
        ensures
            r.path@ == path@,
    {
        AgentConfigProvider { path: String::from_str(path) }
    }

    pub fn label(&self) -> (r: &'static str)
        ensures
            r@ == "agent"@,
    {
        "agent"
    }
}

impl CharacterKnowledgeProvider {
    pub fn new(narrative_root: &str) -> (r: Self)
        ensures
            r.narrative_root@ == narrative_root@,
    {
        CharacterKnowledgeProvider { narrative_root: String::from_str(narrative_root) }
    }

    pub fn label(&self) -> (r: &'static str)
        ensures
            r@ == "character_knowledge"@,
    {
        "character_knowledge"
    }
}

impl MemoryProvider {
    pub fn new(path: &str) -> (r: Self)
        ensures
            r.path@ == path@,
    {
        MemoryProvider { path: String::from_str(path) }
    }

    pub fn label(&self) -> (r: &'static str)
        ensures
            r@ == "memory"@,
    {
        "memory"
    }
}

impl UserProvider {
    pub fn new(path: &str) -> (r: Self)
        ensures
            r.path@ == path@,
    {
        UserProvider { path: String::from_str(path) }
    }

    pub fn label(&self) -> (r: &'static str)
        ensures
            r@ == "user"@,
    {
        "user"
    }
}

impl PreferencesProvider {
    pub fn new(path: &str) -> (r: Self)
        ensures
            r.path@ == path@,
    {
        PreferencesProvider { path: String::from_str(path) }
    }

    pub fn label(&self) -> (r: &'static str)
        ensures
            r@ == "prefs"@,
    {
        "prefs"
    }
}

impl FeedbackProvider {
    pub fn new(path: &str) -> (r: Self)
        ensures
            r.path@ == path@,
    {
        FeedbackProvider { path: String::from_str(path) }
    }

    pub fn label(&self) -> (r: &'static str)
        ensures
            r@ == "feedback"@,
    {
        "feedback"
    }
}

impl ProjectContextProvider {
    pub fn new(path: &str) -> (r: Self)
        ensures
            r.path@ == path@,
    {
        ProjectContextProvider { path: String::from_str(path) }
    }

    pub fn label(&self) -> (r: &'static str)
        ensures
            r@ == "project"@,
    {
        "project"
    }
}

impl AuthorityMapProvider {
    pub fn new(path: &str) -> (r: Self)
        ensures
            r.path@ == path@,
    {
        AuthorityMapProvider { path: String::from_str(path) }
    }

    pub fn label(&self) -> (r: &'static str)
        ensures
            r@ == "authority"@,
    {
        "authority"
    }
}

impl AgentHistoryProvider {
    pub fn new(db_path: &str, limit: usize) -> (r: Self)
        ensures
            r.db_path@ == db_path@,
            r.limit == limit,
    {
        AgentHistoryProvider { db_path: String::from_str(db_path), limit }
    }

    pub fn label(&self) -> (r: &'static str)
        ensures
            r@ == "history"@,
    {
        "history"
    }
}

impl SkillsProvider {
    pub fn new(dir: &str) -> (r: Self)
        ensures
            r.dir@ == dir@,
    {
        SkillsProvider { dir: String::from_str(dir) }
    }

    pub fn label(&self) -> (r: &'static str)
        ensures
            r@ == "skills"@,
    {
        "skills"
    }
}

/// Content read from an optional source: `None` when it is blank.
pub fn nonblank(content: String) -> (r: Option<String>)
    ensures
        trim(content@).len() == 0 ==> r is None,
        trim(content@).len() > 0 ==> r == Some(content),
{
    let t = trim_chars(chars_of(content.as_str()).as_slice());
    if t.len() == 0 {
        None
    } else {
        Some(content)
    }
}

// ── tokenization ─────────────────────────────────────────────────────

/// Whether `char::is_alphanumeric` holds (Unicode Alphabetic or Numeric).
pub uninterp spec fn alnum(c: char) -> bool;

/// `char::is_alphanumeric`.
#[verifier::external_body]
pub fn is_alnum(c: char) -> (r: bool)
    ensures
        r == alnum(c),
{
    c.is_alphanumeric()
}

/// The pieces of `s` between separator characters, as `str::split` with
/// the separator predicate `!alnum` yields them (empty pieces included).
pub open spec fn pieces(s: Seq<char>) -> Seq<Seq<char>>
    decreases s.len(),
{
    if s.len() == 0 {
        seq![seq![]]
    } else {
        let p = pieces(s.drop_last());
        if !alnum(s.last()) {
            p.push(seq![])
        } else {
            p.update(p.len() - 1, p.last().push(s.last()))
        }
    }
}

pub proof fn lemma_pieces_nonempty(s: Seq<char>)
    ensures
        pieces(s).len() >= 1,
    decreases s.len(),
{
    if s.len() > 0 {
        lemma_pieces_nonempty(s.drop_last());
    }
}

/// English stopwords ignored when matching skills.
pub open spec fn is_stopword(t: Seq<char>) -> bool {
    ||| t == "the"@ ||| t == "a"@ ||| t == "an"@ ||| t == "is"@ ||| t == "are"@ ||| t == "was"@ ||| t == "were"@ ||| t == "be"@ ||| t == "been"@ ||| t == "being"@ ||| t == "have"@ ||| t == "has"@ ||| t == "had"@ ||| t == "do"@ ||| t == "does"@ ||| t == "did"@ ||| t == "will"@ ||| t == "would"@ ||| t == "shall"@ ||| t == "should"@ ||| t == "may"@ ||| t == "might"@ ||| t == "must"@ ||| t == "can"@ ||| t == "could"@ ||| t == "and"@ ||| t == "or"@ ||| t == "not"@ ||| t == "but"@ ||| t == "if"@ ||| t == "then"@ ||| t == "else"@ ||| t == "when"@ ||| t == "this"@ ||| t == "that"@ ||| t == "these"@ ||| t == "those"@ ||| t == "it"@ ||| t == "its"@ ||| t == "to"@ ||| t == "of"@ ||| t == "in"@ ||| t == "for"@ ||| t == "on"@ ||| t == "with"@ ||| t == "at"@ ||| t == "from"@ ||| t == "by"@ ||| t == "about"@ ||| t == "into"@ ||| t == "through"@ ||| t == "during"@
}

/// Whether a token is kept: at least three bytes long and not a stopword.
pub open spec fn keep_token(t: Seq<char>) -> bool {
    encode_utf8(t).len() >= 3 && !is_stopword(t)
}

/// The kept pieces, in order.
pub open spec fn kept(ps: Seq<Seq<char>>) -> Seq<Seq<char>>
    decreases ps.len(),
{
    if ps.len() == 0 {
        seq![]
    } else if keep_token(ps.last()) {
        kept(ps.drop_last()).push(ps.last())
    } else {
        kept(ps.drop_last())
    }
}

fn stopword(t: &str) -> (r: bool)
    ensures
        r == is_stopword(t@),
{
    str_eq(t, "the") || str_eq(t, "a") || str_eq(t, "an") || str_eq(t, "is") || str_eq(t, "are") || str_eq(t, "was") || str_eq(t, "were") || str_eq(t, "be") || str_eq(t, "been") || str_eq(t, "being") || str_eq(t, "have") || str_eq(t, "has") || str_eq(t, "had") || str_eq(t, "do") || str_eq(t, "does") || str_eq(t, "did") || str_eq(t, "will") || str_eq(t, "would") || str_eq(t, "shall") || str_eq(t, "should") || str_eq(t, "may") || str_eq(t, "might") || str_eq(t, "must") || str_eq(t, "can") || str_eq(t, "could") || str_eq(t, "and") || str_eq(t, "or") || str_eq(t, "not") || str_eq(t, "but") || str_eq(t, "if") || str_eq(t, "then") || str_eq(t, "else") || str_eq(t, "when") || str_eq(t, "this") || str_eq(t, "that") || str_eq(t, "these") || str_eq(t, "those") || str_eq(t, "it") || str_eq(t, "its") || str_eq(t, "to") || str_eq(t, "of") || str_eq(t, "in") || str_eq(t, "for") || str_eq(t, "on") || str_eq(t, "with") || str_eq(t, "at") || str_eq(t, "from") || str_eq(t, "by") || str_eq(t, "about") || str_eq(t, "into") || str_eq(t, "through") || str_eq(t, "during")
}

/// Splits the lower-cased text on non-alphanumeric characters and keeps
/// the tokens of at least three bytes that are not stopwords.
pub fn tokenize(text: &str) -> (r: Vec<String>)
    ensures
        r@.map_values(|t: String| t@) == kept(pieces(crate::text::lowercase(text@))),
{
    let lower = crate::text::to_lowercase(text);
    let chars = chars_of(lower.as_str());
    let ghost l = chars@;
    let mut out: Vec<String> = Vec::new();
    let mut cur: Vec<char> = Vec::new();
    let mut i: usize = 0;
    while i < chars.len()
        invariant
            i <= chars@.len(),
            l == chars@,
            pieces(l.subrange(0, i as int)).len() >= 1,
            cur@ == pieces(l.subrange(0, i as int)).last(),
            out@.map_values(|t: String| t@) == kept(pieces(l.subrange(0, i as int)).drop_last()),
        decreases chars@.len() - i,
    {
        let c = chars[i];
        let ghost pre = l.subrange(0, i as int);
        let ghost post = l.subrange(0, i + 1);
        proof {
            assert(post.drop_last() =~= pre);
            assert(post.last() == c);
            lemma_pieces_nonempty(pre);
        }
        if is_alnum(c) {
            cur.push(c);
            proof {
                let p = pieces(pre);
                assert(pieces(post) == p.update(p.len() - 1, p.last().push(c)));
                assert(pieces(post).drop_last() =~= p.drop_last());
            }
        } else {
            let tok = string_of(cur.as_slice());
            let keep = tok.as_str().as_bytes().len() >= 3 && !stopword(tok.as_str());
            let ghost before = out@;
            if keep {
                out.push(tok);
            }
            cur = Vec::new();
            proof {
                let p = pieces(pre);
                assert(pieces(post) == p.push(seq![]));
                assert(pieces(post).drop_last() =~= p);
                assert(p.drop_last().push(p.last()) =~= p);
                assert(out@.map_values(|t: String| t@) =~= kept(p));
            }
        }
        i = i + 1;
    }
    let tok = string_of(cur.as_slice());
    let keep = tok.as_str().as_bytes().len() >= 3 && !stopword(tok.as_str());
    if keep {
        out.push(tok);
    }
    proof {
        assert(l.subrange(0, l.len() as int) =~= l);
        let p = pieces(l);
        assert(p.drop_last().push(p.last()) =~= p);
        assert(out@.map_values(|t: String| t@) =~= kept(p));
    }
    out
}

// ── front matter ─────────────────────────────────────────────────────

/// The pieces of `s` between `\n` characters.
pub open spec fn nl_pieces(s: Seq<char>) -> Seq<Seq<char>>
    decreases s.len(),
{
    if s.len() == 0 {
        seq![seq![]]
    } else {
        let p = nl_pieces(s.drop_last());
        if s.last() == '\n' {
            p.push(seq![])
        } else {
            p.update(p.len() - 1, p.last().push(s.last()))
        }
    }
}

pub proof fn lemma_nl_pieces_nonempty(s: Seq<char>)
    ensures
        nl_pieces(s).len() >= 1,
    decreases s.len(),
{
    if s.len() > 0 {
        lemma_nl_pieces_nonempty(s.drop_last());
    }
}

/// A line without its trailing `\r`.
pub open spec fn strip_cr(l: Seq<char>) -> Seq<char> {
    if l.len() > 0 && l.last() == '\r' {
        l.drop_last()
    } else {
        l
    }
}

/// `str::lines`: the `\n`-separated lines, each without a trailing
/// `\r`, with no final empty line.
pub open spec fn str_lines(s: Seq<char>) -> Seq<Seq<char>> {
    let p = nl_pieces(s);
    let q = if p.last().len() == 0 { p.drop_last() } else { p };
    q.map_values(|l: Seq<char>| strip_cr(l))
}

/// The description in the front matter of the remaining lines; `started`
/// tells whether the opening `---` fence has been seen.
pub open spec fn desc_from(lines: Seq<Seq<char>>, started: bool) -> Seq<char>
    decreases lines.len(),
{
    if lines.len() == 0 {
        seq![]
    } else {
        let t = trim(lines[0]);
        if t == "---"@ {
            if !started {
                desc_from(lines.drop_first(), true)
            } else {
                seq![]
            }
        } else if started && starts_with(t, "description:"@) {
            trim(t.subrange(12, t.len() as int))
        } else {
            desc_from(lines.drop_first(), started)
        }
    }
}

/// Splits text into `str::lines`.
pub fn lines_of(s: &[char]) -> (r: Vec<Vec<char>>)
    ensures
        r@.map_values(|l: Vec<char>| l@) == str_lines(s@),
{
    let mut out: Vec<Vec<char>> = Vec::new();
    let mut cur: Vec<char> = Vec::new();
    let mut i: usize = 0;
    while i < s.len()
        invariant
            i <= s@.len(),
            nl_pieces(s@.subrange(0, i as int)).len() >= 1,
            cur@ == nl_pieces(s@.subrange(0, i as int)).last(),
            out@.map_values(|l: Vec<char>| l@) == nl_pieces(s@.subrange(0, i as int)).drop_last(),
        decreases s@.len() - i,
    {
        let c = s[i];
        let ghost pre = s@.subrange(0, i as int);
        let ghost post = s@.subrange(0, i + 1);
        proof {
            assert(post.drop_last() =~= pre);
            lemma_nl_pieces_nonempty(pre);
        }
        if c == '\n' {
            let done = cur;
            out.push(done);
            cur = Vec::new();
            proof {
                let p = nl_pieces(pre);
                assert(nl_pieces(post) == p.push(seq![]));
                assert(p.drop_last().push(p.last()) =~= p);
                assert(out@.map_values(|l: Vec<char>| l@) =~= p);
            }
        } else {
            cur.push(c);
            proof {
                let p = nl_pieces(pre);
                assert(nl_pieces(post) == p.update(p.len() - 1, p.last().push(c)));
                assert(nl_pieces(post).drop_last() =~= p.drop_last());
            }
        }
        i = i + 1;
    }
    proof {
        assert(s@.subrange(0, s@.len() as int) =~= s@);
    }
    let ghost p = nl_pieces(s@);
    if cur.len() > 0 {
        out.push(cur);
        proof {
            assert(p.drop_last().push(p.last()) =~= p);
        }
    }
    let ghost q = out@.map_values(|l: Vec<char>| l@);
    assert(q == (if p.last().len() == 0 { p.drop_last() } else { p }));
    let mut res: Vec<Vec<char>> = Vec::new();
    let mut k: usize = 0;
    while k < out.len()
        invariant
            k <= out@.len(),
            q == out@.map_values(|l: Vec<char>| l@),
            res@.map_values(|l: Vec<char>| l@) == q.subrange(0, k as int).map_values(
                |l: Seq<char>| strip_cr(l),
            ),
        decreases out@.len() - k,
    {
        let l = &out[k];
        let n = l.len();
        let stripped = if n > 0 && l[n - 1] == '\r' {
            crate::text::slice_range(l.as_slice(), 0, n - 1)
        } else {
            crate::text::slice_range(l.as_slice(), 0, n)
        };
        proof {
            assert(l@.subrange(0, n as int) =~= l@);
            assert(stripped@ == strip_cr(q[k as int]));
        }
        let ghost old_res = res@;
        res.push(stripped);
        k = k + 1;
        proof {
            assert(res@ == old_res.push(stripped));
            assert(res@.map_values(|l: Vec<char>| l@) =~= old_res.map_values(|l: Vec<char>| l@).push(stripped@));
            assert(q.subrange(0, k as int).map_values(|l: Seq<char>| strip_cr(l)) =~= q.subrange(0, k - 1).map_values(|l: Seq<char>| strip_cr(l)).push(strip_cr(q[k - 1])));
            assert(res@.map_values(|l: Vec<char>| l@) =~= q.subrange(0, k as int).map_values(
                |l: Seq<char>| strip_cr(l),
            ));
        }
    }
    proof {
        assert(q.subrange(0, q.len() as int) =~= q);
    }
    res
}

fn is_fence(t: &[char]) -> (r: bool)
    ensures
        r == (t@ == "---"@),
{
    proof {
        reveal_strlit("---");
    }
    let r = t.len() == 3 && t[0] == '-' && t[1] == '-' && t[2] == '-';
    proof {
        if r {
            assert(t@ =~= "---"@);
        }
    }
    r
}

/// The `description` field in YAML front matter between `---` fences, or
/// the empty string when there is none.
pub fn extract_frontmatter_description(content: &str) -> (r: String)
    ensures
        r@ == desc_from(str_lines(content@), false),
{
    let chars = chars_of(content);
    let lines = lines_of(chars.as_slice());
    let ghost ls = lines@.map_values(|l: Vec<char>| l@);
    let prefix = chars_of("description:");
    proof {
        reveal_strlit("description:");
        assert(prefix@.len() == 12);
    }
    let mut started = false;
    let mut i: usize = 0;
    assert(ls.subrange(0, ls.len() as int) =~= ls);
    while i < lines.len()
        invariant
            i <= lines@.len(),
            ls == lines@.map_values(|l: Vec<char>| l@),
            ls == str_lines(content@),
            prefix@ == "description:"@,
            prefix@.len() == 12,
            desc_from(ls, false) == desc_from(ls.subrange(i as int, ls.len() as int), started),
        decreases lines@.len() - i,
    {
        let ghost rest = ls.subrange(i as int, ls.len() as int);
        proof {
            assert(rest[0] == lines@[i as int]@);
            assert(rest.drop_first() =~= ls.subrange(i + 1, ls.len() as int));
        }
        let t = trim_chars(lines[i].as_slice());
        if is_fence(t.as_slice()) {
            if !started {
                started = true;
                i = i + 1;
                continue;
            } else {
                return String::new();
            }
        }
        if started && crate::text::starts_with_chars(t.as_slice(), prefix.as_slice()) {
            let v = crate::text::slice_range(t.as_slice(), 12, t.len());
            let d = trim_chars(v.as_slice());
            return string_of(d.as_slice());
        }
        i = i + 1;
    }
    String::new()
}

} // verus!

verus! {

/// The preferences section when no `preferences` member is given: what
/// serde_json writes for `null`.
pub open spec fn null_pretty() -> Seq<char> {
    match json_pretty_at("null"@, Seq::<char>::empty()) {
        Some(s) => s,
        None => Seq::<char>::empty(),
    }
}

/// The preferences section of an object document: its `preferences`
/// member written by serde_json's pretty printer, `null` when it has none.
pub open spec fn preferences_text(text: Seq<char>) -> Seq<char> {
    match json_pretty_at(text, "/preferences"@) {
        Some(s) => s,
        None => null_pretty(),
    }
}

/// Turns the text of a preferences file into its prompt section: the
/// `preferences` member of the top-level object, pretty-printed (`null`
/// when absent).  Text that is not JSON gives serde_json's error; a
/// document that is not an object is refused.
pub fn preferences_section(text: &str) -> (r: Result<String, String>)
    ensures
        match json_parse_error(text@) {
            Some(e) => r matches Err(m) && m@ == e,
            None => exists|v: JsonValue| #[trigger]
                json_value(text@, v) && if v is Object {
                    r matches Ok(s) && s@ == preferences_text(text@)
                } else {
                    r matches Err(m) && m@ == "invalid type: expected a JSON object"@
                },
        },
{
    proof {
        reveal_strlit("");
        assert(""@ =~= Seq::<char>::empty());
    }
    let v = match parse_json_text(text) {
        Ok(v) => v,
        Err(e) => {
            return Err(e);
        },
    };
    let ghost g = v;
    assert(json_value(text@, g));
    if !v.is_object() {
        return Err(String::from_str("invalid type: expected a JSON object"));
    }
    match pretty_at(text, "/preferences") {
        Some(s) => Ok(s),
        None => match pretty_at("null", "") {
            Some(s) => Ok(s),
            None => Ok(String::new()),
        },
    }
}

} // verus!
