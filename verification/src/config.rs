//! Runtime configuration: model catalogue types, paths, hooks, and the
//! loopback check on the HTTP listen address.
use vstd::prelude::*;

use crate::error::DaedalusError;
use crate::text::{chars_of, concat2, push_str, str_eq, string_of, slice_range, starts_with};

verus! {

/// Per-model thinking mode override.
#[derive(Debug, Clone, Copy, PartialEq, Eq, Structural)]
pub enum ThinkingMode {
    Disabled,
}

/// Top-level structure of `models.yaml`: the providers by name (each
/// name once) and the models.
#[derive(Debug)]
pub struct ModelsConfig {
    pub providers: Vec<(String, ProviderEntry)>,
    pub models: Vec<ModelEntry>,
}

/// A provider declaration.
#[derive(Debug, Clone)]
pub struct ProviderEntry {
    /// `"anthropic"` or `"openai_compat"`.
    pub provider_type: String,
    pub api_key_env: Option<String>,
}

/// A model declaration.
#[derive(Debug, Clone)]
pub struct ModelEntry {
    pub id: String,
    pub provider: String,
    pub model_id: String,
    pub base_url: Option<String>,
    pub api_key_env: Option<String>,
    pub thinking: Option<ThinkingMode>,
}

/// Hook scripts per event.
#[derive(Debug, Clone)]
pub struct HooksConfig {
    pub task_done: Vec<String>,
    pub task_error: Vec<String>,
}

impl HooksConfig {
    /// No hooks.
    pub fn empty() -> (r: Self)
        ensures
            r.task_done@.len() == 0,
            r.task_error@.len() == 0,
    {
        HooksConfig { task_done: Vec::new(), task_error: Vec::new() }
    }
}

/// Centralised runtime configuration.
#[derive(Debug)]
pub struct DaedalusConfig {
    pub soul_path: String,
    pub managed_agents_path: String,
    pub skills_dir: String,
    pub models_yaml_path: String,
    pub db_path: Option<std::path::PathBuf>,
    pub gate_criteria_path: String,
    /// HTTP listen address; must be a loopback address.
    pub http_addr: String,
    pub daedalus_md_path: String,
    pub runs_dir: String,
    pub hooks: HooksConfig,
}

/// Position of the first `c` in `s`, or the length when there is none.
pub open spec fn first_pos(s: Seq<char>, c: char) -> nat
    decreases s.len(),
{
    if s.len() == 0 || s[0] == c {
        0
    } else {
        1 + first_pos(s.drop_first(), c)
    }
}

fn find_first(s: &[char], c: char) -> (r: usize)
    ensures
        r == first_pos(s@, c),
        r <= s@.len(),
{
    let mut i: usize = 0;
    while i < s.len() && s[i] != c
        invariant
            i <= s@.len(),
            forall|j: int| 0 <= j < i ==> #[trigger] s@[j] != c,
        decreases s@.len() - i,
    {
        i = i + 1;
    }
    proof {
        lemma_first_pos(s@, c, i as int);
    }
    i
}

proof fn lemma_first_pos(s: Seq<char>, c: char, i: int)
    requires
        0 <= i <= s.len(),
        forall|j: int| 0 <= j < i ==> #[trigger] s[j] != c,
        i == s.len() || s[i] == c,
    ensures
        first_pos(s, c) == i,
    decreases i,
{
    if i > 0 {
        let t = s.drop_first();
        assert forall|j: int| 0 <= j < i - 1 implies #[trigger] t[j] != c by {
            assert(t[j] == s[j + 1]);
        }
        if i < s.len() {
            assert(t[i - 1] == s[i]);
        }
        assert(s[0] != c);
        lemma_first_pos(t, c, i - 1);
    }
}

/// The host part of a listen address: inside the brackets of `[host]:port`
/// (`None` when the closing bracket is missing), otherwise everything
/// before the first `:`.
pub open spec fn addr_host(a: Seq<char>) -> Option<Seq<char>> {
    if a.len() > 0 && a[0] == '[' {
        if first_pos(a, ']') < a.len() {
            Some(a.subrange(1, first_pos(a, ']') as int))
        } else {
            None
        }
    } else {
        Some(a.subrange(0, first_pos(a, ':') as int))
    }
}

/// Hosts accepted as loopback.
pub open spec fn is_loopback(h: Seq<char>) -> bool {
    h == "127.0.0.1"@ || h == "::1"@ || h == "localhost"@
}

/// `~` and `~/rest` expanded against `home`; other paths unchanged.
pub open spec fn tilde_expanded(path: Seq<char>, home: Seq<char>) -> Seq<char> {
    if path == "~"@ {
        home
    } else if starts_with(path, "~/"@) {
        home + "/"@ + path.subrange(2, path.len() as int)
    } else {
        path
    }
}

/// Expands a leading `~` against the given home directory.
pub fn expand_tilde(path: &str, home: &str) -> (r: String)
    ensures
        r@ == tilde_expanded(path@, home@),
{
    if str_eq(path, "~") {
        return String::from_str(home);
    }
    let p = chars_of(path);
    let pre = chars_of("~/");
    proof {
        reveal_strlit("~/");
    }
    if crate::text::starts_with_chars(p.as_slice(), pre.as_slice()) {
        let rest = string_of(slice_range(p.as_slice(), 2, p.len()).as_slice());
        let mut r = concat2(home, "/");
        push_str(&mut r, rest.as_str());
        return r;
    }
    String::from_str(path)
}

impl DaedalusConfig {
    /// Checks that `http_addr` names a loopback host (`127.0.0.1`, `::1`
    /// or `localhost`).
    pub fn validate_http_addr(&self) -> (r: Result<(), DaedalusError>)
        ensures
            match addr_host(self.http_addr@) {
                None => r matches Err(DaedalusError::Protocol(m)) && m@
                    == "DAEDALUSD_HTTP_ADDR: malformed IPv6 address (missing ']')"@,
                Some(h) => if is_loopback(h) {
                    r is Ok
                } else if h == "0.0.0.0"@ {
                    r matches Err(DaedalusError::Protocol(m)) && m@
                        == "DAEDALUSD_HTTP_ADDR must be a loopback address, not 0.0.0.0"@
                } else {
                    r matches Err(DaedalusError::Protocol(m)) && m@
                        == "DAEDALUSD_HTTP_ADDR must be a loopback address (127.0.0.1 or ::1), got "@
                        + h
                },
            },
    {
        let a = chars_of(self.http_addr.as_str());
        let host_chars = if a.len() > 0 && a[0] == '[' {
            let end = find_first(a.as_slice(), ']');
            if end == a.len() {
                return Err(
                    DaedalusError::Protocol(
                        String::from_str("DAEDALUSD_HTTP_ADDR: malformed IPv6 address (missing ']')"),
                    ),
                );
            }
            slice_range(a.as_slice(), 1, end)
        } else {
            let end = find_first(a.as_slice(), ':');
            slice_range(a.as_slice(), 0, end)
        };
        let host = string_of(host_chars.as_slice());
        let h = host.as_str();
        if str_eq(h, "127.0.0.1") || str_eq(h, "::1") || str_eq(h, "localhost") {
            Ok(())
        } else if str_eq(h, "0.0.0.0") {
            Err(
                DaedalusError::Protocol(
                    String::from_str("DAEDALUSD_HTTP_ADDR must be a loopback address, not 0.0.0.0"),
                ),
            )
        } else {
            Err(
                DaedalusError::Protocol(
                    concat2(
                        "DAEDALUSD_HTTP_ADDR must be a loopback address (127.0.0.1 or ::1), got ",
                        h,
                    ),
                ),
            )
        }
    }
}

/// What `daemon.yaml` may set.
#[derive(Debug)]
pub struct DaemonRuntimeConfig {
    pub runs_dir: Option<String>,
    pub hooks: HooksConfig,
}

/// The overrides the environment gives (each `None` when its variable is
/// unset).  A hook list is the variable's value split into paths.
#[derive(Debug)]
pub struct EnvOverrides {
    pub soul_path: Option<String>,
    pub managed_agents_path: Option<String>,
    pub skills_dir: Option<String>,
    pub models_yaml: Option<String>,
    pub gate_criteria_path: Option<String>,
    pub http_addr: Option<String>,
    pub daedalus_md_path: Option<String>,
    pub runs_dir: Option<String>,
    pub hook_task_done: Option<Vec<String>>,
    pub hook_task_error: Option<Vec<String>>,
}

pub open spec fn or_default(o: Option<String>, d: Seq<char>) -> Seq<char> {
    match o {
        Some(s) => s@,
        None => d,
    }
}

/// Every path with a leading `~` expanded.
pub open spec fn expand_all(paths: Seq<String>, home: Seq<char>) -> Seq<Seq<char>> {
    paths.map_values(|p: String| tilde_expanded(p@, home))
}

/// The non-empty paths of a list, with a leading `~` expanded.
pub open spec fn expand_nonempty(paths: Seq<String>, home: Seq<char>) -> Seq<Seq<char>>
    decreases paths.len(),
{
    if paths.len() == 0 {
        seq![]
    } else {
        let rest = expand_nonempty(paths.drop_last(), home);
        if paths.last()@.len() == 0 {
            rest
        } else {
            rest.push(tilde_expanded(paths.last()@, home))
        }
    }
}

pub open spec fn hook_list(env: Option<Vec<String>>, daemon: Seq<String>, home: Seq<char>) -> Seq<Seq<char>> {
    match env {
        Some(v) => expand_nonempty(v@, home),
        None => expand_all(daemon, home),
    }
}

fn expand_list(paths: &Vec<String>, home: &str, skip_empty: bool) -> (r: Vec<String>)
    ensures
        r@.map_values(|s: String| s@) == if skip_empty {
            expand_nonempty(paths@, home@)
        } else {
            expand_all(paths@, home@)
        },
{
    let mut out: Vec<String> = Vec::new();
    let mut i: usize = 0;
    while i < paths.len()
        invariant
            i <= paths@.len(),
            out@.map_values(|s: String| s@) == if skip_empty {
                expand_nonempty(paths@.subrange(0, i as int), home@)
            } else {
                expand_all(paths@.subrange(0, i as int), home@)
            },
        decreases paths@.len() - i,
    {
        let ghost pre = paths@.subrange(0, i as int);
        let ghost post = paths@.subrange(0, i + 1);
        proof {
            assert(post.drop_last() =~= pre);
            assert(post.last() == paths@[i as int]);
        }
        let p = paths[i].as_str();
        let ghost before = out@;
        if !(skip_empty && p.is_empty()) {
            out.push(expand_tilde(p, home));
            assert(out@.map_values(|s: String| s@) =~= before.map_values(|s: String| s@).push(
                tilde_expanded(p@, home@),
            ));
        }
        proof {
            if !skip_empty {
                assert(expand_all(post, home@) =~= expand_all(pre, home@).push(
                    tilde_expanded(paths@[i as int]@, home@),
                ));
            }
        }
        i = i + 1;
    }
    assert(paths@.subrange(0, paths@.len() as int) =~= paths@);
    out
}

fn pick(o: Option<String>, default: String) -> (r: String)
    ensures
        r@ == or_default(o, default@),
{
    match o {
        Some(s) => s,
        None => default,
    }
}

/// The runtime configuration: each path from its environment variable,
/// else its default under `home`; the runs directory from the
/// environment, else `daemon.yaml`, else the default, with `~` expanded;
/// each hook list from the environment (empty paths dropped), else from
/// `daemon.yaml`, with `~` expanded.
pub fn config_from(home: &str, env: EnvOverrides, daemon: DaemonRuntimeConfig) -> (r: DaedalusConfig)
    ensures
        r.soul_path@ == or_default(env.soul_path, home@ + "/.daedalus/SOUL.md"@),
        r.managed_agents_path@ == or_default(
            env.managed_agents_path,
            home@ + "/.daedalus/config/managed-agents.yaml"@,
        ),
        r.skills_dir@ == or_default(env.skills_dir, home@ + "/.hermes/skills"@),
        r.models_yaml_path@ == or_default(env.models_yaml, home@ + "/.daedalus/models.yaml"@),
        r.db_path is None,
        r.gate_criteria_path@ == or_default(
            env.gate_criteria_path,
            home@ + "/.daedalus/config/gate-criteria.yaml"@,
        ),
        r.http_addr@ == or_default(env.http_addr, "127.0.0.1:9800"@),
        r.daedalus_md_path@ == or_default(env.daedalus_md_path, "DAEDALUS.md"@),
        r.runs_dir@ == tilde_expanded(
            match env.runs_dir {
                Some(s) => s@,
                None => or_default(daemon.runs_dir, home@ + "/.daedalus/runs"@),
            },
            home@,
        ),
        r.hooks.task_done@.map_values(|s: String| s@) == hook_list(
            env.hook_task_done,
            daemon.hooks.task_done@,
            home@,
        ),
        r.hooks.task_error@.map_values(|s: String| s@) == hook_list(
            env.hook_task_error,
            daemon.hooks.task_error@,
            home@,
        ),
{
    let runs_raw = match env.runs_dir {
        Some(s) => s,
        None => pick(daemon.runs_dir, concat2(home, "/.daedalus/runs")),
    };
    let task_done = match &env.hook_task_done {
        Some(v) => expand_list(v, home, true),
        None => expand_list(&daemon.hooks.task_done, home, false),
    };
    let task_error = match &env.hook_task_error {
        Some(v) => expand_list(v, home, true),
        None => expand_list(&daemon.hooks.task_error, home, false),
    };
    DaedalusConfig {
        soul_path: pick(env.soul_path, concat2(home, "/.daedalus/SOUL.md")),
        managed_agents_path: pick(
            env.managed_agents_path,
            concat2(home, "/.daedalus/config/managed-agents.yaml"),
        ),
        skills_dir: pick(env.skills_dir, concat2(home, "/.hermes/skills")),
        models_yaml_path: pick(env.models_yaml, concat2(home, "/.daedalus/models.yaml")),
        db_path: None,
        gate_criteria_path: pick(
            env.gate_criteria_path,
            concat2(home, "/.daedalus/config/gate-criteria.yaml"),
        ),
        http_addr: pick(env.http_addr, String::from_str("127.0.0.1:9800")),
        daedalus_md_path: pick(env.daedalus_md_path, String::from_str("DAEDALUS.md")),
        runs_dir: expand_tilde(runs_raw.as_str(), home),
        hooks: HooksConfig { task_done, task_error },
    }
}

} // verus!
