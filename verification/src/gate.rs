//! Gate routing: post-task error classification and action selection.
//!
//! A failed task is classified into [`SemanticTag`]s, then an ordered list
//! of [`GateCriteria`] is searched first-match to decide whether to retry,
//! switch agent, or stop.
use vstd::prelude::*;

use crate::error::{agent_code, AgentError, DaedalusError, ErrorCode};
use crate::text::{concat2, concat3, contains, contains_str, decimal, dec, lowercase, str_eq,
    to_lowercase};

verus! {

/// Decision taken for a failed task.
#[derive(Debug, Eq)]
pub enum GateAction {
    /// Retry with the same agent.
    AutoRevision,
    /// Try a different agent.
    SwitchAgent { agent_id: String },
    /// Fatal: report the error and stop.
    HardStop,
}

/// Equality of actions: same variant, and the same agent id for `SwitchAgent`.
pub open spec fn action_eq(a: GateAction, b: GateAction) -> bool {
    match (a, b) {
        (GateAction::AutoRevision, GateAction::AutoRevision) => true,
        (GateAction::HardStop, GateAction::HardStop) => true,
        (GateAction::SwitchAgent { agent_id: x }, GateAction::SwitchAgent { agent_id: y }) => x@
            == y@,
        _ => false,
    }
}

impl PartialEq for GateAction {
    fn eq(&self, other: &Self) -> (r: bool) {
        match (self, other) {
            (GateAction::AutoRevision, GateAction::AutoRevision) => true,
            (GateAction::HardStop, GateAction::HardStop) => true,
            (GateAction::SwitchAgent { agent_id: x }, GateAction::SwitchAgent { agent_id: y }) => str_eq(
                x.as_str(),
                y.as_str(),
            ),
            _ => false,
        }
    }
}

impl vstd::std_specs::cmp::PartialEqSpecImpl for GateAction {
    open spec fn obeys_eq_spec() -> bool {
        true
    }

    open spec fn eq_spec(&self, other: &Self) -> bool {
        action_eq(*self, *other)
    }
}

impl Clone for GateAction {
    fn clone(&self) -> (r: Self)
        ensures
            r == *self,
    {
        match self {
            GateAction::AutoRevision => GateAction::AutoRevision,
            GateAction::SwitchAgent { agent_id } => GateAction::SwitchAgent {
                agent_id: agent_id.clone(),
            },
            GateAction::HardStop => GateAction::HardStop,
        }
    }
}

/// Semantic classification tags; an error may carry several.
#[derive(Debug, Clone, Copy, PartialEq, Eq, Hash, Structural)]
pub enum SemanticTag {
    Permanent,
    Transient,
    NeedsHuman,
    PermissionDenied,
    ConfigurationError,
    ResourceExhausted,
}

/// Tags derived from an error code and the lower-cased detail text.
pub open spec fn tags_for(code: ErrorCode, d: Seq<char>) -> Seq<SemanticTag> {
    match code {
        ErrorCode::Cancelled => seq![SemanticTag::Permanent],
        ErrorCode::TaskTimeout => seq![SemanticTag::Transient, SemanticTag::ResourceExhausted],
        ErrorCode::ToolFailure => if contains(d, "permission denied"@) || contains(d, "denied"@)
            || contains(d, "not allowed"@) {
            seq![SemanticTag::Permanent, SemanticTag::PermissionDenied]
        } else if contains(d, "not found"@) || contains(d, "missing"@) || contains(
            d,
            "temporarily unavailable"@,
        ) {
            seq![SemanticTag::Transient]
        } else {
            seq![SemanticTag::Permanent]
        },
        ErrorCode::MaxIterations => seq![SemanticTag::Transient],
        ErrorCode::ProviderExhausted => if contains(d, "dns"@) || contains(
            d,
            "connection refused"@,
        ) || contains(d, "tls"@) || contains(d, "timeout"@) || contains(d, "timed out"@)
            || contains(d, "network"@) {
            seq![SemanticTag::Transient]
        } else {
            seq![SemanticTag::Transient, SemanticTag::ResourceExhausted]
        },
        ErrorCode::ProviderFatal => seq![SemanticTag::Permanent],
        ErrorCode::ModelNotFound | ErrorCode::AuthFailure => seq![
            SemanticTag::Permanent,
            SemanticTag::ConfigurationError,
            SemanticTag::NeedsHuman,
        ],
        ErrorCode::RateLimited => seq![SemanticTag::Transient, SemanticTag::ResourceExhausted],
        ErrorCode::Unknown => if contains(d, "truncated"@) || contains(d, "incomplete"@)
            || contains(d, "eof"@) || contains(d, "timeout"@) || contains(d, "timed out"@) {
            seq![SemanticTag::Transient]
        } else {
            seq![SemanticTag::Permanent]
        },
    }
}

/// Classifies an agent error into semantic tags.  Matching on the detail
/// text is a case-insensitive substring test.
pub fn classify_semantic_tags(error: &AgentError) -> (r: Vec<SemanticTag>)
    ensures
        r@ == tags_for(agent_code(*error), lowercase(error.detail@)),
{
    let ec = error.error_code();
    let lower = to_lowercase(error.detail.as_str());
    tags_of_lowered(ec, lower.as_str())
}

/// The tags for an error code and a detail text that is already lower
/// case: the substring tests of [`classify_semantic_tags`].
pub fn tags_of_lowered(ec: ErrorCode, d: &str) -> (r: Vec<SemanticTag>)
    ensures
        r@ == tags_for(ec, d@),
{
    match ec {
        ErrorCode::Cancelled => vec![SemanticTag::Permanent],
        ErrorCode::TaskTimeout => vec![SemanticTag::Transient, SemanticTag::ResourceExhausted],
        ErrorCode::ToolFailure => {
            if contains_str(d, "permission denied") || contains_str(d, "denied") || contains_str(
                d,
                "not allowed",
            ) {
                vec![SemanticTag::Permanent, SemanticTag::PermissionDenied]
            } else if contains_str(d, "not found") || contains_str(d, "missing") || contains_str(
                d,
                "temporarily unavailable",
            ) {
                vec![SemanticTag::Transient]
            } else {
                vec![SemanticTag::Permanent]
            }
        },
        ErrorCode::MaxIterations => vec![SemanticTag::Transient],
        ErrorCode::ProviderExhausted => {
            if contains_str(d, "dns") || contains_str(d, "connection refused") || contains_str(
                d,
                "tls",
            ) || contains_str(d, "timeout") || contains_str(d, "timed out") || contains_str(
                d,
                "network",
            ) {
                vec![SemanticTag::Transient]
            } else {
                vec![SemanticTag::Transient, SemanticTag::ResourceExhausted]
            }
        },
        ErrorCode::ProviderFatal => vec![SemanticTag::Permanent],
        ErrorCode::ModelNotFound => vec![
            SemanticTag::Permanent,
            SemanticTag::ConfigurationError,
            SemanticTag::NeedsHuman,
        ],
        ErrorCode::AuthFailure => vec![
            SemanticTag::Permanent,
            SemanticTag::ConfigurationError,
            SemanticTag::NeedsHuman,
        ],
        ErrorCode::RateLimited => vec![SemanticTag::Transient, SemanticTag::ResourceExhausted],
        ErrorCode::Unknown => {
            if contains_str(d, "truncated") || contains_str(d, "incomplete") || contains_str(
                d,
                "eof",
            ) || contains_str(d, "timeout") || contains_str(d, "timed out") {
                vec![SemanticTag::Transient]
            } else {
                vec![SemanticTag::Permanent]
            }
        },
    }
}

/// Classification never comes back empty, and carries exactly one of
/// `Permanent` and `Transient`, at the front.
pub proof fn lemma_tags_nonempty_and_decisive(code: ErrorCode, d: Seq<char>)
    ensures
        tags_for(code, d).len() > 0,
        tags_for(code, d)[0] == SemanticTag::Permanent || tags_for(code, d)[0]
            == SemanticTag::Transient,
        tags_for(code, d).contains(SemanticTag::Permanent) != tags_for(code, d).contains(
            SemanticTag::Transient,
        ),
{
    let t = tags_for(code, d);
    if t[0] == SemanticTag::Permanent {
        assert(t.contains(SemanticTag::Permanent));
        assert(!t.contains(SemanticTag::Transient));
    } else {
        assert(t.contains(SemanticTag::Transient));
        assert(!t.contains(SemanticTag::Permanent));
    }
}

/// Runtime context for a gate decision.
#[derive(Debug, Clone)]
pub struct GateContext {
    pub error_code: ErrorCode,
    pub agent_id: String,
    pub task_id: String,
    /// Number of earlier retries.
    pub retry_count: u32,
    pub semantic_tags: Vec<SemanticTag>,
}

/// One routing rule.
#[derive(Debug)]
pub struct GateCriteria {
    pub error_code: ErrorCode,
    /// When present, every listed tag must be in the context (AND).
    pub require_tags: Option<Vec<SemanticTag>>,
    pub action: GateAction,
    /// When present, the rule is skipped once `retry_count >= max_retries`.
    pub max_retries: Option<u32>,
    pub reason: String,
}

/// Whether `rule` applies to `ctx`.
pub open spec fn rule_matches(rule: GateCriteria, ctx: GateContext) -> bool {
    &&& rule.error_code == ctx.error_code
    &&& match rule.require_tags {
        Some(req) => forall|i: int| 0 <= i < req@.len() ==> ctx.semantic_tags@.contains(
            #[trigger] req@[i],
        ),
        None => true,
    }
    &&& match rule.max_retries {
        Some(m) => ctx.retry_count < m,
        None => true,
    }
}

/// First-match resolution over an ordered rule list; `HardStop` when no
/// rule applies.
pub open spec fn first_match(rules: Seq<GateCriteria>, ctx: GateContext) -> GateAction
    decreases rules.len(),
{
    if rules.len() == 0 {
        GateAction::HardStop
    } else if rule_matches(rules[0], ctx) {
        rules[0].action
    } else {
        first_match(rules.drop_first(), ctx)
    }
}

/// Ordered list of routing rules, resolved first-match.
#[derive(Debug)]
pub struct CriteriaRegistry {
    pub rules: Vec<GateCriteria>,
}

/// The error codes in the order the built-in rules list them.
pub open spec fn all_codes() -> Seq<ErrorCode> {
    seq![
        ErrorCode::Cancelled,
        ErrorCode::TaskTimeout,
        ErrorCode::ToolFailure,
        ErrorCode::MaxIterations,
        ErrorCode::ProviderExhausted,
        ErrorCode::ProviderFatal,
        ErrorCode::ModelNotFound,
        ErrorCode::AuthFailure,
        ErrorCode::RateLimited,
        ErrorCode::Unknown,
    ]
}

/// The reason text of the built-in rule for a code.
pub open spec fn default_reason(c: ErrorCode) -> Seq<char> {
    match c {
        ErrorCode::Cancelled => "user initiated cancellation"@,
        ErrorCode::TaskTimeout => "task timeout — no retry configured"@,
        ErrorCode::ToolFailure => "tool execution failure"@,
        ErrorCode::MaxIterations => "agent exceeded max LLM round-trips"@,
        ErrorCode::ProviderExhausted => "all providers exhausted"@,
        ErrorCode::ProviderFatal => "non-fallbackable provider error"@,
        ErrorCode::ModelNotFound => "model not found in configuration"@,
        ErrorCode::AuthFailure => "API authentication failure"@,
        ErrorCode::RateLimited => "rate limited — no backoff configured"@,
        ErrorCode::Unknown => "unclassified error"@,
    }
}

/// The built-in rule for a code: hard stop, no tags, no retry limit.
pub open spec fn is_default_rule(rule: GateCriteria, c: ErrorCode) -> bool {
    &&& rule.error_code == c
    &&& rule.require_tags is None
    &&& rule.action == GateAction::HardStop
    &&& rule.max_retries is None
    &&& rule.reason@ == default_reason(c)
}

fn default_rule(code: ErrorCode) -> (r: GateCriteria)
    ensures
        is_default_rule(r, code),
{
    let reason = match code {
        ErrorCode::Cancelled => "user initiated cancellation",
        ErrorCode::TaskTimeout => "task timeout — no retry configured",
        ErrorCode::ToolFailure => "tool execution failure",
        ErrorCode::MaxIterations => "agent exceeded max LLM round-trips",
        ErrorCode::ProviderExhausted => "all providers exhausted",
        ErrorCode::ProviderFatal => "non-fallbackable provider error",
        ErrorCode::ModelNotFound => "model not found in configuration",
        ErrorCode::AuthFailure => "API authentication failure",
        ErrorCode::RateLimited => "rate limited — no backoff configured",
        ErrorCode::Unknown => "unclassified error",
    };
    GateCriteria {
        error_code: code,
        require_tags: None,
        action: GateAction::HardStop,
        max_retries: None,
        reason: String::from_str(reason),
    }
}

fn tags_contain(tags: &Vec<SemanticTag>, t: SemanticTag) -> (r: bool)
    ensures
        r == tags@.contains(t),
{
    let mut i: usize = 0;
    while i < tags.len()
        invariant
            i <= tags@.len(),
            forall|j: int| 0 <= j < i ==> tags@[j] != t,
        decreases tags@.len() - i,
    {
        if tags[i] == t {
            assert(tags@[i as int] == t);
            return true;
        }
        i = i + 1;
    }
    false
}

fn tags_all_present(req: &Vec<SemanticTag>, tags: &Vec<SemanticTag>) -> (r: bool)
    ensures
        r == forall|i: int| 0 <= i < req@.len() ==> tags@.contains(#[trigger] req@[i]),
{
    let mut i: usize = 0;
    while i < req.len()
        invariant
            i <= req@.len(),
            forall|j: int| 0 <= j < i ==> tags@.contains(#[trigger] req@[j]),
        decreases req@.len() - i,
    {
        if !tags_contain(tags, req[i]) {
            return false;
        }
        i = i + 1;
    }
    true
}

fn rule_applies(rule: &GateCriteria, ctx: &GateContext) -> (r: bool)
    ensures
        r == rule_matches(*rule, *ctx),
{
    if rule.error_code != ctx.error_code {
        return false;
    }
    match &rule.require_tags {
        Some(required) => {
            if !tags_all_present(required, &ctx.semantic_tags) {
                return false;
            }
        },
        None => {},
    }
    match rule.max_retries {
        Some(max) => ctx.retry_count < max,
        None => true,
    }
}

proof fn lemma_first_match_skip(rules: Seq<GateCriteria>, ctx: GateContext, i: int)
    requires
        0 <= i <= rules.len(),
        forall|j: int| 0 <= j < i ==> !rule_matches(#[trigger] rules[j], ctx),
    ensures
        first_match(rules, ctx) == first_match(rules.subrange(i, rules.len() as int), ctx),
    decreases i,
{
    if i > 0 {
        let t = rules.drop_first();
        assert forall|j: int| 0 <= j < i - 1 implies !rule_matches(#[trigger] t[j], ctx) by {
            assert(t[j] == rules[j + 1]);
        }
        lemma_first_match_skip(t, ctx, i - 1);
        assert(t.subrange(i - 1, t.len() as int) =~= rules.subrange(i, rules.len() as int));
    } else {
        assert(rules.subrange(0, rules.len() as int) =~= rules);
    }
}

impl CriteriaRegistry {
    /// Built-in defaults: one hard-stop rule per error code, in the order
    /// of [`all_codes`].
    pub fn defaults() -> (r: Self)
        ensures
            r.rules@.len() == 10,
            forall|i: int| 0 <= i < 10 ==> is_default_rule(#[trigger] r.rules@[i], all_codes()[i]),
    {
        let mut rules: Vec<GateCriteria> = Vec::new();
        rules.push(default_rule(ErrorCode::Cancelled));
        rules.push(default_rule(ErrorCode::TaskTimeout));
        rules.push(default_rule(ErrorCode::ToolFailure));
        rules.push(default_rule(ErrorCode::MaxIterations));
        rules.push(default_rule(ErrorCode::ProviderExhausted));
        rules.push(default_rule(ErrorCode::ProviderFatal));
        rules.push(default_rule(ErrorCode::ModelNotFound));
        rules.push(default_rule(ErrorCode::AuthFailure));
        rules.push(default_rule(ErrorCode::RateLimited));
        rules.push(default_rule(ErrorCode::Unknown));
        CriteriaRegistry { rules }
    }

    /// First-match resolution: the action of the first rule whose code
    /// matches, whose required tags are all present, and whose retry limit
    /// is not yet reached; `HardStop` when none applies.
    pub fn resolve(&self, ctx: &GateContext) -> (r: GateAction)
        ensures
            r == first_match(self.rules@, *ctx),
    {
        let mut i: usize = 0;
        while i < self.rules.len()
            invariant
                i <= self.rules@.len(),
                forall|j: int| 0 <= j < i ==> !rule_matches(#[trigger] self.rules@[j], *ctx),
            decreases self.rules@.len() - i,
        {
            if rule_applies(&self.rules[i], ctx) {
                proof {
                    lemma_first_match_skip(self.rules@, *ctx, i as int);
                }
                return self.rules[i].action.clone();
            }
            i = i + 1;
        }
        proof {
            lemma_first_match_skip(self.rules@, *ctx, i as int);
        }
        GateAction::HardStop
    }

    /// Places `overrides` before the current rules, so they match first.
    pub fn prepend(&mut self, overrides: Vec<GateCriteria>)
        ensures
            final(self).rules@ == overrides@ + old(self).rules@,
    {
        let mut merged = overrides;
        merged.append(&mut self.rules);
        self.rules = merged;
    }
}

/// When every rule's action is `HardStop`, resolution is `HardStop`.
pub proof fn lemma_all_hard_stop(rules: Seq<GateCriteria>, ctx: GateContext)
    requires
        forall|i: int| 0 <= i < rules.len() ==> (#[trigger] rules[i]).action
            == GateAction::HardStop,
    ensures
        first_match(rules, ctx) == GateAction::HardStop,
    decreases rules.len(),
{
    if rules.len() > 0 {
        let t = rules.drop_first();
        assert forall|i: int| 0 <= i < t.len() implies (#[trigger] t[i]).action
            == GateAction::HardStop by {
            assert(t[i] == rules[i + 1]);
        }
        lemma_all_hard_stop(t, ctx);
    }
}

/// The built-in registry stops on every error.
pub proof fn lemma_defaults_hard_stop(reg: CriteriaRegistry, ctx: GateContext)
    requires
        reg.rules@.len() == 10,
        forall|i: int| 0 <= i < 10 ==> is_default_rule(#[trigger] reg.rules@[i], all_codes()[i]),
    ensures
        first_match(reg.rules@, ctx) == GateAction::HardStop,
{
    assert forall|i: int| 0 <= i < reg.rules@.len() implies (#[trigger] reg.rules@[i]).action
        == GateAction::HardStop by {
        assert(is_default_rule(reg.rules@[i], all_codes()[i]));
    }
    lemma_all_hard_stop(reg.rules@, ctx);
}

/// Rules placed in front decide first: if one of them applies, the
/// combined list resolves as the prefix alone does; otherwise resolution
/// falls through to the original rules.
pub proof fn lemma_prepend_resolution(front: Seq<GateCriteria>, base: Seq<GateCriteria>, ctx: GateContext)
    ensures
        (exists|i: int| 0 <= i < front.len() && rule_matches(#[trigger] front[i], ctx))
            ==> first_match(front + base, ctx) == first_match(front, ctx),
        (forall|i: int| 0 <= i < front.len() ==> !rule_matches(#[trigger] front[i], ctx))
            ==> first_match(front + base, ctx) == first_match(base, ctx),
    decreases front.len(),
{
    if front.len() > 0 {
        let t = front.drop_first();
        assert((front + base).drop_first() =~= t + base);
        assert((front + base)[0] == front[0]);
        lemma_prepend_resolution(t, base, ctx);
        if !rule_matches(front[0], ctx) {
            if exists|i: int| 0 <= i < front.len() && rule_matches(#[trigger] front[i], ctx) {
                let i = choose|i: int| 0 <= i < front.len() && rule_matches(#[trigger] front[i], ctx);
                assert(t[i - 1] == front[i]);
            }
            assert((forall|i: int| 0 <= i < front.len() ==> !rule_matches(#[trigger] front[i], ctx))
                ==> (forall|i: int| 0 <= i < t.len() ==> !rule_matches(#[trigger] t[i], ctx))) by {
                if forall|i: int| 0 <= i < front.len() ==> !rule_matches(#[trigger] front[i], ctx) {
                    assert forall|i: int| 0 <= i < t.len() implies !rule_matches(#[trigger] t[i], ctx) by {
                        assert(t[i] == front[i + 1]);
                    }
                }
            }
        }
    } else {
        assert(front + base =~= base);
    }
}

/// Top-level gate entry point: a registry plus a global retry cap.
#[derive(Debug)]
pub struct GateRouter {
    pub registry: CriteriaRegistry,
    /// When `retry_count >= max_global_retries` the router stops
    /// unconditionally, before consulting the registry.
    pub max_global_retries: u32,
}

/// The routing decision: the global cap first, then the registry.
pub open spec fn route_spec(router: GateRouter, ctx: GateContext) -> GateAction {
    if ctx.retry_count >= router.max_global_retries {
        GateAction::HardStop
    } else {
        first_match(router.registry.rules@, ctx)
    }
}

impl GateRouter {
    pub fn new(registry: CriteriaRegistry, max_global_retries: u32) -> (r: Self)
        ensures
            r.registry == registry,
            r.max_global_retries == max_global_retries,
    {
        GateRouter { registry, max_global_retries }
    }

    /// Routes with the global cap enforced.
    pub fn route(&self, ctx: &GateContext) -> (r: GateAction)
        ensures
            r == route_spec(*self, *ctx),
    {
        if ctx.retry_count >= self.max_global_retries {
            return GateAction::HardStop;
        }
        self.registry.resolve(ctx)
    }
}

/// Once the global cap is reached no rule can make the router retry.
pub proof fn lemma_global_cap(router: GateRouter, ctx: GateContext)
    requires
        ctx.retry_count >= router.max_global_retries,
    ensures
        route_spec(router, ctx) == GateAction::HardStop,
{
}

/// A gate rule whose action is an unchecked string.
#[derive(Debug)]
pub struct RawGateRule {
    pub error_code: ErrorCode,
    pub action: String,
    pub target_agent: Option<String>,
    pub max_retries: Option<u32>,
    pub require_tags: Option<Vec<SemanticTag>>,
    pub reason: String,
}

/// The `Debug` rendering of an optional string, as `{:?}` prints it.
pub uninterp spec fn option_debug(o: Option<Seq<char>>) -> Seq<char>;

/// Views of an optional string.
pub open spec fn opt_view(o: Option<String>) -> Option<Seq<char>> {
    match o {
        Some(s) => Some(s@),
        None => None,
    }
}

/// `format!("{:?}", o)` for an optional string.
#[verifier::external_body]
fn debug_option_string(o: &Option<String>) -> (r: String)
    ensures
        r@ == option_debug(opt_view(*o)),
        o is None ==> r@ == "None"@,
{
    format!("{:?}", o)
}

/// The action a raw rule converts to, or the message explaining why it is
/// rejected.
pub open spec fn raw_action(raw: RawGateRule) -> Result<GateAction, Seq<char>> {
    if raw.require_tags is Some && raw.require_tags->0@.len() == 0 {
        Err("require_tags must not be empty (use no require_tags field to match all)"@)
    } else if raw.action@ == "auto_revision"@ {
        if raw.target_agent is Some {
            Err("auto_revision does not accept target_agent (got "@ + option_debug(
                opt_view(raw.target_agent),
            ) + ")"@)
        } else {
            Ok(GateAction::AutoRevision)
        }
    } else if raw.action@ == "hard_stop"@ {
        if raw.target_agent is Some {
            Err("hard_stop does not accept target_agent (got "@ + option_debug(
                opt_view(raw.target_agent),
            ) + ")"@)
        } else {
            Ok(GateAction::HardStop)
        }
    } else if raw.action@ == "switch_agent"@ {
        match raw.target_agent {
            None => Err("switch_agent requires target_agent"@),
            Some(a) => if a@.len() == 0 {
                Err("switch_agent target_agent must not be empty"@)
            } else {
                Ok(GateAction::SwitchAgent { agent_id: a })
            },
        }
    } else {
        Err("unknown gate action: "@ + raw.action@)
    }
}

/// `rule` is the checked form of `raw` with action `a`.
pub open spec fn converted(raw: RawGateRule, rule: GateCriteria) -> bool {
    &&& raw_action(raw) is Ok
    &&& rule.action == raw_action(raw)->Ok_0
    &&& rule.error_code == raw.error_code
    &&& rule.require_tags == raw.require_tags
    &&& rule.max_retries == raw.max_retries
    &&& rule.reason == raw.reason
}

impl RawGateRule {
    /// Checks the action string and its target, producing a rule.
    pub fn into_criteria(self) -> (r: Result<GateCriteria, DaedalusError>)
        ensures
            match raw_action(self) {
                Ok(_) => r is Ok && converted(self, r->Ok_0),
                Err(m) => r matches Err(DaedalusError::Yaml(s)) && s@ == m,
            },
    {
        let RawGateRule { error_code, action, target_agent, max_retries, require_tags, reason } =
            self;
        if let Some(tags) = &require_tags {
            if tags.len() == 0 {
                return Err(
                    DaedalusError::Yaml(
                        String::from_str(
                            "require_tags must not be empty (use no require_tags field to match all)",
                        ),
                    ),
                );
            }
        }
        let a = action.as_str();
        let act = if str_eq(a, "auto_revision") {
            if target_agent.is_some() {
                let d = debug_option_string(&target_agent);
                return Err(
                    DaedalusError::Yaml(
                        concat3("auto_revision does not accept target_agent (got ", d.as_str(), ")"),
                    ),
                );
            }
            GateAction::AutoRevision
        } else if str_eq(a, "hard_stop") {
            if target_agent.is_some() {
                let d = debug_option_string(&target_agent);
                return Err(
                    DaedalusError::Yaml(
                        concat3("hard_stop does not accept target_agent (got ", d.as_str(), ")"),
                    ),
                );
            }
            GateAction::HardStop
        } else if str_eq(a, "switch_agent") {
            match target_agent {
                None => {
                    return Err(
                        DaedalusError::Yaml(String::from_str("switch_agent requires target_agent")),
                    );
                },
                Some(agent_id) => {
                    if agent_id.as_str().is_empty() {
                        return Err(
                            DaedalusError::Yaml(
                                String::from_str("switch_agent target_agent must not be empty"),
                            ),
                        );
                    }
                    GateAction::SwitchAgent { agent_id }
                },
            }
        } else {
            return Err(DaedalusError::Yaml(concat2("unknown gate action: ", a)));
        };
        Ok(GateCriteria { error_code, require_tags, action: act, max_retries, reason })
    }
}

/// The message an override file's rule `i` is rejected with.
pub open spec fn rule_error_text(path: Seq<char>, i: nat, m: Seq<char>) -> Seq<char> {
    path + ": rule "@ + dec(i) + ": YAML error: "@ + m
}

impl CriteriaRegistry {
    /// Checks the override rules read from `path` and places them before
    /// the built-in defaults.  The first rule that fails its check rejects
    /// the whole file, naming its position.
    pub fn with_override_rules(path: &str, raw: Vec<RawGateRule>) -> (r: Result<Self, DaedalusError>)
        ensures
            (forall|i: int| 0 <= i < raw@.len() ==> (#[trigger] raw_action(raw@[i])) is Ok) ==> {
                &&& r is Ok
                &&& r->Ok_0.rules@.len() == raw@.len() + 10
                &&& forall|i: int| 0 <= i < raw@.len() ==> converted(raw@[i], #[trigger] r->Ok_0.rules@[i])
                &&& forall|i: int| 0 <= i < 10 ==> is_default_rule(#[trigger] r->Ok_0.rules@[raw@.len() + i], all_codes()[i])
            },
            forall|i: int| 0 <= i < raw@.len() && (#[trigger] raw_action(raw@[i])) is Err
                && (forall|j: int| 0 <= j < i ==> (#[trigger] raw_action(raw@[j])) is Ok)
                ==> (r matches Err(DaedalusError::Yaml(s)) && s@ == rule_error_text(path@, i as nat, raw_action(raw@[i])->Err_0)),
    {
        let mut overrides: Vec<GateCriteria> = Vec::new();
        let ghost all = raw@;
        let mut rest = raw;
        let n = rest.len();
        let mut i: usize = 0;
        while i < n
            invariant
                n == all.len(),
                i <= n,
                rest@ == all.subrange(i as int, n as int),
                all == raw@,
                overrides@.len() == i,
                forall|j: int| 0 <= j < i ==> converted(all[j], #[trigger] overrides@[j]),
            decreases n - i,
        {
            let rule = rest.remove(0);
            assert(rule == all[i as int]);
            match rule.into_criteria() {
                Ok(c) => overrides.push(c),
                Err(e) => {
                    let msg = match e {
                        DaedalusError::Yaml(m) => m,
                        _ => String::new(),
                    };
                    let idx = decimal(i as u64);
                    let mut s = concat2(path, ": rule ");
                    crate::text::push_str(&mut s, idx.as_str());
                    crate::text::push_str(&mut s, ": YAML error: ");
                    crate::text::push_str(&mut s, msg.as_str());
                    proof {
                        assert(raw_action(all[i as int]) is Err);
                        assert(s@ == rule_error_text(path@, i as nat, raw_action(all[i as int])->Err_0));
                        assert forall|k: int| 0 <= k < all.len() && (#[trigger] raw_action(all[k])) is Err
                            && (forall|j: int| 0 <= j < k ==> (#[trigger] raw_action(all[j])) is Ok)
                            implies k == i by {
                            if k < i {
                                assert(converted(all[k], overrides@[k]));
                            } else if k > i {
                                assert(raw_action(all[i as int]) is Ok);
                            }
                        }
                    }
                    return Err(DaedalusError::Yaml(s));
                },
            }
            i = i + 1;
        }
        let mut reg = CriteriaRegistry::defaults();
        reg.prepend(overrides);
        proof {
            assert forall|k: int| 0 <= k < all.len() implies (#[trigger] raw_action(all[k])) is Ok by {
                assert(converted(all[k], overrides@[k]));
            }
            assert forall|k: int| 0 <= k < all.len() implies converted(all[k], #[trigger] reg.rules@[k]) by {
                assert(reg.rules@[k] == overrides@[k]);
            }
        }
        Ok(reg)
    }
}

} // verus!
