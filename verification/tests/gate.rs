use daedalusd::error::{AgentError, ErrorCode, ErrorKind, ProviderError};
use daedalusd::gate::{
    classify_semantic_tags, CriteriaRegistry, GateAction, GateContext, GateCriteria, GateRouter,
    SemanticTag,
};


fn ctx(code: ErrorCode, retry_count: u32) -> GateContext {
    GateContext {
        error_code: code,
        agent_id: "test-agent".into(),
        task_id: "task-1".into(),
        retry_count,
        semantic_tags: vec![],
    }
}

fn ctx_with_tags(code: ErrorCode, retry_count: u32, tags: Vec<SemanticTag>) -> GateContext {
    GateContext {
        error_code: code,
        agent_id: "test-agent".into(),
        task_id: "task-1".into(),
        retry_count,
        semantic_tags: tags,
    }
}

fn ae(reason: ErrorKind, detail: &str) -> AgentError {
    AgentError {
        reason,
        detail: detail.into(),
        provider_error: None,
    }
}

fn ae_with_provider(reason: ErrorKind, detail: &str, pe: ProviderError) -> AgentError {
    AgentError {
        reason,
        detail: detail.into(),
        provider_error: Some(pe),
    }
}

// ── SemanticTag serialize round-trip ─────────────────────────────

#[test]
fn classify_auth_failure() {
    let e = ae_with_provider(
        ErrorKind::ProviderFatal,
        "auth error (HTTP 401)",
        ProviderError::Auth {
            status: 401,
            body: "bad key".into(),
        },
    );
    let tags = classify_semantic_tags(&e);
    assert!(tags.contains(&SemanticTag::Permanent));
    assert!(tags.contains(&SemanticTag::ConfigurationError));
    assert!(tags.contains(&SemanticTag::NeedsHuman));
}

#[test]
fn classify_rate_limited() {
    let e = ae_with_provider(
        ErrorKind::ProviderExhausted,
        "rate limited (HTTP 429)",
        ProviderError::RateLimited {
            status: 429,
            body: "too many".into(),
        },
    );
    let tags = classify_semantic_tags(&e);
    assert!(tags.contains(&SemanticTag::Transient));
    assert!(tags.contains(&SemanticTag::ResourceExhausted));
}

#[test]
fn classify_tool_permission_denied() {
    let e = ae(ErrorKind::ToolFailure, "permission denied: /etc/passwd");
    let tags = classify_semantic_tags(&e);
    assert!(tags.contains(&SemanticTag::Permanent));
    assert!(tags.contains(&SemanticTag::PermissionDenied));
}

#[test]
fn classify_tool_denied() {
    let e = ae(ErrorKind::ToolFailure, "tool execution denied by user");
    let tags = classify_semantic_tags(&e);
    assert!(tags.contains(&SemanticTag::PermissionDenied));
}

#[test]
fn classify_tool_not_allowed() {
    let e = ae(
        ErrorKind::ToolFailure,
        "agent 'bot' is not allowed to use tool 'rm'",
    );
    let tags = classify_semantic_tags(&e);
    assert!(tags.contains(&SemanticTag::PermissionDenied));
}

#[test]
fn classify_tool_not_found() {
    let e = ae(ErrorKind::ToolFailure, "file not found: /tmp/x.json");
    let tags = classify_semantic_tags(&e);
    assert!(tags.contains(&SemanticTag::Transient));
    assert!(!tags.contains(&SemanticTag::Permanent));
}

#[test]
fn classify_tool_missing() {
    let e = ae(ErrorKind::ToolFailure, "missing: config.yaml");
    let tags = classify_semantic_tags(&e);
    assert!(tags.contains(&SemanticTag::Transient));
}

#[test]
fn classify_tool_temporarily_unavailable() {
    let e = ae(ErrorKind::ToolFailure, "service temporarily unavailable");
    let tags = classify_semantic_tags(&e);
    assert!(tags.contains(&SemanticTag::Transient));
}

#[test]
fn classify_tool_other() {
    let e = ae(ErrorKind::ToolFailure, "unknown boom error");
    let tags = classify_semantic_tags(&e);
    assert_eq!(tags, vec![SemanticTag::Permanent]);
}

#[test]
fn classify_provider_exhausted_dns() {
    let e = ae(ErrorKind::ProviderExhausted, "DNS error: no such host");
    let tags = classify_semantic_tags(&e);
    assert_eq!(tags, vec![SemanticTag::Transient]);
}

#[test]
fn classify_provider_exhausted_connection_refused() {
    let e = ae(
        ErrorKind::ProviderExhausted,
        "connection refused: 127.0.0.1:8080",
    );
    let tags = classify_semantic_tags(&e);
    assert_eq!(tags, vec![SemanticTag::Transient]);
}

#[test]
fn classify_provider_exhausted_timeout() {
    let e = ae(ErrorKind::ProviderExhausted, "request timed out");
    let tags = classify_semantic_tags(&e);
    assert!(tags.contains(&SemanticTag::Transient));
}

#[test]
fn classify_provider_exhausted_timed_out() {
    let e = ae(ErrorKind::ProviderExhausted, "connection timed out");
    let tags = classify_semantic_tags(&e);
    assert!(tags.contains(&SemanticTag::Transient));
}

#[test]
fn classify_provider_exhausted_network() {
    let e = ae(ErrorKind::ProviderExhausted, "network error: TLS");
    let tags = classify_semantic_tags(&e);
    // "tls" is a separate keyword that also matches
    assert!(tags.contains(&SemanticTag::Transient));
}

#[test]
fn classify_provider_exhausted_other() {
    let e = ae(ErrorKind::ProviderExhausted, "all attempts failed");
    let tags = classify_semantic_tags(&e);
    assert!(tags.contains(&SemanticTag::Transient));
    assert!(tags.contains(&SemanticTag::ResourceExhausted));
}

#[test]
fn classify_provider_fatal() {
    let e = ae_with_provider(
        ErrorKind::ProviderFatal,
        "HTTP 400",
        ProviderError::Http {
            status: 400,
            body: "bad request".into(),
        },
    );
    let tags = classify_semantic_tags(&e);
    assert_eq!(tags, vec![SemanticTag::Permanent]);
}

#[test]
fn classify_model_not_found() {
    let e = ae_with_provider(
        ErrorKind::ProviderFatal,
        "model not found: gpt-5",
        ProviderError::ModelNotFound("gpt-5".into()),
    );
    let tags = classify_semantic_tags(&e);
    assert!(tags.contains(&SemanticTag::Permanent));
    assert!(tags.contains(&SemanticTag::ConfigurationError));
    assert!(tags.contains(&SemanticTag::NeedsHuman));
}

// helpers for Unknown ErrorCode tests — Parse maps to Unknown
fn ae_parse(detail: &str) -> AgentError {
    AgentError {
        reason: ErrorKind::ProviderFatal,
        detail: detail.into(),
        provider_error: Some(ProviderError::Parse(detail.into())),
    }
}

#[test]
fn classify_unknown_truncated() {
    let e = ae_parse("body truncated before EOF");
    let tags = classify_semantic_tags(&e);
    assert!(tags.contains(&SemanticTag::Transient));
}

#[test]
fn classify_unknown_incomplete() {
    let e = ae_parse("response incomplete");
    let tags = classify_semantic_tags(&e);
    assert!(tags.contains(&SemanticTag::Transient));
}

#[test]
fn classify_unknown_eof() {
    let e = ae_parse("unexpected EOF in stream");
    let tags = classify_semantic_tags(&e);
    assert!(tags.contains(&SemanticTag::Transient));
}

#[test]
fn classify_unknown_timed_out() {
    let e = ae_parse("parse error: body timed out");
    let tags = classify_semantic_tags(&e);
    assert!(tags.contains(&SemanticTag::Transient));
}

#[test]
fn classify_unknown_without_keyword_is_permanent_non_empty() {
    let e = ae_parse("unexpected token < at line 1");
    let tags = classify_semantic_tags(&e);
    assert!(!tags.is_empty(), "tags must not be empty");
    assert_eq!(tags, vec![SemanticTag::Permanent]);
}

#[test]
fn classify_cancelled() {
    let e = ae(ErrorKind::Cancelled, "user cancelled the task");
    let tags = classify_semantic_tags(&e);
    assert_eq!(tags, vec![SemanticTag::Permanent]);
}

#[test]
fn classify_task_timeout() {
    let e = ae(ErrorKind::TaskTimeout, "task timed out");
    let tags = classify_semantic_tags(&e);
    assert!(tags.contains(&SemanticTag::Transient));
    assert!(tags.contains(&SemanticTag::ResourceExhausted));
}

#[test]
fn classify_max_iterations() {
    let e = ae(ErrorKind::MaxIterations, "exceeded 30 LLM round-trips");
    let tags = classify_semantic_tags(&e);
    assert_eq!(tags, vec![SemanticTag::Transient]);
}

#[test]
fn classify_case_insensitive() {
    // All keyword matching must be case-insensitive.
    let e = ae(ErrorKind::ToolFailure, "Permission Denied: /root/secret");
    let tags = classify_semantic_tags(&e);
    assert!(tags.contains(&SemanticTag::PermissionDenied));
}

// ── defaults ───────────────────────────────────────────────────

#[test]
fn defaults_all_hard_stop() {
    let registry = CriteriaRegistry::defaults();
    let all_codes = [
        ErrorCode::Cancelled,
        ErrorCode::TaskTimeout,
        ErrorCode::ToolFailure,
        ErrorCode::MaxIterations,
        ErrorCode::ProviderExhausted,
        ErrorCode::ProviderFatal,
        ErrorCode::ModelNotFound,
        ErrorCode::AuthFailure,
        ErrorCode::RateLimited,
        ErrorCode::Unknown,
    ];
    for code in &all_codes {
        let action = registry.resolve(&ctx(code.clone(), 0));
        assert_eq!(
            action,
            GateAction::HardStop,
            "expected HardStop for {code:?}, got {action:?}"
        );
    }
}

#[test]
fn defaults_has_ten_rules() {
    let registry = CriteriaRegistry::defaults();
    assert_eq!(registry.rules.len(), 10);
}

#[test]
fn defaults_all_require_tags_none() {
    let registry = CriteriaRegistry::defaults();
    for rule in &registry.rules {
        assert!(
            rule.require_tags.is_none(),
            "default rule for {:?} should have require_tags=None",
            rule.error_code
        );
    }
}

// ── resolve: first-match ───────────────────────────────────────

#[test]
fn first_match_wins() {
    let mut registry = CriteriaRegistry::defaults();
    registry.rules.insert(
        0,
        GateCriteria {
            error_code: ErrorCode::TaskTimeout,
            require_tags: None,
            action: GateAction::AutoRevision,
            max_retries: None,
            reason: "test override".into(),
        },
    );
    let action = registry.resolve(&ctx(ErrorCode::TaskTimeout, 0));
    assert_eq!(action, GateAction::AutoRevision);
}

#[test]
fn override_does_not_affect_other_codes() {
    let mut registry = CriteriaRegistry::defaults();
    registry.rules.insert(
        0,
        GateCriteria {
            error_code: ErrorCode::TaskTimeout,
            require_tags: None,
            action: GateAction::AutoRevision,
            max_retries: None,
            reason: "test override".into(),
        },
    );
    let action = registry.resolve(&ctx(ErrorCode::Cancelled, 0));
    assert_eq!(action, GateAction::HardStop);
}

// ── resolve: max_retries ──────────────────────────────────────

#[test]
fn max_retries_exceeded_skips_override() {
    let mut registry = CriteriaRegistry::defaults();
    registry.rules.insert(
        0,
        GateCriteria {
            error_code: ErrorCode::TaskTimeout,
            require_tags: None,
            action: GateAction::AutoRevision,
            max_retries: Some(2),
            reason: "retry up to 2 times".into(),
        },
    );
    let action = registry.resolve(&ctx(ErrorCode::TaskTimeout, 2));
    assert_eq!(action, GateAction::HardStop);
}

#[test]
fn max_retries_not_exceeded_returns_override() {
    let mut registry = CriteriaRegistry::defaults();
    registry.rules.insert(
        0,
        GateCriteria {
            error_code: ErrorCode::TaskTimeout,
            require_tags: None,
            action: GateAction::AutoRevision,
            max_retries: Some(3),
            reason: "retry up to 3 times".into(),
        },
    );
    let action = registry.resolve(&ctx(ErrorCode::TaskTimeout, 2));
    assert_eq!(action, GateAction::AutoRevision);
}

// ── resolve: fall-through ──────────────────────────────────────

#[test]
fn unknown_code_falls_through_to_default() {
    let mut registry = CriteriaRegistry::defaults();
    registry.rules.insert(
        0,
        GateCriteria {
            error_code: ErrorCode::TaskTimeout,
            require_tags: None,
            action: GateAction::AutoRevision,
            max_retries: None,
            reason: "override".into(),
        },
    );
    let action = registry.resolve(&ctx(ErrorCode::ProviderFatal, 0));
    assert_eq!(action, GateAction::HardStop);
}

// ── resolve: SemanticTag matching ──────────────────────────────

#[test]
fn resolve_all_tags_present_matches() {
    let mut registry = CriteriaRegistry::defaults();
    registry.rules.insert(
        0,
        GateCriteria {
            error_code: ErrorCode::ToolFailure,
            require_tags: Some(vec![SemanticTag::Transient]),
            action: GateAction::AutoRevision,
            max_retries: Some(2),
            reason: "retry transient tool failures".into(),
        },
    );
    let action = registry.resolve(&ctx_with_tags(
        ErrorCode::ToolFailure,
        0,
        vec![SemanticTag::Transient],
    ));
    assert_eq!(action, GateAction::AutoRevision);
}

#[test]
fn resolve_partial_tags_skips() {
    let mut registry = CriteriaRegistry::defaults();
    registry.rules.insert(
        0,
        GateCriteria {
            error_code: ErrorCode::ToolFailure,
            require_tags: Some(vec![SemanticTag::Transient, SemanticTag::ResourceExhausted]),
            action: GateAction::AutoRevision,
            max_retries: Some(2),
            reason: "retry transient+resource tool failures".into(),
        },
    );
    // Only Transient, missing ResourceExhausted → skip.
    let action = registry.resolve(&ctx_with_tags(
        ErrorCode::ToolFailure,
        0,
        vec![SemanticTag::Transient],
    ));
    assert_eq!(action, GateAction::HardStop, "should skip and fall through");
}

#[test]
fn resolve_require_tags_none_always_matches_by_code() {
    let mut registry = CriteriaRegistry::defaults();
    registry.rules.insert(
        0,
        GateCriteria {
            error_code: ErrorCode::ToolFailure,
            require_tags: None,
            action: GateAction::AutoRevision,
            max_retries: Some(2),
            reason: "retry any tool failure".into(),
        },
    );
    // Empty tags, but require_tags=None → match by error_code.
    let action = registry.resolve(&ctx_with_tags(ErrorCode::ToolFailure, 0, vec![]));
    assert_eq!(action, GateAction::AutoRevision);
}

#[test]
fn resolve_tags_dont_cross_error_codes() {
    let mut registry = CriteriaRegistry::defaults();
    registry.rules.insert(
        0,
        GateCriteria {
            error_code: ErrorCode::ToolFailure,
            require_tags: Some(vec![SemanticTag::Transient]),
            action: GateAction::AutoRevision,
            max_retries: Some(2),
            reason: "retry transient tool failures".into(),
        },
    );
    // Transient tag present but error_code is ProviderExhausted → skip.
    let action = registry.resolve(&ctx_with_tags(
        ErrorCode::ProviderExhausted,
        0,
        vec![SemanticTag::Transient],
    ));
    assert_eq!(action, GateAction::HardStop);
}

// ── GateRouter: global cap ─────────────────────────────────────

#[test]
fn global_cap_blocks_override() {
    let mut registry = CriteriaRegistry::defaults();
    registry.rules.insert(
        0,
        GateCriteria {
            error_code: ErrorCode::TaskTimeout,
            require_tags: None,
            action: GateAction::AutoRevision,
            max_retries: None,
            reason: "override".into(),
        },
    );
    let router = GateRouter::new(registry, 5);
    let action = router.route(&ctx(ErrorCode::TaskTimeout, 5));
    assert_eq!(action, GateAction::HardStop);
}

#[test]
fn global_cap_below_retries_passes() {
    let mut registry = CriteriaRegistry::defaults();
    registry.rules.insert(
        0,
        GateCriteria {
            error_code: ErrorCode::TaskTimeout,
            require_tags: None,
            action: GateAction::AutoRevision,
            max_retries: None,
            reason: "override".into(),
        },
    );
    let router = GateRouter::new(registry, 5);
    let action = router.route(&ctx(ErrorCode::TaskTimeout, 3));
    assert_eq!(action, GateAction::AutoRevision);
}

// ── YAML override parsing ──────────────────────────────────────


