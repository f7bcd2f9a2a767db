use daedalusd::config::{config_from, expand_tilde, DaedalusConfig, DaemonRuntimeConfig, EnvOverrides, HooksConfig};
use daedalusd::db::orphan::is_stale;
use daedalusd::db::registry::AgentRunStatus;
use daedalusd::error::{AgentError, ErrorCode, ErrorKind, ProviderError};
use daedalusd::gate::CriteriaRegistry;
use daedalusd::json::{parse_json_text, JsonValue};
use daedalusd::pipeline::status::TaskStatus;
use daedalusd::run_artifacts::{hook_env, hook_failed_text, hook_log_text, hook_timeout_text, summary_for_done, summary_for_error};
use daedalusd::text::{decimal, str_lt, trim_str};
use daedalusd::types::check_schema_version;

fn cfg(addr: &str) -> DaedalusConfig {
    let env = EnvOverrides {
        soul_path: None,
        managed_agents_path: None,
        skills_dir: None,
        models_yaml: None,
        gate_criteria_path: None,
        http_addr: Some(addr.into()),
        daedalus_md_path: None,
        runs_dir: None,
        hook_task_done: None,
        hook_task_error: None,
    };
    config_from("/home/u", env, DaemonRuntimeConfig { runs_dir: None, hooks: HooksConfig::empty() })
}

// ── configuration ───────────────────────────────────────────────────

#[test]
fn validate_loopback_ok() {
    assert!(cfg("127.0.0.1:9800").validate_http_addr().is_ok());
}

#[test]
fn validate_localhost_ok() {
    assert!(cfg("localhost:9800").validate_http_addr().is_ok());
}

#[test]
fn validate_ipv6_loopback_ok() {
    assert!(cfg("[::1]:9800").validate_http_addr().is_ok());
}

#[test]
fn validate_rejects_zeros() {
    assert!(cfg("0.0.0.0:9800").validate_http_addr().is_err());
}

#[test]
fn validate_rejects_public() {
    assert!(cfg("192.168.1.1:9800").validate_http_addr().is_err());
}

#[test]
fn configuration_defaults_and_overrides() {
    let c = cfg("127.0.0.1:1");
    assert_eq!(c.soul_path, "/home/u/.daedalus/SOUL.md");
    assert_eq!(c.models_yaml_path, "/home/u/.daedalus/models.yaml");
    assert_eq!(c.runs_dir, "/home/u/.daedalus/runs");
    assert_eq!(c.daedalus_md_path, "DAEDALUS.md");
    assert!(c.hooks.task_done.is_empty());
    let env = EnvOverrides {
        soul_path: Some("/s".into()),
        managed_agents_path: None,
        skills_dir: None,
        models_yaml: None,
        gate_criteria_path: None,
        http_addr: None,
        daedalus_md_path: None,
        runs_dir: Some("~/runs".into()),
        hook_task_done: None,
        hook_task_error: None,
    };
    let c = config_from("/home/u", env, DaemonRuntimeConfig { runs_dir: Some("/ignored".into()), hooks: HooksConfig::empty() });
    assert_eq!(c.soul_path, "/s");
    assert_eq!(c.http_addr, "127.0.0.1:9800");
    assert_eq!(c.runs_dir, "/home/u/runs");
    assert_eq!(expand_tilde("~", "/h"), "/h");
    assert_eq!(expand_tilde("~/x", "/h"), "/h/x");
    assert_eq!(expand_tilde("/abs", "/h"), "/abs");
    assert_eq!(expand_tilde("~other", "/h"), "~other");
}

// ── gate defaults ───────────────────────────────────────────────────

#[test]
fn yaml_override_file_missing_returns_defaults() {
    let registry = CriteriaRegistry::with_override_rules("/nonexistent/path/gate.yaml", vec![]).unwrap();
    let defaults = CriteriaRegistry::defaults();
    assert_eq!(registry.rules.len(), defaults.rules.len());
    for (a, b) in registry.rules.iter().zip(defaults.rules.iter()) {
        assert_eq!(a.error_code, b.error_code);
        assert_eq!(a.action, b.action);
        assert_eq!(a.max_retries, b.max_retries);
    }
}

// ── runs and orphans ────────────────────────────────────────────────

#[test]
fn running_fresh_heartbeat_not_orphaned() {
    let now = 10_000;
    assert!(!is_stale(AgentRunStatus::Running, Some(now - 10), now - 30, now - 60));
}

#[test]
fn running_stale_heartbeat_orphaned() {
    let now = 10_000;
    assert!(is_stale(AgentRunStatus::Running, Some(now - 100), now - 120, now - 60));
}

#[test]
fn running_null_heartbeat_stale_spawn_orphaned() {
    let now = 10_000;
    assert!(is_stale(AgentRunStatus::Running, None, now - 120, now - 60));
}

#[test]
fn running_null_heartbeat_fresh_spawn_not_orphaned() {
    let now = 10_000;
    assert!(!is_stale(AgentRunStatus::Running, None, now - 10, now - 60));
}

#[test]
fn terminal_statuses_not_orphaned() {
    let now = 10_000;
    for status in [AgentRunStatus::Done, AgentRunStatus::Error, AgentRunStatus::Cancelled] {
        assert!(!is_stale(status, None, now - 120, now - 60));
    }
}

#[test]
fn mixed_only_orphans_marked() {
    let now = 10_000;
    let runs = [("stale", now - 120), ("fresh", now - 10)];
    let orphaned: Vec<&str> = runs.iter().filter(|(_, spawned)| is_stale(AgentRunStatus::Running, None, *spawned, now - 60)).map(|(id, _)| *id).collect();
    assert_eq!(orphaned, vec!["stale"]);
}

#[test]
fn run_status_names_round_trip() {
    for s in [AgentRunStatus::Queued, AgentRunStatus::Running, AgentRunStatus::Done, AgentRunStatus::Error, AgentRunStatus::Cancelled, AgentRunStatus::Orphaned] {
        assert_eq!(AgentRunStatus::parse_status(s.as_str()), Some(s));
    }
    assert_eq!(AgentRunStatus::parse_status("zombie"), None);
}

#[test]
fn task_status_terminal_states_stay_final() {
    let all = ["created", "dispatched", "running", "waiting_for_verification", "completed", "needs_human_review", "failed", "blocked", "discarded"];
    for s in ["completed", "failed", "discarded"] {
        let t = TaskStatus::parse_status(s).unwrap();
        for n in all {
            if let Some(next) = TaskStatus::parse_status(n) {
                assert!(TaskStatus::transition(&t, &next).is_err(), "{s} -> {n}");
            }
        }
    }
}

// ── run artifacts ───────────────────────────────────────────────────

#[test]
fn summary_done_has_required_fields() {
    let s = summary_for_done("r1", "t1", "a1", "test goal", "All good.", "2026-01-01T00:00:00Z", "2026-01-01T00:01:00Z");
    for part in ["r1", "t1", "a1", "test goal", "All good."] {
        assert!(s.contains(part), "missing {part}");
    }
}

#[test]
fn summary_error_has_required_fields() {
    let s = summary_for_error("r2", "t2", "a2", "bad goal", "tool_failure", "boom", "2026-01-01T00:00:00Z", "2026-01-01T00:01:00Z");
    for part in ["r2", "tool_failure", "boom"] {
        assert!(s.contains(part), "missing {part}");
    }
}

#[test]
fn hook_texts_and_environment() {
    assert_eq!(hook_failed_text("spawn"), "hook failed: spawn\n");
    assert_eq!(hook_timeout_text(), "hook timed out after 30s\n");
    assert_eq!(hook_log_text(Some(-2), "out", "err"), "exit=-2\n--- stdout ---\nout\n--- stderr ---\nerr");
    assert_eq!(hook_log_text(None, "", ""), "exit=signal\n--- stdout ---\n\n--- stderr ---\n");
    let env = hook_env("r", "t", "/d", "/d/t.jsonl", "/d/s.md", "done");
    assert_eq!(env[0], ("DAEDALUS_RUN_ID".to_string(), "r".to_string()));
    assert_eq!(env[5], ("DAEDALUS_STATUS".to_string(), "done".to_string()));
}

// ── errors ──────────────────────────────────────────────────────────

#[test]
fn error_codes_and_texts() {
    let e = AgentError { reason: ErrorKind::ProviderFatal, detail: "x".into(), provider_error: Some(ProviderError::Auth { status: 401, body: "no".into() }) };
    assert_eq!(e.error_code(), ErrorCode::AuthFailure);
    let e = AgentError { reason: ErrorKind::ProviderExhausted, detail: "x".into(), provider_error: Some(ProviderError::RateLimited { status: 429, body: String::new() }) };
    assert_eq!(e.error_code(), ErrorCode::RateLimited);
    let e = AgentError { reason: ErrorKind::MaxIterations, detail: "x".into(), provider_error: None };
    assert_eq!(e.error_code(), ErrorCode::MaxIterations);
    assert_eq!(ErrorCode::ToolFailure.as_str(), "tool_failure");
    assert_eq!(ProviderError::Timeout.to_display_string(), "request timed out");
    assert!(ProviderError::Network("down".into()).is_fallbackable());
    assert!(!ProviderError::Parse("bad".into()).is_fallbackable());
}

#[test]
fn schema_version_checks() {
    assert!(check_schema_version("task_card.schema_version", "2.8").is_ok());
    assert_eq!(check_schema_version("f", "").unwrap_err(), "f empty");
    assert_eq!(check_schema_version("f", "2.7").unwrap_err(), "f bad version");
}

// ── text and JSON helpers ───────────────────────────────────────────

#[test]
fn text_helpers() {
    assert_eq!(decimal(0), "0");
    assert_eq!(decimal(1234567890123), "1234567890123");
    assert_eq!(trim_str("  a b \n"), "a b");
    assert!(str_lt("apple", "banana"));
    assert!(str_lt("app", "apple"));
    assert!(!str_lt("b", "a"));
    assert!(!str_lt("a", "a"));
    assert!(str_lt("Z", "a"));
}

#[test]
fn json_text_reading() {
    let v = parse_json_text(r#"{"a":[1,-2,0.5,true,null,"s"]}"#).unwrap();
    let items = v.get("a").unwrap();
    assert!(matches!(items, JsonValue::Array(xs) if xs.len() == 6));
    assert!(parse_json_text("{").is_err());
    assert!(parse_json_text("1 2").is_err());
    let half = parse_json_text("0.5").unwrap();
    assert!(half.as_number().unwrap().in_unit_interval());
    assert!(!parse_json_text("1.5").unwrap().as_number().unwrap().in_unit_interval());
    assert!(parse_json_text("-0.0").unwrap().as_number().unwrap().in_unit_interval());
    assert!(!parse_json_text("-1e-300").unwrap().as_number().unwrap().in_unit_interval());
}

#[test]
fn provider_failures_become_agent_errors() {
    let e = AgentError::from_provider(ProviderError::Timeout);
    assert_eq!(e.reason, ErrorKind::ProviderExhausted);
    assert_eq!(e.detail, "request timed out");
    assert!(matches!(e.provider_error, Some(ProviderError::Timeout)));
    let e = AgentError::from_provider(ProviderError::Auth { status: 401, body: "no".into() });
    assert_eq!(e.reason, ErrorKind::ProviderFatal);
    assert_eq!(e.detail, "auth error (HTTP 401)");
    assert_eq!(e.error_code(), ErrorCode::AuthFailure);
}

#[test]
fn interrupted_calls_say_why() {
    assert_eq!(AgentError::interrupted(ErrorKind::TaskTimeout).detail, "task timed out");
    assert_eq!(AgentError::interrupted(ErrorKind::Cancelled).detail, "task cancelled");
    let e = AgentError::interrupted(ErrorKind::ToolFailure);
    assert_eq!(e.detail, "task interrupted");
    assert_eq!(e.reason, ErrorKind::ToolFailure);
    assert!(e.provider_error.is_none());
}
