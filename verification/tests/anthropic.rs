use daedalusd::error::ProviderError;
use daedalusd::llm::anthropic::classify_http_error;
use daedalusd::llm::{truncate_body, ApiKey, MAX_ERROR_BODY};


#[test]
fn api_key_debug_does_not_leak() {
    let key = ApiKey::new("sk-ant-secret-12345");
    let dbg = key.debug_text().to_string();
    assert!(!dbg.contains("secret"));
    assert!(dbg.contains("***"));
}

#[test]
fn api_key_display_does_not_leak() {
    let key = ApiKey::new("sk-ant-secret-12345");
    assert_eq!(key.display_text(), "***");
}

#[test]
fn truncate_large_body() {
    let big = "x".repeat(9000);
    let t = truncate_body(big);
    assert!(t.len() <= 9000); // must not grow
    assert!(t.ends_with("<truncated>"));
}

#[test]
fn truncate_small_body_preserved() {
    let small = "short error".to_string();
    assert_eq!(truncate_body(small.clone()), small);
}

#[test]
fn http_401_is_auth_not_fallbackable() {
    let err = classify_http_error(401, "unauthorized".into());
    assert!(matches!(err, ProviderError::Auth { .. }));
    assert!(!err.is_fallbackable());
}

#[test]
fn http_403_is_auth_not_fallbackable() {
    let err = classify_http_error(403, "forbidden".into());
    assert!(matches!(err, ProviderError::Auth { .. }));
    assert!(!err.is_fallbackable());
}

#[test]
fn http_429_is_rate_limited_fallbackable() {
    let err = classify_http_error(429, "too many".into());
    assert!(matches!(err, ProviderError::RateLimited { .. }));
    assert!(err.is_fallbackable());
}

#[test]
fn http_500_is_fallbackable() {
    let err = classify_http_error(503, "down".into());
    assert!(matches!(err, ProviderError::Http { status: 503, .. }));
    assert!(err.is_fallbackable());
}

#[test]
fn http_400_is_not_fallbackable() {
    let err = classify_http_error(400, "bad".into());
    assert!(matches!(err, ProviderError::Http { status: 400, .. }));
    assert!(!err.is_fallbackable());
}

#[test]
fn truncate_chinese_body_no_panic() {
    // 4100 Chinese chars × 3 bytes UTF-8 = 12300 bytes > MAX_ERROR_BODY
    let chinese_char = "中";
    let body: String = chinese_char.repeat(4100);
    assert!(body.len() > MAX_ERROR_BODY);
    let result = truncate_body(body);
    assert!(result.len() <= 9000);
    assert!(result.ends_with("<truncated>"));
    // Verify we didn't split a multi-byte char: the result must be valid UTF-8.
    assert!(std::str::from_utf8(result.as_bytes()).is_ok());
}

#[test]
fn truncate_emoji_body_no_panic() {
    // "🔥" is 4 bytes in UTF-8; 2500 × 4 = 10000 bytes
    let emoji = "🔥";
    let body: String = emoji.repeat(2500);
    assert!(body.len() > MAX_ERROR_BODY);
    let result = truncate_body(body);
    assert!(result.len() <= 9000);
    assert!(result.ends_with("<truncated>"));
    assert!(std::str::from_utf8(result.as_bytes()).is_ok());
}

