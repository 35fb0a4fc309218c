use moltbook_cli::classify::{handle_response, ApiError};
use moltbook_cli::json::JsonValue;

#[test]
fn test_rate_limit_handling_minutes() {
    let body = r#"{"error": "rate_limit_exceeded", "retry_after_minutes": 30}"#;
    let result: Result<JsonValue, ApiError> = handle_response(429, body);
    match result {
        Err(ApiError::RateLimited(msg)) => assert_eq!(msg, "30 minutes"),
        _ => panic!("Expected RateLimited error"),
    }
}

#[test]
fn test_rate_limit_handling_seconds() {
    let body = r#"{"error": "rate_limit_exceeded", "retry_after_seconds": 15}"#;
    let result: Result<JsonValue, ApiError> = handle_response(429, body);
    match result {
        Err(ApiError::RateLimited(msg)) => assert_eq!(msg, "15 seconds"),
        _ => panic!("Expected RateLimited error"),
    }
}

#[test]
fn test_rate_limit_minutes_win_over_seconds() {
    let body = r#"{"retry_after_minutes": 2, "retry_after_seconds": 90}"#;
    match handle_response(429, body) {
        Err(ApiError::RateLimited(msg)) => assert_eq!(msg, "2 minutes"),
        _ => panic!("Expected RateLimited error"),
    }
}

#[test]
fn test_rate_limit_unparseable_body() {
    match handle_response(429, "slow down") {
        Err(ApiError::RateLimited(msg)) => assert_eq!(msg, "Wait before retrying"),
        _ => panic!("Expected RateLimited error"),
    }
}

#[test]
fn test_rate_limit_fieldless_body() {
    match handle_response(429, r#"{"error": "rate_limit_exceeded"}"#) {
        Err(ApiError::RateLimited(msg)) => assert_eq!(msg, "Wait before retrying"),
        _ => panic!("Expected RateLimited error"),
    }
}

#[test]
fn test_rate_limit_never_falls_through() {
    // A 429 with a captcha-shaped body is still a rate limit.
    let body = r#"{"error": "captcha_required", "token": "tok_abc123"}"#;
    assert!(matches!(
        handle_response(429, body),
        Err(ApiError::RateLimited(_))
    ));
}

#[test]
fn test_captcha_required_error() {
    let body = r#"{"success": false, "error": "captcha_required", "token": "tok_abc123"}"#;
    let result = handle_response(403, body);
    match result {
        Err(ApiError::CaptchaRequired(token)) => assert_eq!(token, "tok_abc123"),
        _ => panic!("Expected CaptchaRequired error, got {:?}", result),
    }
}

#[test]
fn test_captcha_token_default() {
    let body = r#"{"error": "captcha_required"}"#;
    match handle_response(403, body) {
        Err(ApiError::CaptchaRequired(token)) => assert_eq!(token, "unknown_token"),
        _ => panic!("Expected CaptchaRequired error"),
    }
}

#[test]
fn test_moltbook_error_with_hint() {
    let body = r#"{"success": false, "error": "Agent not found", "hint": "Check the spelling of the name"}"#;
    let result = handle_response(404, body);
    match result {
        Err(ApiError::MoltbookError(err, hint)) => {
            assert_eq!(err, "Agent not found");
            assert_eq!(hint, "Check the spelling of the name");
        }
        _ => panic!("Expected MoltbookError"),
    }
}

#[test]
fn test_moltbook_error_defaults() {
    match handle_response(500, r#"{"success": false}"#) {
        Err(ApiError::MoltbookError(err, hint)) => {
            assert_eq!(err, "Unknown error");
            assert_eq!(hint, "");
        }
        _ => panic!("Expected MoltbookError"),
    }
}

#[test]
fn test_unparseable_error_body() {
    match handle_response(502, "bad gateway") {
        Err(ApiError::MoltbookError(err, hint)) => {
            assert_eq!(err, "HTTP 502");
            assert_eq!(hint, "bad gateway");
        }
        _ => panic!("Expected MoltbookError"),
    }
}

#[test]
fn test_success_returns_parsed_body() {
    let body = r#"{"success": true, "agent": {"id": "123", "name": "TestBot"}}"#;
    let parsed = handle_response(200, body).expect("2xx with JSON body must classify as success");
    assert_eq!(parsed.get_bool("success"), Some(true));
    let agent = parsed.get_field("agent").expect("agent field");
    assert_eq!(agent.get_str("name").as_deref(), Some("TestBot"));
    assert_eq!(agent.get_str("id").as_deref(), Some("123"));
}

#[test]
fn test_parse_failure_preserves_text() {
    let raw = "<html>not json</html>";
    match handle_response(200, raw) {
        Err(ApiError::ParseError(text, cause)) => {
            assert_eq!(text, raw);
            assert!(!cause.is_empty());
        }
        _ => panic!("Expected ParseError"),
    }
}

#[test]
fn test_classifier_idempotent() {
    let cases: Vec<(u16, &str)> = vec![
        (429, r#"{"retry_after_minutes": 30}"#),
        (429, "plain"),
        (403, r#"{"error": "captcha_required", "token": "t"}"#),
        (404, r#"{"error": "Agent not found", "hint": "h"}"#),
        (500, "oops"),
        (200, r#"{"success": true, "id": 7}"#),
        (200, "not json"),
    ];
    for (status, body) in cases {
        let first = handle_response(status, body);
        let second = handle_response(status, body);
        assert_eq!(first, second);
    }
}

#[test]
fn test_rate_limit_field_must_be_integer() {
    // A retry field that arrives as a string is not the documented
    // integer shape, so the generic advice applies.
    match handle_response(429, r#"{"retry_after_minutes": "30"}"#) {
        Err(ApiError::RateLimited(msg)) => assert_eq!(msg, "Wait before retrying"),
        _ => panic!("Expected RateLimited error"),
    }
}

#[test]
fn test_empty_body_on_success_status() {
    match handle_response(200, "") {
        Err(ApiError::ParseError(text, _)) => assert_eq!(text, ""),
        _ => panic!("Expected ParseError"),
    }
}

#[test]
fn test_duplicate_keys_last_wins() {
    // The JSON parser keeps the last of two equal keys.
    let parsed = handle_response(200, r#"{"a": 1, "a": 2}"#).unwrap();
    assert_eq!(parsed.get_u64("a"), Some(2));
}

#[test]
fn test_status_range_bounds() {
    // 200 and 299 are successes; 199 and 300 are not.
    assert!(handle_response(200, r#"{}"#).is_ok());
    assert!(handle_response(299, r#"{}"#).is_ok());
    assert!(matches!(
        handle_response(199, r#"{}"#),
        Err(ApiError::MoltbookError(_, _))
    ));
    assert!(matches!(
        handle_response(300, r#"{}"#),
        Err(ApiError::MoltbookError(_, _))
    ));
}
