use moltbook_cli::classify::handle_response;
use moltbook_cli::json::JsonValue;
use moltbook_cli::types::{ApiResponse, Config, VerificationChallenge};

fn parse_body(text: &str) -> JsonValue {
    handle_response(200, text).expect("test body must parse")
}

#[test]
fn test_api_response_success() {
    let json = r#"{"success": true, "id": "123", "name": "Test"}"#;
    let resp = ApiResponse::from_json(parse_body(json)).unwrap();
    assert!(resp.success);
    assert!(resp.data.is_some());
}

#[test]
fn test_api_response_error() {
    let json = r#"{"success": false, "error": "Invalid key", "hint": "Check your credentials"}"#;
    let resp = ApiResponse::from_json(parse_body(json)).unwrap();
    assert!(!resp.success);
    assert_eq!(resp.error, Some("Invalid key".to_string()));
    assert_eq!(resp.hint, Some("Check your credentials".to_string()));
}

#[test]
fn test_api_response_payload_excludes_envelope() {
    let json = r#"{"success": true, "error": null, "retry_after_minutes": 3, "id": "123"}"#;
    let resp = ApiResponse::from_json(parse_body(json)).unwrap();
    assert_eq!(resp.retry_after_minutes, Some(3));
    let data = resp.data.unwrap();
    assert_eq!(data.get_str("id").as_deref(), Some("123"));
    assert!(data.get_field("success").is_none());
    assert!(data.get_field("retry_after_minutes").is_none());
}

#[test]
fn test_api_response_requires_success_flag() {
    assert!(ApiResponse::from_json(parse_body(r#"{"id": "123"}"#)).is_none());
    assert!(ApiResponse::from_json(parse_body(r#"{"success": "yes"}"#)).is_none());
}

#[test]
fn test_config_deserialization() {
    let json = r#"{"api_key": "test_key", "agent_name": "test_agent"}"#;
    let config = Config::from_json(&parse_body(json)).unwrap();
    assert_eq!(config.api_key, "test_key");
    assert_eq!(config.agent_name, "test_agent");
}

#[test]
fn test_missing_fields() {
    let json = r#"{"api_key": "test_key"}"#;
    let result = Config::from_json(&parse_body(json));
    assert!(result.is_none());
}

#[test]
fn test_verification_challenge_from_json() {
    let json = r#"{"code": "X1", "challenge": "C1", "instructions": "I1", "verify_endpoint": "/verify"}"#;
    let c = VerificationChallenge::from_json(&parse_body(json)).unwrap();
    assert_eq!(c.code, "X1");
    assert_eq!(c.challenge, "C1");
    assert_eq!(c.instructions, "I1");
    assert_eq!(c.verify_endpoint, "/verify");
    let partial = r#"{"code": "X1", "challenge": "C1", "instructions": "I1"}"#;
    assert!(VerificationChallenge::from_json(&parse_body(partial)).is_none());
}
