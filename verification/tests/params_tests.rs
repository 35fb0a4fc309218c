use moltbook_cli::display::{relative_label, usable_width};
use moltbook_cli::post_params::{resolve_post_params, PostParams};

fn params() -> PostParams {
    PostParams::default()
}

#[test]
fn test_resolve_defaults() {
    let (title, submolt, content, url) = resolve_post_params(params());
    assert_eq!(title, "Untitled Post");
    assert_eq!(submolt, "general");
    assert_eq!(content, None);
    assert_eq!(url, None);
}

#[test]
fn test_resolve_flags_win_over_positional() {
    let mut p = params();
    p.title = Some("Flag title".to_string());
    p.title_pos = Some("Positional title".to_string());
    p.submolt_pos = Some("rust".to_string());
    let (title, submolt, _, _) = resolve_post_params(p);
    assert_eq!(title, "Flag title");
    assert_eq!(submolt, "rust");
}

#[test]
fn test_url_promotion_from_title() {
    let mut p = params();
    p.title = Some("https://example.com/x".to_string());
    let (title, _, content, url) = resolve_post_params(p);
    assert_eq!(url.as_deref(), Some("https://example.com/x"));
    assert_eq!(title, "Untitled Post");
    assert_eq!(content, None);
}

#[test]
fn test_url_promotion_from_content() {
    let mut p = params();
    p.title = Some("A link".to_string());
    p.content_pos = Some("http://example.com/y".to_string());
    let (title, _, content, url) = resolve_post_params(p);
    assert_eq!(title, "A link");
    assert_eq!(content, None);
    assert_eq!(url.as_deref(), Some("http://example.com/y"));
}

#[test]
fn test_no_promotion_when_url_given() {
    let mut p = params();
    p.title = Some("https://example.com/x".to_string());
    p.url = Some("https://example.com/z".to_string());
    let (title, _, _, url) = resolve_post_params(p);
    assert_eq!(title, "https://example.com/x");
    assert_eq!(url.as_deref(), Some("https://example.com/z"));
}

#[test]
fn test_usable_width() {
    assert_eq!(usable_width(100), 98);
    assert_eq!(usable_width(42), 40);
    assert_eq!(usable_width(41), 40);
    assert_eq!(usable_width(10), 40);
    assert_eq!(usable_width(0), 40);
}

#[test]
fn test_relative_label() {
    assert_eq!(relative_label(-5).as_deref(), Some("just now"));
    assert_eq!(relative_label(0).as_deref(), Some("just now"));
    assert_eq!(relative_label(59).as_deref(), Some("just now"));
    assert_eq!(relative_label(60).as_deref(), Some("1m ago"));
    assert_eq!(relative_label(3599).as_deref(), Some("59m ago"));
    assert_eq!(relative_label(3600).as_deref(), Some("1h ago"));
    assert_eq!(relative_label(86399).as_deref(), Some("23h ago"));
    assert_eq!(relative_label(86400).as_deref(), Some("1d ago"));
    assert_eq!(relative_label(604799).as_deref(), Some("6d ago"));
    assert_eq!(relative_label(604800), None);
}
