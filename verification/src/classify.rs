//! The response classifier.
//!
//! Given the HTTP status code and the raw body text of one completed round
//! trip, the classifier produces exactly one outcome: the parsed body on
//! success, or one error value describing a rate limit, a CAPTCHA
//! challenge, a domain error, or a parse failure. The rules, in priority
//! order:
//!
//! 1. Status 429 is always a rate limit. If the body is JSON with an
//!    integer `retry_after_minutes`, the message is `"<n> minutes"`; else
//!    with `retry_after_seconds`, `"<n> seconds"`; else a generic
//!    `"Wait before retrying"`.
//! 2. Any other non-2xx status is an error. If the body is JSON, field
//!    `error` (default `"Unknown error"`) decides: the literal
//!    `captcha_required` yields a CAPTCHA outcome carrying field `token`
//!    (default `"unknown_token"`); anything else yields a domain error
//!    carrying `error` and field `hint` (default empty). A body that is
//!    not JSON yields a domain error `"HTTP <status>"` with the raw text
//!    as the hint.
//! 3. A 2xx response yields the parsed body; if the body does not parse,
//!    a parse failure that preserves the raw text next to the cause.

use crate::json::{str_field, u64_field, JsonValue};
use crate::numeric::{dec_rep, u64_to_dec};
use crate::parse::{parse_json_text, parsed_json};
use vstd::prelude::*;

verus! {

/// Errors that can arise when talking to the Moltbook API or the local
/// configuration, mirrored across every layer of the client.
///
/// The classifier itself only ever produces `RateLimited`,
/// `CaptchaRequired`, `MoltbookError` and `ParseError`; the remaining
/// variants belong to the transport and configuration layers around it.
#[derive(Debug, PartialEq)]
pub enum ApiError {
    /// The HTTP round trip itself failed (connection, DNS, TLS); carries
    /// the transport's description.
    RequestFailed(String),
    /// A domain error reported by the API: an error message and a hint.
    MoltbookError(String, String),
    /// The agent hit a rate limit; carries the wait, e.g. `"30 minutes"`.
    RateLimited(String),
    /// A restriction applied to newly registered agents.
    NewAgentRestricted(String),
    /// A CAPTCHA challenge must be solved first; carries the token.
    CaptchaRequired(String),
    /// The response body did not parse as expected: the raw text, kept
    /// verbatim for diagnosis, and the parser's error message.
    ParseError(String, String),
    /// The local configuration is missing or unreadable.
    ConfigError(String),
    /// A file could not be read or written.
    IoError(String),
}

/// One classified outcome, as the wire contract describes it: the abstract
/// value of what `handle_response` returns.
pub enum ClassifiedResponse {
    /// HTTP 2xx with a body that parsed: the parsed document.
    Success(JsonValue),
    /// HTTP 429: the wait message.
    RateLimited(Seq<char>),
    /// Non-2xx with the recognized CAPTCHA error code: the token.
    CaptchaRequired(Seq<char>),
    /// Non-2xx otherwise: message and hint.
    DomainError(Seq<char>, Seq<char>),
    /// HTTP 2xx with a body that did not parse: the raw text and the
    /// cause.
    ParseFailure(Seq<char>, Seq<char>),
}

/// Whether a status code counts as success.
pub open spec fn is_success_status(status: u16) -> bool {
    200 <= status < 300
}

/// The rate-limit message for a 429 body: minutes win over seconds, and
/// anything else falls back to the generic advice.
pub open spec fn rate_limit_message(parsed: Result<JsonValue, String>) -> Seq<char> {
    match parsed {
        Ok(body) => match u64_field(body, "retry_after_minutes"@) {
            Some(n) => dec_rep(n as nat) + " minutes"@,
            None => match u64_field(body, "retry_after_seconds"@) {
                Some(n) => dec_rep(n as nat) + " seconds"@,
                None => "Wait before retrying"@,
            },
        },
        Err(_) => "Wait before retrying"@,
    }
}

/// The error message of a parsed error body, with its documented default.
pub open spec fn error_text(body: JsonValue) -> Seq<char> {
    match str_field(body, "error"@) {
        Some(e) => e,
        None => "Unknown error"@,
    }
}

/// The CAPTCHA token of a parsed error body, with its documented default.
pub open spec fn token_text(body: JsonValue) -> Seq<char> {
    match str_field(body, "token"@) {
        Some(t) => t,
        None => "unknown_token"@,
    }
}

/// The hint of a parsed error body; missing hints read as empty.
pub open spec fn hint_text(body: JsonValue) -> Seq<char> {
    match str_field(body, "hint"@) {
        Some(h) => h,
        None => Seq::<char>::empty(),
    }
}

/// The classification of one response, given the status, what the JSON
/// parser made of the body, and the raw body text. The first matching
/// rule wins; a 429 never falls through to the error rules.
pub open spec fn classification(
    status: u16,
    parsed: Result<JsonValue, String>,
    raw: Seq<char>,
) -> ClassifiedResponse {
    if status == 429 {
        ClassifiedResponse::RateLimited(rate_limit_message(parsed))
    } else if !is_success_status(status) {
        match parsed {
            Ok(body) => {
                if error_text(body) == "captcha_required"@ {
                    ClassifiedResponse::CaptchaRequired(token_text(body))
                } else {
                    ClassifiedResponse::DomainError(error_text(body), hint_text(body))
                }
            },
            Err(_) => ClassifiedResponse::DomainError("HTTP "@ + dec_rep(status as nat), raw),
        }
    } else {
        match parsed {
            Ok(body) => ClassifiedResponse::Success(body),
            Err(cause) => ClassifiedResponse::ParseFailure(raw, cause@),
        }
    }
}

/// The classification of one raw response: what `handle_response` is
/// proved to return. A pure function of status and body text.
pub open spec fn classify_model(status: u16, raw: Seq<char>) -> ClassifiedResponse {
    classification(status, parsed_json(raw), raw)
}

/// The abstract outcome a concrete classifier result stands for; `None`
/// for error variants the classifier never produces.
pub open spec fn response_view(r: Result<JsonValue, ApiError>) -> Option<ClassifiedResponse> {
    match r {
        Ok(body) => Some(ClassifiedResponse::Success(body)),
        Err(ApiError::RateLimited(m)) => Some(ClassifiedResponse::RateLimited(m@)),
        Err(ApiError::CaptchaRequired(t)) => Some(ClassifiedResponse::CaptchaRequired(t@)),
        Err(ApiError::MoltbookError(e, h)) => Some(ClassifiedResponse::DomainError(e@, h@)),
        Err(ApiError::ParseError(raw, cause)) => Some(
            ClassifiedResponse::ParseFailure(raw@, cause@),
        ),
        Err(_) => None,
    }
}

/// Classifies one response whose body has already been handed to the JSON
/// parser. Everything from here on is verified: the result is exactly the
/// classification of the inputs.
pub fn classify_parsed(status: u16, parsed: Result<JsonValue, String>, text: &str) -> (r: Result<
    JsonValue,
    ApiError,
>)
    ensures
        response_view(r) == Some(classification(status, parsed, text@)),
{
    if status == 429 {
        let msg: String = match &parsed {
            Ok(body) => match body.get_u64("retry_after_minutes") {
                Some(n) => u64_to_dec(n).concat(" minutes"),
                None => match body.get_u64("retry_after_seconds") {
                    Some(n) => u64_to_dec(n).concat(" seconds"),
                    None => String::from_str("Wait before retrying"),
                },
            },
            Err(_) => String::from_str("Wait before retrying"),
        };
        Err(ApiError::RateLimited(msg))
    } else if !(200 <= status && status < 300) {
        match parsed {
            Ok(body) => {
                let error = match body.get_str("error") {
                    Some(e) => e,
                    None => String::from_str("Unknown error"),
                };
                if error == String::from_str("captcha_required") {
                    let token = match body.get_str("token") {
                        Some(t) => t,
                        None => String::from_str("unknown_token"),
                    };
                    Err(ApiError::CaptchaRequired(token))
                } else {
                    let hint = match body.get_str("hint") {
                        Some(h) => h,
                        None => String::new(),
                    };
                    Err(ApiError::MoltbookError(error, hint))
                }
            },
            Err(_) => {
                let mut msg = String::from_str("HTTP ");
                let digits = u64_to_dec(status as u64);
                msg.append(digits.as_str());
                Err(ApiError::MoltbookError(msg, String::from_str(text)))
            },
        }
    } else {
        match parsed {
            Ok(body) => Ok(body),
            Err(cause) => Err(ApiError::ParseError(String::from_str(text), cause)),
        }
    }
}

/// Law: a 429 response whose JSON body holds an integer
/// `retry_after_minutes: n` is rate-limited with the message
/// `"<n> minutes"`, whatever else the body holds.
pub proof fn lemma_rate_limit_minutes(status: u16, body: JsonValue, raw: Seq<char>, n: u64)
    requires
        status == 429,
        u64_field(body, "retry_after_minutes"@) == Some(n),
    ensures
        classification(status, Ok(body), raw) == ClassifiedResponse::RateLimited(
            dec_rep(n as nat) + " minutes"@,
        ),
{
}

/// Law: a 429 response whose JSON body holds an integer
/// `retry_after_seconds: n` and no `retry_after_minutes` is rate-limited
/// with the message `"<n> seconds"`.
pub proof fn lemma_rate_limit_seconds(status: u16, body: JsonValue, raw: Seq<char>, n: u64)
    requires
        status == 429,
        u64_field(body, "retry_after_minutes"@) is None,
        u64_field(body, "retry_after_seconds"@) == Some(n),
    ensures
        classification(status, Ok(body), raw) == ClassifiedResponse::RateLimited(
            dec_rep(n as nat) + " seconds"@,
        ),
{
}

/// Law: a 429 response whose body is not JSON, or is JSON without either
/// retry field, is rate-limited with the generic advice.
pub proof fn lemma_rate_limit_generic(status: u16, parsed: Result<JsonValue, String>, raw: Seq<
    char,
>)
    requires
        status == 429,
        parsed matches Ok(body) ==> u64_field(body, "retry_after_minutes"@) is None && u64_field(
            body,
            "retry_after_seconds"@,
        ) is None,
    ensures
        classification(status, parsed, raw) == ClassifiedResponse::RateLimited(
            "Wait before retrying"@,
        ),
{
}

/// Law: status 429 always classifies as rate-limited, regardless of the
/// body's shape — it never falls through to the error rules.
pub proof fn lemma_rate_limit_never_falls_through(
    status: u16,
    parsed: Result<JsonValue, String>,
    raw: Seq<char>,
)
    requires
        status == 429,
    ensures
        classification(status, parsed, raw) is RateLimited,
{
}

/// Law: a non-2xx response whose JSON body names the error
/// `captcha_required` classifies as CAPTCHA-required carrying the body's
/// token (or its default), taking priority over domain-error handling.
pub proof fn lemma_captcha_priority(status: u16, body: JsonValue, raw: Seq<char>)
    requires
        status != 429,
        !is_success_status(status),
        str_field(body, "error"@) == Some("captcha_required"@),
    ensures
        classification(status, Ok(body), raw) == ClassifiedResponse::CaptchaRequired(
            token_text(body),
        ),
{
}

/// Law: a non-2xx response whose JSON body names any other error (or
/// none) classifies as a domain error carrying the error message and the
/// hint, with their documented defaults.
pub proof fn lemma_domain_error(status: u16, body: JsonValue, raw: Seq<char>)
    requires
        status != 429,
        !is_success_status(status),
        error_text(body) != "captcha_required"@,
    ensures
        classification(status, Ok(body), raw) == ClassifiedResponse::DomainError(
            error_text(body),
            hint_text(body),
        ),
{
}

/// Law: a non-2xx response whose body is not JSON classifies as a domain
/// error `"HTTP <status>"` whose hint is the raw response text.
pub proof fn lemma_unparseable_error_body(status: u16, cause: String, raw: Seq<char>)
    requires
        status != 429,
        !is_success_status(status),
    ensures
        classification(status, Err(cause), raw) == ClassifiedResponse::DomainError(
            "HTTP "@ + dec_rep(status as nat),
            raw,
        ),
{
}

/// Law: a 2xx response whose body does not parse classifies as a parse
/// failure that preserves the original text next to the cause.
pub proof fn lemma_parse_failure_preserves_text(status: u16, cause: String, raw: Seq<char>)
    requires
        is_success_status(status),
    ensures
        classification(status, Err(cause), raw) == ClassifiedResponse::ParseFailure(raw, cause@),
{
}

/// Law: classification is a pure function of the status code and the raw
/// body text, so byte-identical responses classify identically.
pub proof fn lemma_classification_deterministic(
    status1: u16,
    raw1: Seq<char>,
    status2: u16,
    raw2: Seq<char>,
)
    requires
        status1 == status2,
        raw1 == raw2,
    ensures
        classify_model(status1, raw1) == classify_model(status2, raw2),
{
}

/// Classifies one completed HTTP round trip: hands the body text to the
/// JSON parser once, then applies the verified classification rules.
pub fn handle_response(status: u16, text: &str) -> (r: Result<JsonValue, ApiError>)
    ensures
        response_view(r) == Some(classify_model(status, text@)),
{
    let parsed = parse_json_text(text);
    classify_parsed(status, parsed, text)
}

} // verus!
