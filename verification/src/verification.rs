//! The verification-challenge detector.
//!
//! A successful response body may carry an embedded challenge that the
//! operator must solve out of band before the action takes effect.
//! Different endpoints nest it differently, so the detector applies an
//! ordered list of lookup strategies and returns the first hit: a
//! top-level object field `verification`; then a `verification` object
//! nested inside a top-level `comment`; then one nested inside a
//! top-level `post`. Display fields come with fallback aliases
//! (`challenge_text` before `challenge`, `verification_code` before
//! `code`) and read as empty when missing.
//! A top-level boolean `verification_required: true` with no challenge
//! object anywhere is still a challenge, but one whose details are
//! missing.

use crate::json::{bool_field, field_of, obj_field, str_field, JsonValue};
use vstd::prelude::*;

verus! {

/// What the detector found in one response body.
#[derive(Debug, PartialEq)]
pub enum VerificationOutcome {
    /// A challenge object was found; the display fields, missing ones
    /// rendered empty.
    Challenge { instructions: String, challenge: String, code: String },
    /// Only the degraded signal `verification_required: true` was found.
    DetailsMissing,
    /// No challenge: the caller may treat the action as complete.
    NoChallenge,
}

/// The abstract value of a detector outcome.
pub enum Detection {
    Challenge { instructions: Seq<char>, challenge: Seq<char>, code: Seq<char> },
    DetailsMissing,
    NoChallenge,
}

/// The challenge object nested under field `key` of `body`: present
/// only when that field holds an object whose `verification` field
/// holds an object in turn.
pub open spec fn nested_challenge(body: JsonValue, key: Seq<char>) -> Option<JsonValue> {
    match field_of(body, key) {
        Some(inner) => obj_field(inner, "verification"@),
        None => None,
    }
}

/// The challenge object embedded in `body`: the first hit of the
/// ordered search — top level first, then nested under `comment`, then
/// under `post`.
pub open spec fn found_challenge(body: JsonValue) -> Option<JsonValue> {
    if obj_field(body, "verification"@) is Some {
        obj_field(body, "verification"@)
    } else if nested_challenge(body, "comment"@) is Some {
        nested_challenge(body, "comment"@)
    } else {
        nested_challenge(body, "post"@)
    }
}

/// The instructions of a challenge object; empty when missing.
pub open spec fn challenge_instructions(v: JsonValue) -> Seq<char> {
    match str_field(v, "instructions"@) {
        Some(s) => s,
        None => Seq::<char>::empty(),
    }
}

/// The challenge prompt: `challenge_text`, else `challenge`, else empty.
pub open spec fn challenge_prompt(v: JsonValue) -> Seq<char> {
    match str_field(v, "challenge_text"@) {
        Some(s) => s,
        None => match str_field(v, "challenge"@) {
            Some(s) => s,
            None => Seq::<char>::empty(),
        },
    }
}

/// The correlation code: `verification_code`, else `code`, else empty.
pub open spec fn challenge_code(v: JsonValue) -> Seq<char> {
    match str_field(v, "verification_code"@) {
        Some(s) => s,
        None => match str_field(v, "code"@) {
            Some(s) => s,
            None => Seq::<char>::empty(),
        },
    }
}

/// What the detector reports for one body.
pub open spec fn detection(body: JsonValue) -> Detection {
    match found_challenge(body) {
        Some(v) => Detection::Challenge {
            instructions: challenge_instructions(v),
            challenge: challenge_prompt(v),
            code: challenge_code(v),
        },
        None => {
            if bool_field(body, "verification_required"@) == Some(true) {
                Detection::DetailsMissing
            } else {
                Detection::NoChallenge
            }
        },
    }
}

/// The abstract value of a concrete outcome.
pub open spec fn outcome_view(r: VerificationOutcome) -> Detection {
    match r {
        VerificationOutcome::Challenge { instructions, challenge, code } => Detection::Challenge {
            instructions: instructions@,
            challenge: challenge@,
            code: code@,
        },
        VerificationOutcome::DetailsMissing => Detection::DetailsMissing,
        VerificationOutcome::NoChallenge => Detection::NoChallenge,
    }
}

/// The display lines for one detection, given the label of the action
/// that produced the response.
pub open spec fn render_lines(d: Detection, action: Seq<char>) -> Seq<Seq<char>> {
    match d {
        Detection::Challenge { instructions, challenge, code } => seq![
            "Verification Required"@,
            instructions,
            "Challenge: "@ + challenge,
            "To complete your "@ + action + ", run:"@,
            "  moltbook verify --code \""@ + code + "\" --solution \"<YOUR_ANSWER>\""@,
        ],
        Detection::DetailsMissing => seq![
            "Verification is required, but challenge details are missing from the response."@,
        ],
        Detection::NoChallenge => Seq::<Seq<char>>::empty(),
    }
}

/// Scans a parsed response body for an embedded challenge.
pub fn detect_verification(body: &JsonValue) -> (r: VerificationOutcome)
    ensures
        outcome_view(r) == detection(*body),
{
    let mut found: Option<&JsonValue> = body.get_object("verification");
    if found.is_none() {
        if let Some(inner) = body.get_field("comment") {
            found = inner.get_object("verification");
        }
    }
    if found.is_none() {
        if let Some(inner) = body.get_field("post") {
            found = inner.get_object("verification");
        }
    }
    match found {
        Some(v) => {
            let instructions = match v.get_str("instructions") {
                Some(s) => s,
                None => String::new(),
            };
            let challenge = match v.get_str("challenge_text") {
                Some(s) => s,
                None => match v.get_str("challenge") {
                    Some(s) => s,
                    None => String::new(),
                },
            };
            let code = match v.get_str("verification_code") {
                Some(s) => s,
                None => match v.get_str("code") {
                    Some(s) => s,
                    None => String::new(),
                },
            };
            VerificationOutcome::Challenge { instructions, challenge, code }
        },
        None => {
            match body.get_bool("verification_required") {
                Some(true) => VerificationOutcome::DetailsMissing,
                _ => VerificationOutcome::NoChallenge,
            }
        },
    }
}

/// Detects a challenge and renders its display lines.
///
/// Returns `true` exactly when a challenge (or the degraded
/// `verification_required` signal) is present — the caller must then
/// treat the underlying action as not yet complete — together with the
/// lines to show the operator.
pub fn handle_verification(body: &JsonValue, action: &str) -> (r: (bool, Vec<String>))
    ensures
        r.0 == !(detection(*body) is NoChallenge),
        r.1.deep_view() == render_lines(detection(*body), action@),
{
    let outcome = detect_verification(body);
    let mut lines: Vec<String> = Vec::new();
    match outcome {
        VerificationOutcome::Challenge { instructions, challenge, code } => {
            lines.push(String::from_str("Verification Required"));
            lines.push(instructions);
            let mut prompt_line = String::from_str("Challenge: ");
            prompt_line.append(challenge.as_str());
            lines.push(prompt_line);
            let mut action_line = String::from_str("To complete your ");
            action_line.append(action);
            action_line.append(", run:");
            lines.push(action_line);
            let mut command_line = String::from_str("  moltbook verify --code \"");
            command_line.append(code.as_str());
            command_line.append("\" --solution \"<YOUR_ANSWER>\"");
            lines.push(command_line);
            proof {
                assert(lines.deep_view() =~~= render_lines(detection(*body), action@));
            }
            (true, lines)
        },
        VerificationOutcome::DetailsMissing => {
            lines.push(
                String::from_str(
                    "Verification is required, but challenge details are missing from the response.",
                ),
            );
            proof {
                assert(lines.deep_view() =~~= render_lines(detection(*body), action@));
            }
            (true, lines)
        },
        VerificationOutcome::NoChallenge => {
            proof {
                assert(lines.deep_view() =~~= render_lines(detection(*body), action@));
            }
            (false, lines)
        },
    }
}

} // verus!
