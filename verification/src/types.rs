//! The typed records of the Moltbook API, and the credentials record.
//!
//! These are the shapes the command layer reads once a response has been
//! classified as successful. They hold plain values only; the layer that
//! talks HTTP keeps its own serializable copies and converts. The
//! conversions from parsed JSON that the core protocol needs — the
//! generic response envelope, the credentials file, and the verification
//! challenge — are verified here, with the same tolerance rules the wire
//! contract documents: a missing optional field or a JSON null reads as
//! absent, a present field of the wrong shape rejects the record.

use crate::json::{bool_field, field_of, str_field, u64_field, JsonValue};
use vstd::prelude::*;

verus! {

/// A generic wrapper for Moltbook API responses: the envelope fields,
/// and the remaining payload fields under `data`.
#[derive(Debug, PartialEq)]
pub struct ApiResponse<T> {
    /// Whether the operation succeeded.
    pub success: bool,
    /// The payload: every field of the response that is not part of the
    /// envelope.
    pub data: Option<T>,
    /// An error message, when `success` is false.
    pub error: Option<String>,
    /// A hint for resolving the error.
    pub hint: Option<String>,
    /// Rate-limit cooldown in minutes, if any.
    pub retry_after_minutes: Option<u64>,
    /// Rate-limit cooldown in seconds, if any.
    pub retry_after_seconds: Option<u64>,
}

/// Information about the human owner of an agent.
#[derive(Debug, PartialEq)]
pub struct OwnerInfo {
    pub x_handle: Option<String>,
    pub x_name: Option<String>,
    pub x_avatar: Option<String>,
    pub x_bio: Option<String>,
    pub x_follower_count: Option<u64>,
    pub x_following_count: Option<u64>,
    pub x_verified: Option<bool>,
}

/// Aggregated activity statistics for an agent.
#[derive(Debug, PartialEq)]
pub struct AgentStats {
    pub posts: Option<u64>,
    pub comments: Option<u64>,
    pub subscriptions: Option<u64>,
}

/// A verification challenge as some endpoints embed it in their typed
/// responses.
#[derive(Debug, PartialEq)]
pub struct VerificationChallenge {
    pub code: String,
    pub challenge: String,
    pub instructions: String,
    pub verify_endpoint: String,
}

/// Simplified author information used in lists and feeds.
#[derive(Debug, PartialEq)]
pub struct Author {
    pub id: Option<String>,
    pub name: String,
    pub description: Option<String>,
    pub karma: Option<i64>,
    pub follower_count: Option<u64>,
    pub owner: Option<OwnerInfo>,
    pub avatar_url: Option<String>,
}

/// Metadata about a submolt context.
#[derive(Debug, PartialEq)]
pub struct SubmoltInfo {
    pub name: String,
    pub display_name: String,
}

/// A direct-message request from another agent.
#[derive(Debug, PartialEq)]
pub struct DmRequest {
    pub from: Author,
    pub message: Option<String>,
    pub message_preview: Option<String>,
    pub conversation_id: String,
}

/// An active direct-message conversation thread.
#[derive(Debug, PartialEq)]
pub struct Conversation {
    pub conversation_id: String,
    pub with_agent: Author,
    pub unread_count: u64,
}

/// One message within a conversation thread.
#[derive(Debug, PartialEq)]
pub struct Message {
    pub from_agent: Author,
    pub message: String,
    pub from_you: bool,
    pub needs_human_input: bool,
    pub created_at: String,
}

/// Pagination context of a feed response.
#[derive(Debug, PartialEq)]
pub struct FeedContext {
    pub page: Option<u64>,
    pub limit: Option<u64>,
    pub total: Option<u64>,
}

/// Response from the DM activity check endpoint.
#[derive(Debug, PartialEq)]
pub struct DmCheckResponse {
    pub has_activity: bool,
    pub summary: Option<String>,
    pub requests: Option<DmRequestsData>,
    pub messages: Option<DmMessagesData>,
}

/// Metadata about pending DM requests.
#[derive(Debug, PartialEq)]
pub struct DmRequestsData {
    pub count: Option<u64>,
    pub items: Vec<DmRequest>,
}

/// Metadata about unread messages.
#[derive(Debug, PartialEq)]
pub struct DmMessagesData {
    pub total_unread: u64,
}

/// Response listing DM conversations.
#[derive(Debug, PartialEq)]
pub struct DmListResponse {
    pub conversations: DmConversationsData,
    pub total_unread: u64,
}

/// The conversations of a DM list response.
#[derive(Debug, PartialEq)]
pub struct DmConversationsData {
    pub items: Vec<Conversation>,
}

/// Response from the registration endpoint.
#[derive(Debug, PartialEq)]
pub struct RegistrationResponse {
    pub success: bool,
    pub agent: RegisteredAgent,
}

/// Details provided upon successful agent registration.
#[derive(Debug, PartialEq)]
pub struct RegisteredAgent {
    pub name: String,
    pub api_key: String,
    pub claim_url: String,
    pub verification_code: String,
}

/// The CLI configuration: the credentials the client authenticates with.
#[derive(Debug, PartialEq)]
pub struct Config {
    /// The Moltbook API key used for authentication.
    pub api_key: String,
    /// The name of the agent associated with this key.
    pub agent_name: String,
}

/// Whether `k` is one of the envelope fields of `ApiResponse`; every
/// other field of a response belongs to the payload.
pub open spec fn is_envelope_key(k: Seq<char>) -> bool {
    ||| k == "success"@
    ||| k == "error"@
    ||| k == "hint"@
    ||| k == "retry_after_minutes"@
    ||| k == "retry_after_seconds"@
}

/// The payload fields of a response: its entries without the envelope.
pub open spec fn payload_entries(entries: Seq<(String, JsonValue)>) -> Seq<(String, JsonValue)> {
    entries.filter(|e: (String, JsonValue)| !is_envelope_key(e.0@))
}

/// Whether an optional string field is acceptable: absent, null, or a
/// string.
pub open spec fn opt_str_ok(v: JsonValue, key: Seq<char>) -> bool {
    match field_of(v, key) {
        None => true,
        Some(JsonValue::Null) => true,
        Some(JsonValue::Text(_)) => true,
        Some(_) => false,
    }
}

/// Whether an optional unsigned-integer field is acceptable: absent,
/// null, or an unsigned integer.
pub open spec fn opt_u64_ok(v: JsonValue, key: Seq<char>) -> bool {
    match field_of(v, key) {
        None => true,
        Some(JsonValue::Null) => true,
        Some(JsonValue::UInt(_)) => true,
        Some(_) => false,
    }
}

/// The text of an optional `String` field.
pub open spec fn opt_text_view(o: Option<String>) -> Option<Seq<char>> {
    match o {
        Some(s) => Some(s@),
        None => None,
    }
}

/// Whether a parsed body deserializes as a response envelope: an object
/// with a boolean `success` and well-shaped optional envelope fields.
pub open spec fn api_response_accepts(v: JsonValue) -> bool {
    &&& v is Obj
    &&& bool_field(v, "success"@) is Some
    &&& opt_str_ok(v, "error"@)
    &&& opt_str_ok(v, "hint"@)
    &&& opt_u64_ok(v, "retry_after_minutes"@)
    &&& opt_u64_ok(v, "retry_after_seconds"@)
}

impl ApiResponse<JsonValue> {
    /// Reads a response envelope off a parsed body: the envelope fields
    /// by name, and everything else gathered under `data`.
    pub fn from_json(v: JsonValue) -> (r: Option<ApiResponse<JsonValue>>)
        ensures
            match r {
                Some(resp) => {
                    &&& api_response_accepts(v)
                    &&& Some(resp.success) == bool_field(v, "success"@)
                    &&& opt_text_view(resp.error) == str_field(v, "error"@)
                    &&& opt_text_view(resp.hint) == str_field(v, "hint"@)
                    &&& resp.retry_after_minutes == u64_field(v, "retry_after_minutes"@)
                    &&& resp.retry_after_seconds == u64_field(v, "retry_after_seconds"@)
                    &&& resp.data matches Some(JsonValue::Obj(es)) && es@ == payload_entries(
                        v->Obj_0@,
                    )
                },
                None => !api_response_accepts(v),
            },
    {
        let success = match v.get_bool("success") {
            Some(b) => b,
            None => {
                return None;
            },
        };
        let error = match v.get_field("error") {
            None => None,
            Some(JsonValue::Null) => None,
            Some(JsonValue::Text(s)) => Some(s.clone()),
            Some(_) => {
                return None;
            },
        };
        let hint = match v.get_field("hint") {
            None => None,
            Some(JsonValue::Null) => None,
            Some(JsonValue::Text(s)) => Some(s.clone()),
            Some(_) => {
                return None;
            },
        };
        let retry_after_minutes = match v.get_field("retry_after_minutes") {
            None => None,
            Some(JsonValue::Null) => None,
            Some(JsonValue::UInt(n)) => Some(*n),
            Some(_) => {
                return None;
            },
        };
        let retry_after_seconds = match v.get_field("retry_after_seconds") {
            None => None,
            Some(JsonValue::Null) => None,
            Some(JsonValue::UInt(n)) => Some(*n),
            Some(_) => {
                return None;
            },
        };
        match v {
            JsonValue::Obj(mut entries) => {
                let ghost orig = entries@;
                let mut rest: Vec<(String, JsonValue)> = Vec::new();
                proof {
                    reveal(Seq::filter);
                    assert(orig.take(0) =~= Seq::<(String, JsonValue)>::empty());
                    assert(payload_entries(orig.take(0)) =~= Seq::<(String, JsonValue)>::empty());
                }
                while entries.len() > 0
                    invariant
                        entries@.len() <= orig.len(),
                        entries@ =~= orig.skip(orig.len() - entries@.len()),
                        rest@ == payload_entries(orig.take(orig.len() - entries@.len())),
                    decreases entries@.len(),
                {
                    let ghost j = orig.len() - entries@.len();
                    let e = entries.remove(0);
                    proof {
                        reveal(Seq::filter);
                        assert(e == orig[j]);
                        assert(entries@ =~= orig.skip(j + 1));
                        assert(orig.take(j + 1).drop_last() =~= orig.take(j));
                        assert(orig.take(j + 1).last() == orig[j]);
                        assert(payload_entries(orig.take(j + 1)) == (if !is_envelope_key(
                            orig[j].0@,
                        ) {
                            payload_entries(orig.take(j)).push(orig[j])
                        } else {
                            payload_entries(orig.take(j))
                        }));
                    }
                    let keep = !(e.0 == String::from_str("success") || e.0 == String::from_str(
                        "error",
                    ) || e.0 == String::from_str("hint") || e.0 == String::from_str(
                        "retry_after_minutes",
                    ) || e.0 == String::from_str("retry_after_seconds"));
                    proof {
                        assert(keep == !is_envelope_key(e.0@));
                    }
                    if keep {
                        rest.push(e);
                    }
                }
                proof {
                    assert(orig.take(orig.len() as int) =~= orig);
                }
                Some(
                    ApiResponse {
                        success,
                        data: Some(JsonValue::Obj(rest)),
                        error,
                        hint,
                        retry_after_minutes,
                        retry_after_seconds,
                    },
                )
            },
            _ => {
                proof {
                    assert(false);
                }
                None
            },
        }
    }
}

impl VerificationChallenge {
    /// Reads a challenge record off a parsed body; every field is
    /// required to be a string.
    pub fn from_json(v: &JsonValue) -> (r: Option<VerificationChallenge>)
        ensures
            match r {
                Some(c) => {
                    &&& Some(c.code@) == str_field(*v, "code"@)
                    &&& Some(c.challenge@) == str_field(*v, "challenge"@)
                    &&& Some(c.instructions@) == str_field(*v, "instructions"@)
                    &&& Some(c.verify_endpoint@) == str_field(*v, "verify_endpoint"@)
                },
                None => {
                    ||| str_field(*v, "code"@) is None
                    ||| str_field(*v, "challenge"@) is None
                    ||| str_field(*v, "instructions"@) is None
                    ||| str_field(*v, "verify_endpoint"@) is None
                },
            },
    {
        let code = match v.get_str("code") {
            Some(s) => s,
            None => {
                return None;
            },
        };
        let challenge = match v.get_str("challenge") {
            Some(s) => s,
            None => {
                return None;
            },
        };
        let instructions = match v.get_str("instructions") {
            Some(s) => s,
            None => {
                return None;
            },
        };
        let verify_endpoint = match v.get_str("verify_endpoint") {
            Some(s) => s,
            None => {
                return None;
            },
        };
        Some(VerificationChallenge { code, challenge, instructions, verify_endpoint })
    }
}

impl Config {
    /// Reads the credentials record off a parsed configuration file;
    /// both fields are required to be strings.
    pub fn from_json(v: &JsonValue) -> (r: Option<Config>)
        ensures
            match r {
                Some(c) => {
                    &&& Some(c.api_key@) == str_field(*v, "api_key"@)
                    &&& Some(c.agent_name@) == str_field(*v, "agent_name"@)
                },
                None => str_field(*v, "api_key"@) is None || str_field(*v, "agent_name"@) is None,
            },
    {
        let api_key = match v.get_str("api_key") {
            Some(s) => s,
            None => {
                return None;
            },
        };
        let agent_name = match v.get_str("agent_name") {
            Some(s) => s,
            None => {
                return None;
            },
        };
        Some(Config { api_key, agent_name })
    }
}

} // verus!
