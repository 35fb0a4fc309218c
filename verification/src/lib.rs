//! Core logic of a command-line client for the Moltbook social-network API.
//!
//! The crate centres on two components: a response classifier, which maps an
//! HTTP status code and raw body text to exactly one structured outcome
//! (success, rate limit, CAPTCHA challenge, domain error, or parse failure),
//! and a verification-challenge detector, which scans a successfully parsed
//! response body for an embedded challenge and renders instructions for the
//! operator. Both are specified and verified over a plain model of JSON
//! values; the only unverified step is the call into `serde_json` that turns
//! body text into that model.

pub mod classify;
pub mod display;
pub mod json;
pub mod numeric;
pub mod parse;
pub mod post_params;
pub mod types;
pub mod verification;
