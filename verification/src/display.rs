//! The computable part of terminal display decisions.
//!
//! Measuring the terminal and reading the clock belong to the layer
//! around the library; the decisions taken on those measurements — how
//! wide a layout may be, and which relative-time bucket a timestamp
//! falls into — are plain functions and are verified here.

use crate::numeric::{dec_rep, u64_to_dec};
use vstd::prelude::*;

verus! {

/// The usable layout width for a measured terminal width: two columns
/// of margin, but never below forty columns.
pub fn usable_width(measured: usize) -> (r: usize)
    ensures
        r == if measured >= 42 {
            measured - 2
        } else {
            40
        },
{
    if measured >= 42 {
        measured - 2
    } else {
        40
    }
}

/// The relative-time label for an age in seconds: `None` once the age
/// reaches a week, when an absolute date is shown instead.
pub open spec fn relative_label_model(secs: int) -> Option<Seq<char>> {
    if secs < 60 {
        Some("just now"@)
    } else if secs / 60 < 60 {
        Some(dec_rep((secs / 60) as nat) + "m ago"@)
    } else if secs / 3600 < 24 {
        Some(dec_rep((secs / 3600) as nat) + "h ago"@)
    } else if secs / 86400 < 7 {
        Some(dec_rep((secs / 86400) as nat) + "d ago"@)
    } else {
        None
    }
}

/// Buckets an item's age into a relative-time label. A negative age (a
/// timestamp in the future) reads as `just now`; an age of a week or
/// more yields `None`, and the caller shows the absolute date.
pub fn relative_label(diff_seconds: i64) -> (r: Option<String>)
    ensures
        match r {
            Some(s) => relative_label_model(diff_seconds as int) == Some(s@),
            None => relative_label_model(diff_seconds as int) is None,
        },
{
    if diff_seconds < 60 {
        return Some(String::from_str("just now"));
    }
    let secs = diff_seconds as u64;
    let minutes = secs / 60;
    if minutes < 60 {
        return Some(u64_to_dec(minutes).concat("m ago"));
    }
    let hours = secs / 3600;
    if hours < 24 {
        return Some(u64_to_dec(hours).concat("h ago"));
    }
    let days = secs / 86400;
    if days < 7 {
        return Some(u64_to_dec(days).concat("d ago"));
    }
    None
}

} // verus!
