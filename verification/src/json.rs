//! A plain model of parsed JSON documents.
//!
//! The Moltbook wire protocol is JSON everywhere, but the client's decision
//! logic only ever reads a handful of shapes: object fields that hold
//! strings, booleans, unsigned integers, or nested objects. `JsonValue`
//! holds exactly those observations as plain values, so that the classifier
//! and the verification detector can be specified and verified over it.
//! Turning raw body text into a `JsonValue` is the work of an outside JSON
//! parser, behind the trusted boundary in `parse`.

use vstd::prelude::*;

verus! {

/// A parsed JSON document.
///
/// Numbers keep the distinctions the protocol relies on: `UInt` holds any
/// integer representable as `u64` (the only numeric shape the protocol
/// reads), `Int` holds a negative integer representable as `i64`, and
/// `Frac` stands for any other number (fractional, or out of both ranges);
/// its magnitude is never read, so it is not held.
#[derive(Debug, PartialEq)]
pub enum JsonValue {
    Null,
    Bool(bool),
    UInt(u64),
    Int(i64),
    Frac,
    Text(String),
    Arr(Vec<JsonValue>),
    Obj(Vec<(String, JsonValue)>),
}

/// The value under `key` in an entry list; the first match wins.
pub open spec fn entries_lookup(entries: Seq<(String, JsonValue)>, key: Seq<char>) -> Option<
    JsonValue,
>
    decreases entries.len(),
{
    if entries.len() == 0 {
        None
    } else if entries[0].0@ == key {
        Some(entries[0].1)
    } else {
        entries_lookup(entries.drop_first(), key)
    }
}

/// The value of field `key` of `v`: present only when `v` is an object
/// holding that key.
pub open spec fn field_of(v: JsonValue, key: Seq<char>) -> Option<JsonValue> {
    match v {
        JsonValue::Obj(entries) => entries_lookup(entries@, key),
        _ => None,
    }
}

/// The text of field `key`, when it is present and holds a string.
pub open spec fn str_field(v: JsonValue, key: Seq<char>) -> Option<Seq<char>> {
    match field_of(v, key) {
        Some(JsonValue::Text(s)) => Some(s@),
        _ => None,
    }
}

/// The value of field `key`, when it is present and holds an unsigned
/// integer.
pub open spec fn u64_field(v: JsonValue, key: Seq<char>) -> Option<u64> {
    match field_of(v, key) {
        Some(JsonValue::UInt(n)) => Some(n),
        _ => None,
    }
}

/// The value of field `key`, when it is present and holds a boolean.
pub open spec fn bool_field(v: JsonValue, key: Seq<char>) -> Option<bool> {
    match field_of(v, key) {
        Some(JsonValue::Bool(b)) => Some(b),
        _ => None,
    }
}

/// The value of field `key`, when it is present and holds an object.
pub open spec fn obj_field(v: JsonValue, key: Seq<char>) -> Option<JsonValue> {
    match field_of(v, key) {
        Some(JsonValue::Obj(entries)) => Some(JsonValue::Obj(entries)),
        _ => None,
    }
}

impl JsonValue {
    /// Whether this value is an object.
    pub open spec fn spec_is_object(&self) -> bool {
        self is Obj
    }

    /// Whether this value is an object.
    #[verifier::when_used_as_spec(spec_is_object)]
    pub fn is_object(&self) -> (r: bool)
        ensures
            r == self.spec_is_object(),
    {
        match self {
            JsonValue::Obj(_) => true,
            _ => false,
        }
    }

    /// Looks a field up, as `Value::get` of a JSON library does: `None`
    /// whenever `self` is not an object or lacks the key.
    pub fn get_field<'a>(&'a self, key: &str) -> (r: Option<&'a JsonValue>)
        ensures
            match r {
                Some(f) => field_of(*self, key@) == Some(*f),
                None => field_of(*self, key@) is None,
            },
    {
        let key_owned = String::from_str(key);
        match self {
            JsonValue::Obj(entries) => {
                let n = entries.len();
                let mut i: usize = 0;
                proof {
                    assert(entries@.skip(0) =~= entries@);
                }
                while i < n
                    invariant
                        i <= n,
                        n == entries@.len(),
                        entries_lookup(entries@.skip(i as int), key@) == entries_lookup(
                            entries@,
                            key@,
                        ),
                        key_owned@ == key@,
                        *self == JsonValue::Obj(*entries),
                    decreases n - i,
                {
                    if entries[i].0 == key_owned {
                        proof {
                            assert(entries@.skip(i as int).len() > 0);
                            assert(entries@.skip(i as int)[0] == entries@[i as int]);
                            assert(entries_lookup(entries@.skip(i as int), key@) == Some(
                                entries@[i as int].1,
                            ));
                        }
                        return Some(&entries[i].1);
                    }
                    proof {
                        assert(entries@.skip(i as int).drop_first() =~= entries@.skip(
                            i as int + 1,
                        ));
                    }
                    i = i + 1;
                }
                proof {
                    assert(entries@.skip(n as int).len() == 0);
                }
                None
            },
            _ => None,
        }
    }

    /// The field's text when it holds a string, as `as_str` on a looked-up
    /// value: `None` when the field is missing or not a string.
    pub fn get_str(&self, key: &str) -> (r: Option<String>)
        ensures
            match r {
                Some(s) => str_field(*self, key@) == Some(s@),
                None => str_field(*self, key@) is None,
            },
    {
        match self.get_field(key) {
            Some(JsonValue::Text(s)) => Some(s.clone()),
            _ => None,
        }
    }

    /// The field's value when it holds an unsigned integer.
    pub fn get_u64(&self, key: &str) -> (r: Option<u64>)
        ensures
            r == u64_field(*self, key@),
    {
        match self.get_field(key) {
            Some(JsonValue::UInt(n)) => Some(*n),
            _ => None,
        }
    }

    /// The field's value when it holds a boolean.
    pub fn get_bool(&self, key: &str) -> (r: Option<bool>)
        ensures
            r == bool_field(*self, key@),
    {
        match self.get_field(key) {
            Some(JsonValue::Bool(b)) => Some(*b),
            _ => None,
        }
    }

    /// The field's value when it holds an object.
    pub fn get_object<'a>(&'a self, key: &str) -> (r: Option<&'a JsonValue>)
        ensures
            match r {
                Some(f) => obj_field(*self, key@) == Some(*f) && *f is Obj,
                None => obj_field(*self, key@) is None,
            },
    {
        match self.get_field(key) {
            Some(f) => {
                if f.is_object() {
                    Some(f)
                } else {
                    None
                }
            },
            None => None,
        }
    }
}

} // verus!
