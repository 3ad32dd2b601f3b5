//! A plain model of JSON documents, filled by `serde_json` and read by
//! verified code.
//!
//! Numbers keep their decimal text, so nothing is lost between the parse and
//! the verified logic that interprets them.

use vstd::prelude::*;

use crate::text::{all_digits, dec_value, parse_u64_range, str_eq};

verus! {

#[verifier::external_type_specification]
#[verifier::external_body]
pub struct ExSerdeJsonValue(serde_json::Value);

/// A parsed JSON document, as plain values.
#[derive(Debug)]
pub enum JsonValue {
    /// `null`.
    Null,
    /// `true` or `false`.
    Bool(bool),
    /// A number, kept as its decimal text.
    Num(String),
    /// A string.
    Str(String),
    /// An array.
    Array(Vec<JsonValue>),
    /// An object: fields sorted by key, keys unique, as the parser
    /// delivers them.
    Object(Vec<(String, JsonValue)>),
}

/// What `serde_json` parses a text into, carried over into [`JsonValue`]:
/// a function of the text alone, or nothing when the text is not JSON.
pub uninterp spec fn json_of(s: Seq<char>) -> Option<JsonValue>;

/// Relies on `serde_json::from_str::<serde_json::Value>`: the parse of a
/// JSON text, a function of the text alone; non-JSON input gives `None`.
#[verifier::external_body]
pub fn parse_json(s: &str) -> (r: Option<JsonValue>)
    ensures
        r == json_of(s@),
{
    serde_json::from_str::<serde_json::Value>(s).ok().map(|v| convert_value(&v))
}

/// Relies on `serde_json::Value`: carries each variant of the parsed value
/// into the library's model, one arm per variant, numbers as their text.
#[verifier::external_body]
fn convert_value(v: &serde_json::Value) -> JsonValue {
    match v {
        serde_json::Value::Null => JsonValue::Null,
        serde_json::Value::Bool(b) => JsonValue::Bool(*b),
        serde_json::Value::Number(n) => JsonValue::Num(n.to_string()),
        serde_json::Value::String(s) => JsonValue::Str(s.clone()),
        serde_json::Value::Array(a) => JsonValue::Array(a.iter().map(convert_value).collect()),
        serde_json::Value::Object(m) => JsonValue::Object(
            m.iter().map(|(k, x)| (k.clone(), convert_value(x))).collect(),
        ),
    }
}

/// The value of `key` in an object's fields: the first binding, if any.
pub open spec fn spec_object_get(fields: Seq<(String, JsonValue)>, key: Seq<char>) -> Option<
    JsonValue,
>
    decreases fields.len(),
{
    if fields.len() == 0 {
        None
    } else if fields[0].0@ == key {
        Some(fields[0].1)
    } else {
        spec_object_get(fields.drop_first(), key)
    }
}

/// The field `key` of a JSON object, or none for other values.
pub open spec fn spec_get(v: JsonValue, key: Seq<char>) -> Option<JsonValue> {
    match v {
        JsonValue::Object(fields) => spec_object_get(fields@, key),
        _ => None,
    }
}

/// The `u64` reading of a JSON value: a `Num` whose text is all digits and
/// fits, as `serde_json`'s `as_u64` reads it.
pub open spec fn spec_as_u64(v: JsonValue) -> Option<u64> {
    match v {
        JsonValue::Num(t) => {
            let b = vstd::utf8::encode_utf8(t@);
            if b.len() > 0 && all_digits(b) && dec_value(b) <= u64::MAX {
                Some(dec_value(b) as u64)
            } else {
                None
            }
        },
        _ => None,
    }
}

impl JsonValue {
    /// Look up a field of an object by key.
    #[verifier::loop_isolation(false)]
    pub fn get<'a>(&'a self, key: &str) -> (r: Option<&'a JsonValue>)
        ensures
            match r {
                Some(x) => spec_get(*self, key@) == Some(*x),
                None => spec_get(*self, key@) is None,
            },
    {
        match self {
            JsonValue::Object(fields) => {
                proof {
                    assert(fields@.subrange(0, fields@.len() as int) =~= fields@);
                }
                let mut i: usize = 0;
                while i < fields.len()
                    invariant
                        i <= fields@.len(),
                        spec_object_get(fields@, key@) == spec_object_get(
                            fields@.subrange(i as int, fields@.len() as int),
                            key@,
                        ),
                    decreases fields@.len() - i,
                {
                    proof {
                        let sub = fields@.subrange(i as int, fields@.len() as int);
                        assert(sub[0] == fields@[i as int]);
                        assert(sub.drop_first() =~= fields@.subrange(
                            i + 1,
                            fields@.len() as int,
                        ));
                    }
                    if str_eq(fields[i].0.as_str(), key) {
                        proof {
                            let sub = fields@.subrange(i as int, fields@.len() as int);
                            assert(sub.len() > 0 && sub[0].0@ == key@);
                            assert(spec_object_get(sub, key@) == Some(sub[0].1));
                            assert(spec_object_get(fields@, key@) == Some(fields@[i as int].1));
                        }
                        return Some(&fields[i].1);
                    }
                    i += 1;
                }
                None
            },
            _ => None,
        }
    }

    /// Read this value as a `u64`, as `as_u64` would.
    pub fn as_u64(&self) -> (r: Option<u64>)
        ensures
            r == spec_as_u64(*self),
    {
        match self {
            JsonValue::Num(t) => {
                let b = t.as_str().as_bytes();
                if b.len() == 0 {
                    proof {
                        assert(vstd::utf8::encode_utf8(t@) =~= b@);
                    }
                    return None;
                }
                let r = parse_u64_range(b, 0, b.len());
                proof {
                    assert(b@.subrange(0, b@.len() as int) =~= b@);
                }
                r
            },
            _ => None,
        }
    }

    /// Read this value as a string slice.
    pub fn as_str<'a>(&'a self) -> (r: Option<&'a str>)
        ensures
            match r {
                Some(s) => self matches JsonValue::Str(t) && t@ == s@,
                None => !(self matches JsonValue::Str(_)),
            },
    {
        match self {
            JsonValue::Str(s) => Some(s.as_str()),
            _ => None,
        }
    }

    /// Read this value as an array.
    pub fn as_array<'a>(&'a self) -> (r: Option<&'a Vec<JsonValue>>)
        ensures
            match r {
                Some(a) => self matches JsonValue::Array(x) && x == a,
                None => !(self matches JsonValue::Array(_)),
            },
    {
        match self {
            JsonValue::Array(a) => Some(a),
            _ => None,
        }
    }
}

} // verus!
