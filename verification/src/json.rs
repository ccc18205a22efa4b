//! A plain model of structured payloads, and the trusted bridge that parses
//! inbound text into it.
//!
//! The decoder's logic reads only three things from a payload: object fields
//! by name, the elements of an array, and string values. `JsonValue` holds
//! exactly that as plain values, so everything downstream of parsing is
//! verified. Numbers and booleans are carried as tags alone: no part of the
//! pipeline reads their contents.
use vstd::prelude::*;

verus! {

/// A parsed payload. Object entries keep the order in which the parser hands
/// them out; lookups take the first entry with a matching name.
#[derive(Debug)]
pub enum JsonValue {
    /// The null literal.
    Null,
    /// A boolean literal.
    Bool(bool),
    /// A number; its value is never read by this pipeline and is not kept.
    Num,
    /// A string value.
    Str(String),
    /// An array of values.
    Arr(Vec<JsonValue>),
    /// An object: named fields in parser order.
    Obj(Vec<(String, JsonValue)>),
}

/// The value of the first entry named `key`, if any.
pub open spec fn spec_lookup(entries: Seq<(String, JsonValue)>, key: Seq<char>) -> Option<
    JsonValue,
>
    decreases entries.len(),
{
    if entries.len() == 0 {
        None
    } else if entries[0].0@ == key {
        Some(entries[0].1)
    } else {
        spec_lookup(entries.drop_first(), key)
    }
}

/// Field access: the value under `key` when `v` is an object that has it.
pub open spec fn spec_get(v: JsonValue, key: Seq<char>) -> Option<JsonValue> {
    match v {
        JsonValue::Obj(entries) => spec_lookup(entries@, key),
        _ => None,
    }
}

impl JsonValue {
    /// Looks up a field of an object by name; `None` on any other value and
    /// on an object without the field.
    pub fn get<'a>(&'a self, key: &str) -> (r: Option<&'a JsonValue>)
        ensures
            match r {
                Some(x) => spec_get(*self, key@) == Some(*x),
                None => spec_get(*self, key@) is None,
            },
    {
        match self {
            JsonValue::Obj(entries) => {
                let key_owned = String::from_str(key);
                let n = entries.len();
                proof {
                    assert(entries@.skip(0) =~= entries@);
                }
                for i in 0..n
                    invariant
                        n == entries.len(),
                        key_owned@ == key@,
                        spec_get(*self, key@) == spec_lookup(entries@, key@),
                        spec_lookup(entries@, key@) == spec_lookup(entries@.skip(i as int), key@),
                {
                    proof {
                        assert(entries@.skip(i as int)[0] == entries@[i as int]);
                    }
                    if entries[i].0 == key_owned {
                        proof {
                            assert(spec_lookup(entries@.skip(i as int), key@) == Some(
                                entries@[i as int].1,
                            ));
                        }
                        return Some(&entries[i].1);
                    }
                    proof {
                        assert(entries@.skip(i as int).drop_first() =~= entries@.skip(
                            i as int + 1,
                        ));
                    }
                }
                proof {
                    assert(entries@.skip(n as int).len() == 0);
                }
                None
            },
            _ => None,
        }
    }
}

#[verifier::external_type_specification]
#[verifier::external_body]
pub struct ExSerdeValue(serde_json::Value);

/// What parsing a payload yields: `None` when the text is not well-formed,
/// otherwise the parsed value in the library's model. Parsing depends on the
/// text alone, so the outcome has a name that contracts can share; nothing in
/// the crate states what the name is on given text.
pub uninterp spec fn json_model_of(s: Seq<char>) -> Option<JsonValue>;

/// Relies on `serde_json::from_str::<serde_json::Value>`: it parses the text
/// as generic structured data, deterministically, accepting exactly
/// well-formed payloads; the parsed value is carried over into the library's
/// model by `value_model`.
#[verifier::external_body]
pub(crate) fn parse_json(s: &str) -> (r: Option<JsonValue>)
    ensures
        r == json_model_of(s@),
{
    match serde_json::from_str::<serde_json::Value>(s) {
        Ok(v) => Some(value_model(&v)),
        Err(_) => None,
    }
}

/// Relies on the shape of `serde_json::Value`: each variant is carried over
/// to the matching variant of the library's model, field for field; numbers
/// become the bare `Num` tag, whose contents nothing reads.
#[verifier::external_body]
fn value_model(v: &serde_json::Value) -> JsonValue {
    match v {
        serde_json::Value::Null => JsonValue::Null,
        serde_json::Value::Bool(b) => JsonValue::Bool(*b),
        serde_json::Value::Number(_) => JsonValue::Num,
        serde_json::Value::String(s) => JsonValue::Str(s.clone()),
        serde_json::Value::Array(items) => JsonValue::Arr(
            items.iter().map(|x| value_model(x)).collect(),
        ),
        serde_json::Value::Object(entries) => JsonValue::Obj(
            entries.iter().map(|(k, x)| (k.clone(), value_model(x))).collect(),
        ),
    }
}

} // verus!
