//! The message decoder: from one inbound text payload to the record it
//! carries, if any.
//!
//! A record is the ordered list of account identifiers found under the nested
//! path `result.transaction.message.accountKeys`. A payload whose shape does
//! not match that path carries no record, which is not an error; only text
//! that is not well-formed structured data at all is an error.
use vstd::prelude::*;
use crate::WsError;
use crate::json::{JsonValue, json_model_of, parse_json, spec_get};

verus! {

/// The views of a vector of strings, element by element.
pub open spec fn views_of(xs: Seq<String>) -> Seq<Seq<char>> {
    xs.map_values(|s: String| s@)
}

/// The value under `result.transaction.message.accountKeys`, if every segment
/// of the path is present.
pub open spec fn spec_account_keys(v: JsonValue) -> Option<JsonValue> {
    match spec_get(v, "result"@) {
        Some(r) => match spec_get(r, "transaction"@) {
            Some(t) => match spec_get(t, "message"@) {
                Some(m) => spec_get(m, "accountKeys"@),
                None => None,
            },
            None => None,
        },
        None => None,
    }
}

/// The string elements of `items`, in order, every other element dropped.
pub open spec fn spec_strings_of(items: Seq<JsonValue>) -> Seq<Seq<char>>
    decreases items.len(),
{
    if items.len() == 0 {
        Seq::empty()
    } else {
        spec_strings_of(items.drop_last()) + (match items.last() {
            JsonValue::Str(s) => seq![s@],
            _ => Seq::empty(),
        })
    }
}

/// The record a parsed payload carries: the string elements of its
/// `accountKeys` array, or nothing when the path is absent or does not end in
/// an array.
pub open spec fn spec_extract(v: JsonValue) -> Option<Seq<Seq<char>>> {
    match spec_account_keys(v) {
        Some(JsonValue::Arr(items)) => Some(spec_strings_of(items@)),
        _ => None,
    }
}

/// Walks a parsed payload down `result.transaction.message.accountKeys` and
/// projects the array there to its string elements. Absence of any path
/// segment, or a non-array at its end, yields no record.
pub fn extract_accounts(v: &JsonValue) -> (r: Option<Vec<String>>)
    ensures
        match r {
            Some(accounts) => spec_extract(*v) == Some(views_of(accounts@)),
            None => spec_extract(*v) is None,
        },
{
    let step1 = match v.get("result") {
        Some(x) => x,
        None => { return None; },
    };
    let step2 = match step1.get("transaction") {
        Some(x) => x,
        None => { return None; },
    };
    let step3 = match step2.get("message") {
        Some(x) => x,
        None => { return None; },
    };
    let keys = match step3.get("accountKeys") {
        Some(x) => x,
        None => { return None; },
    };
    let items = match keys {
        JsonValue::Arr(items) => items,
        _ => { return None; },
    };
    let mut accounts: Vec<String> = Vec::new();
    let n = items.len();
    proof {
        assert(items@.take(0) =~= Seq::<JsonValue>::empty());
        assert(views_of(accounts@) =~= spec_strings_of(items@.take(0)));
    }
    for i in 0..n
        invariant
            n == items.len(),
            views_of(accounts@) == spec_strings_of(items@.take(i as int)),
    {
        match &items[i] {
            JsonValue::Str(s) => {
                let ghost before = accounts@;
                accounts.push(s.clone());
                proof {
                    assert(views_of(accounts@) =~= views_of(before).push(s@));
                }
            },
            _ => {},
        }
        proof {
            let taken = items@.take(i as int + 1);
            assert(taken.drop_last() =~= items@.take(i as int));
            assert(taken.last() == items@[i as int]);
            assert(views_of(accounts@) =~= spec_strings_of(items@.take(i as int + 1)));
        }
    }
    proof {
        assert(items@.take(n as int) =~= items@);
    }
    Some(accounts)
}

/// Decodes one inbound text payload.
///
/// Text that does not parse as structured data is the one error; a payload
/// that parses but does not match the expected path yields `Ok(None)`; a
/// matching payload yields its record.
pub fn decode(payload: &str) -> (r: Result<Option<Vec<String>>, WsError>)
    ensures
        json_model_of(payload@) is None <==> r == Result::<Option<Vec<String>>, WsError>::Err(
            WsError::JsonError,
        ),
        json_model_of(payload@) matches Some(v) ==> match r {
            Ok(Some(accounts)) => spec_extract(v) == Some(views_of(accounts@)),
            Ok(None) => spec_extract(v) is None,
            Err(_) => false,
        },
{
    match parse_json(payload) {
        Some(v) => Ok(extract_accounts(&v)),
        None => Err(WsError::JsonError),
    }
}

} // verus!
