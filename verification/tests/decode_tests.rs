use helius_ws_client::decode::{decode, extract_accounts};
use helius_ws_client::json::JsonValue;
use helius_ws_client::WsError;

fn record_payload() -> String {
    "{\"result\":{\"transaction\":{\"message\":{\"accountKeys\":[\"A\",\"B\",3,\"C\"]}}}}"
        .to_string()
}

#[test]
fn non_string_entries_are_dropped() {
    let r = decode(&record_payload());
    assert_eq!(
        r,
        Ok(Some(vec!["A".to_string(), "B".to_string(), "C".to_string()]))
    );
}

#[test]
fn missing_path_segment_yields_no_record() {
    assert_eq!(decode("{}"), Ok(None));
    assert_eq!(decode("{\"result\":{}}"), Ok(None));
    assert_eq!(decode("{\"result\":{\"transaction\":{}}}"), Ok(None));
    assert_eq!(
        decode("{\"result\":{\"transaction\":{\"message\":{}}}}"),
        Ok(None)
    );
    assert_eq!(decode("{\"jsonrpc\":\"2.0\",\"id\":1}"), Ok(None));
}

#[test]
fn non_array_account_keys_yields_no_record() {
    assert_eq!(
        decode("{\"result\":{\"transaction\":{\"message\":{\"accountKeys\":5}}}}"),
        Ok(None)
    );
}

#[test]
fn non_structured_text_is_an_error() {
    assert_eq!(decode("nonsense"), Err(WsError::JsonError));
    assert_eq!(decode(""), Err(WsError::JsonError));
    assert_eq!(decode("{\"result\":"), Err(WsError::JsonError));
}

#[test]
fn empty_account_keys_is_an_empty_record() {
    assert_eq!(
        decode("{\"result\":{\"transaction\":{\"message\":{\"accountKeys\":[]}}}}"),
        Ok(Some(vec![]))
    );
}

fn wrap(key: &str, v: JsonValue) -> JsonValue {
    JsonValue::Obj(vec![(key.to_string(), v)])
}

#[test]
fn extraction_walks_the_nested_path() {
    let keys = JsonValue::Arr(vec![
        JsonValue::Str("A".to_string()),
        JsonValue::Num,
        JsonValue::Bool(true),
        JsonValue::Null,
        JsonValue::Arr(vec![JsonValue::Str("nested".to_string())]),
        JsonValue::Obj(vec![("k".to_string(), JsonValue::Str("v".to_string()))]),
        JsonValue::Str("B".to_string()),
    ]);
    let v = wrap("result", wrap("transaction", wrap("message", wrap("accountKeys", keys))));
    assert_eq!(
        extract_accounts(&v),
        Some(vec!["A".to_string(), "B".to_string()])
    );
}

#[test]
fn extraction_needs_every_segment() {
    let v = wrap("result", wrap("transaction", wrap("wrong", JsonValue::Arr(vec![]))));
    assert_eq!(extract_accounts(&v), None);
    assert_eq!(extract_accounts(&JsonValue::Null), None);
}

#[test]
fn lookup_takes_the_first_matching_field() {
    let v = JsonValue::Obj(vec![
        ("a".to_string(), JsonValue::Str("first".to_string())),
        ("a".to_string(), JsonValue::Str("second".to_string())),
    ]);
    match v.get("a") {
        Some(JsonValue::Str(s)) => assert_eq!(s, "first"),
        other => panic!("unexpected field {:?}", other),
    }
    assert!(v.get("b").is_none());
}

#[test]
fn decode_agrees_with_an_independent_parser() {
    // The trusted parse step must hand over the payload's real structure,
    // not something of its own: check a value against serde_json directly.
    let payload = record_payload();
    let v: serde_json::Value = serde_json::from_str(&payload).unwrap();
    let expected: Vec<String> = v["result"]["transaction"]["message"]["accountKeys"]
        .as_array()
        .unwrap()
        .iter()
        .filter_map(|x| x.as_str().map(|s| s.to_string()))
        .collect();
    assert_eq!(decode(&payload), Ok(Some(expected)));
}
