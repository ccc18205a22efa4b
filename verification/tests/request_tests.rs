use helius_ws_client::HeliusWsClient;
use helius_ws_client::WsError;
use helius_ws_client::encode::encode_accounts;

#[test]
fn subscribe_request_has_the_documented_shape() {
    let c = HeliusWsClient::new("key".to_string(), "PROG".to_string());
    assert_eq!(
        c.subscribe_request(),
        "{\"jsonrpc\":\"2.0\",\"id\":1,\"method\":\"programSubscribe\",\"params\":[\"PROG\",{\"encoding\":\"jsonParsed\",\"commitment\":\"confirmed\"}]}"
    );
}

#[test]
fn subscribe_request_is_valid_json_with_the_filter_verbatim() {
    let filter = "11111111111111111111111111111111";
    let c = HeliusWsClient::new("key".to_string(), filter.to_string());
    let v: serde_json::Value = serde_json::from_str(&c.subscribe_request()).unwrap();
    assert_eq!(v["jsonrpc"].as_str(), Some("2.0"));
    assert_eq!(v["id"].as_i64(), Some(1));
    assert_eq!(v["method"].as_str(), Some("programSubscribe"));
    assert_eq!(v["params"][0].as_str(), Some(filter));
    assert_eq!(v["params"][1]["encoding"].as_str(), Some("jsonParsed"));
    assert_eq!(v["params"][1]["commitment"].as_str(), Some("confirmed"));
}

#[test]
fn awkward_filter_is_escaped_and_round_trips() {
    let filter = "a\"b\\c\nd\u{1f}e";
    let c = HeliusWsClient::new("key".to_string(), filter.to_string());
    let v: serde_json::Value = serde_json::from_str(&c.subscribe_request()).unwrap();
    assert_eq!(v["params"][0].as_str(), Some(filter));
}

#[test]
fn record_encoding_matches_an_independent_encoder() {
    let accounts = vec![
        "plain".to_string(),
        "with \"quotes\" and \\slashes\\".to_string(),
        "control\u{1}chars\ttabs\nnewlines".to_string(),
        "unicode \u{e9}\u{4e16}".to_string(),
    ];
    assert_eq!(
        encode_accounts(&accounts),
        serde_json::to_string(&accounts).unwrap()
    );
}

#[test]
fn record_encoding_of_simple_values() {
    assert_eq!(encode_accounts(&vec![]), "[]");
    assert_eq!(
        encode_accounts(&vec!["A".to_string(), "B".to_string(), "C".to_string()]),
        "[\"A\",\"B\",\"C\"]"
    );
}

#[test]
fn connection_url_embeds_the_credential() {
    let c = HeliusWsClient::new("SECRET".to_string(), "PROG".to_string());
    assert_eq!(
        c.connection_url().unwrap(),
        "wss://mainnet.helius-rpc.com/?api-key=SECRET"
    );
}

#[test]
fn connection_url_percent_encodes_the_credential() {
    let c = HeliusWsClient::with_endpoint(
        "a b&c".to_string(),
        "PROG".to_string(),
        "wss://example.com/feed".to_string(),
    );
    let url = c.connection_url().unwrap();
    assert_eq!(url, "wss://example.com/feed?api-key=a+b%26c");
}

#[test]
fn bad_endpoint_is_rejected() {
    let c = HeliusWsClient::with_endpoint(
        "key".to_string(),
        "PROG".to_string(),
        "not a url".to_string(),
    );
    assert_eq!(c.connection_url(), Err(WsError::UrlParseError));
}
