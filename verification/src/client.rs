//! The subscription client's configuration: the feed endpoint, the access
//! credential, and the subscribed resource id, with the two pieces of text a
//! session derives from them — the connection URL and the subscribe request.
use vstd::prelude::*;
use crate::WsError;
use crate::encode::{plain_char, quote, quote_into, lemma_escape_plain_identity};

verus! {

/// The default feed endpoint.
pub const HELIUS_WS_ENDPOINT: &'static str = "wss://mainnet.helius-rpc.com/";

/// Everything in the request envelope that precedes the quoted filter
/// identifier.
pub open spec fn request_prefix() -> Seq<char> {
    "{\"jsonrpc\":\"2.0\",\"id\":1,\"method\":\"programSubscribe\",\"params\":["@
}

/// Everything in the request envelope that follows the quoted filter
/// identifier: the subscription options, with parsed encoding and confirmed
/// commitment.
pub open spec fn request_suffix() -> Seq<char> {
    ",{\"encoding\":\"jsonParsed\",\"commitment\":\"confirmed\"}]}"@
}

/// The subscribe request for a filter identifier: a JSON-RPC 2.0 envelope
/// with the `programSubscribe` method, the quoted identifier as the first
/// parameter, and fixed request id 1.
pub open spec fn spec_subscribe_request(filter: Seq<char>) -> Seq<char> {
    request_prefix() + quote(filter) + request_suffix()
}

/// What building the connection URL from an endpoint and a credential
/// yields: `None` when the endpoint is not a well-formed URL, otherwise the
/// endpoint with the credential embedded as the `api-key` query parameter.
/// The outcome depends on the two texts alone; nothing in the crate states
/// what it is on given texts.
pub uninterp spec fn url_with_api_key(endpoint: Seq<char>, key: Seq<char>) -> Option<Seq<char>>;

/// Relies on `url::Url::parse_with_params`: it parses the endpoint and
/// appends `api-key=<credential>` to its query, percent-encoding as needed,
/// deterministically; `Url`'s `to_string` writes the resulting URL out.
#[verifier::external_body]
fn build_ws_url(endpoint: &str, key: &str) -> (r: Option<String>)
    ensures
        match r {
            Some(u) => url_with_api_key(endpoint@, key@) == Some(u@),
            None => url_with_api_key(endpoint@, key@) is None,
        },
{
    match url::Url::parse_with_params(endpoint, &[("api-key", key)]) {
        Ok(u) => Some(u.to_string()),
        Err(_) => None,
    }
}

/// One subscription target: a feed endpoint, the credential that opens it,
/// and the resource id whose events are streamed.
pub struct HeliusWsClient {
    /// The access credential, embedded in the connection URL.
    pub api_key: String,
    /// The subscribed resource id: the first parameter of the subscribe
    /// request.
    pub program_id: String,
    /// The feed endpoint the transport connects to.
    pub endpoint: String,
}

impl HeliusWsClient {
    /// A client for the default endpoint.
    pub fn new(api_key: String, program_id: String) -> (r: Self)
        ensures
            r.api_key == api_key,
            r.program_id == program_id,
            r.endpoint@ == HELIUS_WS_ENDPOINT@,
    {
        Self { api_key, program_id, endpoint: String::from_str(HELIUS_WS_ENDPOINT) }
    }

    /// A client for an endpoint of the caller's choosing.
    pub fn with_endpoint(api_key: String, program_id: String, endpoint: String) -> (r: Self)
        ensures
            r.api_key == api_key,
            r.program_id == program_id,
            r.endpoint == endpoint,
    {
        Self { api_key, program_id, endpoint }
    }

    /// The URL a session connects to: the endpoint with the credential as
    /// its `api-key` query parameter. An endpoint that is not a well-formed
    /// URL is rejected.
    pub fn connection_url(&self) -> (r: Result<String, WsError>)
        ensures
            match r {
                Ok(u) => url_with_api_key(self.endpoint@, self.api_key@) == Some(u@),
                Err(e) => {
                    &&& e == WsError::UrlParseError
                    &&& url_with_api_key(self.endpoint@, self.api_key@) is None
                },
            },
    {
        match build_ws_url(self.endpoint.as_str(), self.api_key.as_str()) {
            Some(u) => Ok(u),
            None => Err(WsError::UrlParseError),
        }
    }

    /// The subscribe request this client sends once per session, as a text
    /// frame, right after the transport opens.
    pub fn subscribe_request(&self) -> (r: String)
        ensures
            r@ == spec_subscribe_request(self.program_id@),
    {
        let mut out = String::from_str(
            "{\"jsonrpc\":\"2.0\",\"id\":1,\"method\":\"programSubscribe\",\"params\":[",
        );
        quote_into(&mut out, self.program_id.as_str());
        out.append(",{\"encoding\":\"jsonParsed\",\"commitment\":\"confirmed\"}]}");
        proof {
            assert(out@ =~= spec_subscribe_request(self.program_id@));
        }
        out
    }
}

/// Law: for every filter identifier, the subscribe request carries, right
/// after the fixed envelope prefix, exactly the quoted form of the
/// identifier — a syntactically well-formed JSON string.
pub proof fn lemma_request_quotes_filter(filter: Seq<char>)
    ensures
        spec_subscribe_request(filter).subrange(
            request_prefix().len() as int,
            request_prefix().len() as int + quote(filter).len() as int,
        ) == quote(filter),
        crate::encode::valid_string_body(crate::encode::escape_seq(filter)),
{
    crate::encode::lemma_escape_valid(filter);
    assert(spec_subscribe_request(filter).subrange(
        request_prefix().len() as int,
        request_prefix().len() as int + quote(filter).len() as int,
    ) =~= quote(filter));
}

/// Law: a filter identifier made of characters that need no escaping stands
/// verbatim in the subscribe request, as the first parameter, between the
/// quotes that open and close it.
pub proof fn lemma_filter_verbatim(filter: Seq<char>)
    requires
        forall|i: int| 0 <= i < filter.len() ==> plain_char(filter[i]),
    ensures
        spec_subscribe_request(filter).subrange(
            request_prefix().len() as int + 1,
            request_prefix().len() as int + 1 + filter.len() as int,
        ) == filter,
        spec_subscribe_request(filter)[request_prefix().len() as int] == '"',
        spec_subscribe_request(filter)[request_prefix().len() as int + 1 + filter.len() as int] == '"',
{
    lemma_escape_plain_identity(filter);
    assert(quote(filter) =~= seq!['"'] + filter + seq!['"']);
    assert(spec_subscribe_request(filter).subrange(
        request_prefix().len() as int + 1,
        request_prefix().len() as int + 1 + filter.len() as int,
    ) =~= filter);
}

} // verus!
