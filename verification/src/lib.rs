//! A resilient client for one push-based event feed over a persistent
//! connection.
//!
//! The crate holds the decision-making core of the client, verified: the
//! reconnect/backoff policy of the supervisor ([`backoff`]), the life of one
//! subscription session as a state machine ([`session`]), the decoder that
//! extracts a record from an inbound payload ([`decode`] over the model in
//! [`json`]), and the production of the JSON text the client sends
//! ([`encode`], [`client`]). The caller — a thin shell around the library —
//! opens transports, reads frames, sleeps and writes to the store exactly as
//! the verified state machines order.
pub mod backoff;
pub mod client;
pub mod decode;
pub mod encode;
pub mod json;
pub mod session;

pub use crate::client::HeliusWsClient;

use vstd::prelude::*;

verus! {

/// The classification of errors that can end a subscription session or the
/// whole supervisor loop.
#[derive(Debug, Clone, Copy, PartialEq, Eq, Structural)]
pub enum WsError {
    /// The transport could not be opened, read or written.
    ConnectionError,
    /// The subscribe handshake could not be issued.
    SubscriptionFailed,
    /// The external store rejected a write.
    RedisError,
    /// An inbound payload was not well-formed structured data.
    JsonError,
    /// The endpoint and credential did not form a valid URL.
    UrlParseError,
}

} // verus!
