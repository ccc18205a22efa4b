//! One subscription session as a state machine.
//!
//! The session owns one physical connection. Its life is: open the transport
//! and issue the subscribe handshake, then read inbound frames until the
//! remote closes, the transport fails, or a payload cannot be decoded or
//! persisted. The decisions along that life — what each frame means, when the
//! session is over, and with which outcome — live here, verified; the caller
//! performs the transport, timer and store work the decisions order.
use vstd::prelude::*;
use crate::WsError;
use crate::decode::{decode, spec_extract};
use crate::encode::{encode_accounts, json_string_array};
use crate::json::json_model_of;

verus! {

/// Seconds between heartbeat pings on an open transport.
pub const HEARTBEAT_INTERVAL_SECS: u64 = 30;

/// The key under which the latest extracted record is persisted.
pub const LATEST_TRANSACTION_KEY: &'static str = "latest_transaction";

/// Where a session stands in its life.
#[derive(Debug, Clone, Copy, PartialEq, Eq, Structural)]
pub enum ConnectionState {
    /// No connection; the supervisor has not started a session.
    Disconnected,
    /// The transport is being opened.
    Connecting,
    /// The transport is open and the handshake has been issued; no frame has
    /// arrived yet.
    Subscribing,
    /// At least one frame has been read.
    Streaming,
    /// The session ended cleanly: remote close or end of stream.
    Closed,
    /// The session ended with an error.
    Failed,
}

/// One inbound frame, as the transport hands it over. Only text frames carry
/// domain payloads; the others' contents play no part in any decision, so
/// they are carried as bare tags.
#[derive(Debug, PartialEq, Eq)]
pub enum InboundFrame {
    /// A text frame with its payload.
    Text(String),
    /// A binary frame.
    Binary,
    /// A ping control frame.
    Ping,
    /// A pong control frame.
    Pong,
    /// A close control frame.
    Close,
}

/// What happened since the last decision: the caller reports, the machine
/// decides.
#[derive(Debug, PartialEq, Eq)]
pub enum SessionEvent {
    /// The supervisor starts the session.
    Begin,
    /// The transport is open and the subscribe handshake has been issued.
    Opened,
    /// The transport could not be opened.
    OpenFailed,
    /// A frame arrived.
    Frame(InboundFrame),
    /// Reading from the transport failed.
    ReadFailed,
    /// The stream ended without a close frame.
    ReadEnded,
    /// The ordered store write succeeded.
    Published,
    /// The ordered store write failed.
    PublishFailed,
}

/// What the caller must do next.
#[derive(Debug, PartialEq, Eq)]
pub enum SessionAction {
    /// Open the transport to the connection URL, send the subscribe request,
    /// and start the heartbeat; then report `Opened` or `OpenFailed`.
    Connect,
    /// Read the next inbound frame and report it.
    AwaitFrame,
    /// Persist this encoded record under `LATEST_TRANSACTION_KEY`, then
    /// report `Published` or `PublishFailed`.
    Publish(String),
    /// The session is over: cancel the heartbeat and hand the outcome to the
    /// supervisor.
    Finish(Result<(), WsError>),
    /// The event does not belong to this state; nothing to do.
    Ignore,
}

/// Whether a session in this state is reading frames.
pub open spec fn reading(s: ConnectionState) -> bool {
    s == ConnectionState::Subscribing || s == ConnectionState::Streaming
}

/// The state after one event.
pub open spec fn spec_next_state(s: ConnectionState, e: SessionEvent) -> ConnectionState {
    match (s, e) {
        (ConnectionState::Disconnected, SessionEvent::Begin) => ConnectionState::Connecting,
        (ConnectionState::Connecting, SessionEvent::Opened) => ConnectionState::Subscribing,
        (ConnectionState::Connecting, SessionEvent::OpenFailed) => ConnectionState::Failed,
        (_, SessionEvent::Frame(f)) => if reading(s) {
            match f {
                InboundFrame::Close => ConnectionState::Closed,
                InboundFrame::Text(payload) => if json_model_of(payload@) is Some {
                    ConnectionState::Streaming
                } else {
                    ConnectionState::Failed
                },
                _ => ConnectionState::Streaming,
            }
        } else {
            s
        },
        (_, SessionEvent::ReadFailed) => if reading(s) {
            ConnectionState::Failed
        } else {
            s
        },
        (_, SessionEvent::ReadEnded) => if reading(s) {
            ConnectionState::Closed
        } else {
            s
        },
        (ConnectionState::Streaming, SessionEvent::Published) => ConnectionState::Streaming,
        (ConnectionState::Streaming, SessionEvent::PublishFailed) => ConnectionState::Failed,
        _ => s,
    }
}

/// Advances the session by one event and says what to do next.
///
/// The contract pins every decision down. A text frame is decoded: a payload
/// that is not structured data ends the session with the decode error; one
/// without a record is skipped; one with a record is handed over, encoded,
/// for the store. A close frame or the end of the stream ends the session
/// cleanly; transport and store failures end it with their errors. Every
/// other frame is skipped. An event that does not belong to the current
/// state changes nothing.
pub fn session_step(s: ConnectionState, e: SessionEvent) -> (r: (ConnectionState, SessionAction))
    ensures
        r.0 == spec_next_state(s, e),
        s == ConnectionState::Disconnected && e == SessionEvent::Begin ==> r.1
            == SessionAction::Connect,
        s == ConnectionState::Connecting && e == SessionEvent::Opened ==> r.1
            == SessionAction::AwaitFrame,
        s == ConnectionState::Connecting && e == SessionEvent::OpenFailed ==> r.1
            == SessionAction::Finish(Err(WsError::ConnectionError)),
        reading(s) ==> match e {
            SessionEvent::Frame(InboundFrame::Text(payload)) => match json_model_of(payload@) {
                None => r.1 == SessionAction::Finish(Err(WsError::JsonError)),
                Some(v) => if spec_extract(v) is Some {
                    r.1 matches SessionAction::Publish(enc) && enc@ == json_string_array(
                        spec_extract(v).unwrap(),
                    )
                } else {
                    r.1 == SessionAction::AwaitFrame
                },
            },
            SessionEvent::Frame(InboundFrame::Close) => r.1 == SessionAction::Finish(Ok(())),
            SessionEvent::Frame(_) => r.1 == SessionAction::AwaitFrame,
            SessionEvent::ReadFailed => r.1 == SessionAction::Finish(
                Err(WsError::ConnectionError),
            ),
            SessionEvent::ReadEnded => r.1 == SessionAction::Finish(Ok(())),
            SessionEvent::Published => s == ConnectionState::Streaming ==> r.1
                == SessionAction::AwaitFrame,
            SessionEvent::PublishFailed => s == ConnectionState::Streaming ==> r.1
                == SessionAction::Finish(Err(WsError::RedisError)),
            _ => r.1 == SessionAction::Ignore,
        },
        r.1 == SessionAction::Ignore ==> r.0 == s,
{
    match (s, e) {
        (ConnectionState::Disconnected, SessionEvent::Begin) => (
            ConnectionState::Connecting,
            SessionAction::Connect,
        ),
        (ConnectionState::Connecting, SessionEvent::Opened) => (
            ConnectionState::Subscribing,
            SessionAction::AwaitFrame,
        ),
        (ConnectionState::Connecting, SessionEvent::OpenFailed) => (
            ConnectionState::Failed,
            SessionAction::Finish(Err(WsError::ConnectionError)),
        ),
        (ConnectionState::Subscribing, SessionEvent::Frame(f)) => step_frame(f),
        (ConnectionState::Streaming, SessionEvent::Frame(f)) => step_frame(f),
        (ConnectionState::Subscribing, SessionEvent::ReadFailed) => (
            ConnectionState::Failed,
            SessionAction::Finish(Err(WsError::ConnectionError)),
        ),
        (ConnectionState::Streaming, SessionEvent::ReadFailed) => (
            ConnectionState::Failed,
            SessionAction::Finish(Err(WsError::ConnectionError)),
        ),
        (ConnectionState::Subscribing, SessionEvent::ReadEnded) => (
            ConnectionState::Closed,
            SessionAction::Finish(Ok(())),
        ),
        (ConnectionState::Streaming, SessionEvent::ReadEnded) => (
            ConnectionState::Closed,
            SessionAction::Finish(Ok(())),
        ),
        (ConnectionState::Streaming, SessionEvent::Published) => (
            ConnectionState::Streaming,
            SessionAction::AwaitFrame,
        ),
        (ConnectionState::Streaming, SessionEvent::PublishFailed) => (
            ConnectionState::Failed,
            SessionAction::Finish(Err(WsError::RedisError)),
        ),
        (_, _) => (s, SessionAction::Ignore),
    }
}

/// What one inbound frame means while the session is reading.
fn step_frame(f: InboundFrame) -> (r: (ConnectionState, SessionAction))
    ensures
        r.0 == (match f {
            InboundFrame::Close => ConnectionState::Closed,
            InboundFrame::Text(payload) => if json_model_of(payload@) is Some {
                ConnectionState::Streaming
            } else {
                ConnectionState::Failed
            },
            _ => ConnectionState::Streaming,
        }),
        match f {
            InboundFrame::Text(payload) => match json_model_of(payload@) {
                None => r.1 == SessionAction::Finish(Err(WsError::JsonError)),
                Some(v) => if spec_extract(v) is Some {
                    r.1 matches SessionAction::Publish(enc) && enc@ == json_string_array(
                        spec_extract(v).unwrap(),
                    )
                } else {
                    r.1 == SessionAction::AwaitFrame
                },
            },
            InboundFrame::Close => r.1 == SessionAction::Finish(Ok(())),
            _ => r.1 == SessionAction::AwaitFrame,
        },
{
    match f {
        InboundFrame::Text(payload) => match decode(payload.as_str()) {
            Err(e) => (ConnectionState::Failed, SessionAction::Finish(Err(e))),
            Ok(None) => (ConnectionState::Streaming, SessionAction::AwaitFrame),
            Ok(Some(accounts)) => (
                ConnectionState::Streaming,
                SessionAction::Publish(encode_accounts(&accounts)),
            ),
        },
        InboundFrame::Close => (ConnectionState::Closed, SessionAction::Finish(Ok(()))),
        _ => (ConnectionState::Streaming, SessionAction::AwaitFrame),
    }
}

} // verus!
