use helius_ws_client::backoff::{BackoffState, SupervisorDecision};
use helius_ws_client::session::{
    session_step, ConnectionState, InboundFrame, SessionAction, SessionEvent,
    HEARTBEAT_INTERVAL_SECS, LATEST_TRANSACTION_KEY,
};
use helius_ws_client::WsError;

fn record_payload() -> String {
    "{\"result\":{\"transaction\":{\"message\":{\"accountKeys\":[\"A\",\"B\",3,\"C\"]}}}}"
        .to_string()
}

#[test]
fn a_whole_session_walks_the_documented_states() {
    let (s, a) = session_step(ConnectionState::Disconnected, SessionEvent::Begin);
    assert_eq!(s, ConnectionState::Connecting);
    assert_eq!(a, SessionAction::Connect);

    let (s, a) = session_step(s, SessionEvent::Opened);
    assert_eq!(s, ConnectionState::Subscribing);
    assert_eq!(a, SessionAction::AwaitFrame);

    let (s, a) = session_step(s, SessionEvent::Frame(InboundFrame::Text(record_payload())));
    assert_eq!(s, ConnectionState::Streaming);
    assert_eq!(
        a,
        SessionAction::Publish("[\"A\",\"B\",\"C\"]".to_string())
    );

    let (s, a) = session_step(s, SessionEvent::Published);
    assert_eq!(s, ConnectionState::Streaming);
    assert_eq!(a, SessionAction::AwaitFrame);

    let (s, a) = session_step(s, SessionEvent::Frame(InboundFrame::Close));
    assert_eq!(s, ConnectionState::Closed);
    assert_eq!(a, SessionAction::Finish(Ok(())));
}

#[test]
fn close_frame_ends_cleanly_and_the_supervisor_reconnects_reset() {
    // A remote close with no prior error is not a failure: the supervisor
    // reconnects at once with its delay back at the base.
    let (s, a) = session_step(
        ConnectionState::Streaming,
        SessionEvent::Frame(InboundFrame::Close),
    );
    assert_eq!(s, ConnectionState::Closed);
    assert_eq!(a, SessionAction::Finish(Ok(())));

    let mut b = BackoffState::new(1, 5).unwrap();
    b.on_session_end(Err(WsError::ConnectionError));
    b.on_session_end(Err(WsError::ConnectionError));
    assert_eq!(b.on_session_end(Ok(())), SupervisorDecision::Reconnect);
    assert_eq!(b.attempt, 0);
    assert_eq!(b.delay, 1);
}

#[test]
fn store_failure_aborts_and_backs_off_like_a_transport_failure() {
    let (s, a) = session_step(ConnectionState::Streaming, SessionEvent::PublishFailed);
    assert_eq!(s, ConnectionState::Failed);
    assert_eq!(a, SessionAction::Finish(Err(WsError::RedisError)));

    let mut after_store = BackoffState::new(1, 5).unwrap();
    let mut after_transport = BackoffState::new(1, 5).unwrap();
    let store_decision = after_store.on_session_end(Err(WsError::RedisError));
    let transport_decision = after_transport.on_session_end(Err(WsError::ConnectionError));
    assert_eq!(store_decision, SupervisorDecision::Backoff(1));
    assert_eq!(transport_decision, SupervisorDecision::Backoff(1));
    assert_eq!(after_store.attempt, after_transport.attempt);
    assert_eq!(after_store.delay, after_transport.delay);
}

#[test]
fn malformed_payload_fails_the_session() {
    let (s, a) = session_step(
        ConnectionState::Streaming,
        SessionEvent::Frame(InboundFrame::Text("nonsense".to_string())),
    );
    assert_eq!(s, ConnectionState::Failed);
    assert_eq!(a, SessionAction::Finish(Err(WsError::JsonError)));
}

#[test]
fn recordless_payload_is_skipped() {
    let (s, a) = session_step(
        ConnectionState::Subscribing,
        SessionEvent::Frame(InboundFrame::Text("{\"jsonrpc\":\"2.0\",\"id\":1}".to_string())),
    );
    assert_eq!(s, ConnectionState::Streaming);
    assert_eq!(a, SessionAction::AwaitFrame);
}

#[test]
fn control_and_binary_frames_are_ignored() {
    for f in [InboundFrame::Ping, InboundFrame::Pong, InboundFrame::Binary] {
        let (s, a) = session_step(ConnectionState::Streaming, SessionEvent::Frame(f));
        assert_eq!(s, ConnectionState::Streaming);
        assert_eq!(a, SessionAction::AwaitFrame);
    }
}

#[test]
fn transport_failures_and_stream_end_finish_the_session() {
    let (s, a) = session_step(ConnectionState::Connecting, SessionEvent::OpenFailed);
    assert_eq!(s, ConnectionState::Failed);
    assert_eq!(a, SessionAction::Finish(Err(WsError::ConnectionError)));

    let (s, a) = session_step(ConnectionState::Streaming, SessionEvent::ReadFailed);
    assert_eq!(s, ConnectionState::Failed);
    assert_eq!(a, SessionAction::Finish(Err(WsError::ConnectionError)));

    let (s, a) = session_step(ConnectionState::Subscribing, SessionEvent::ReadEnded);
    assert_eq!(s, ConnectionState::Closed);
    assert_eq!(a, SessionAction::Finish(Ok(())));
}

#[test]
fn protocol_constants_have_the_documented_values() {
    assert_eq!(HEARTBEAT_INTERVAL_SECS, 30);
    assert_eq!(LATEST_TRANSACTION_KEY, "latest_transaction");
}

#[test]
fn events_outside_the_protocol_change_nothing() {
    let (s, a) = session_step(ConnectionState::Closed, SessionEvent::Published);
    assert_eq!(s, ConnectionState::Closed);
    assert_eq!(a, SessionAction::Ignore);

    let (s, a) = session_step(ConnectionState::Disconnected, SessionEvent::ReadFailed);
    assert_eq!(s, ConnectionState::Disconnected);
    assert_eq!(a, SessionAction::Ignore);
}
