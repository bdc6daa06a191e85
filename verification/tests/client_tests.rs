use hula_ws::client::{
    ConnectDecision, HeartbeatTick, OutboundEvent, RecoveryAction, RetryDecision, WebSocketClient,
};
use hula_ws::message::{BusinessKind, ProcessResult};
use hula_ws::types::{
    AckMessage, ConnectionState, ErrorReason, SendOutcome, WebSocketConfig, WebSocketEvent,
    WireMessage,
};

const NOW: u64 = 1_700_000_000_000;

fn config(max_attempts: u32, base_delay: u64) -> WebSocketConfig {
    WebSocketConfig {
        server_url: "wss://chat.example.com/ws".to_owned(),
        client_id: "client-1".to_owned(),
        token: "tok".to_owned(),
        heartbeat_interval: 30000,
        heartbeat_timeout: 10000,
        max_reconnect_attempts: max_attempts,
        reconnect_delay_ms: base_delay,
    }
}

fn payload(text: &str) -> serde_json::Value {
    serde_json::from_str(text).expect("test JSON must parse")
}

/// A client with one established transport session.
fn connected_client() -> WebSocketClient {
    let mut client = WebSocketClient::new();
    assert_eq!(client.connect(config(3, 1000)), ConnectDecision::StartLoop);
    client.mark_connecting();
    client.on_socket_connected();
    assert_eq!(client.get_state(), ConnectionState::Connected);
    client
}

#[test]
fn connect_is_idempotent_while_connected() {
    let mut client = connected_client();
    assert_eq!(client.connect(config(3, 1000)), ConnectDecision::AlreadyConnected);
    assert!(client.is_connected());
}

#[test]
fn first_connect_publishes_connecting_then_connected() {
    let mut client = WebSocketClient::new();
    client.connect(config(3, 1000));
    client.mark_connecting();
    client.on_socket_connected();

    let events = client.drain_outbox();
    let states: Vec<(ConnectionState, bool)> = events
        .iter()
        .filter_map(|e| match e {
            OutboundEvent::Core(WebSocketEvent::ConnectionStateChanged {
                state,
                is_reconnection,
            }) => Some((*state, *is_reconnection)),
            _ => None,
        })
        .collect();
    assert_eq!(
        states,
        vec![
            (ConnectionState::Connecting, false),
            (ConnectionState::Connected, false),
        ]
    );
}

#[test]
fn send_is_refused_when_disconnected() {
    let mut client = WebSocketClient::new();
    let outcome = client.send_message(payload(r#"{"type":"message"}"#));
    assert_eq!(outcome, SendOutcome::NotConnected);
    assert_eq!(client.pending_snapshot().len(), 0);
    assert_eq!(client.drain_outbound().len(), 0);
}

#[test]
fn send_reaches_the_wire_when_connected() {
    let mut client = connected_client();
    client.drain_outbound();
    let outcome = client.send_message(payload(r#"{"type":"message","data":1}"#));
    assert_eq!(outcome, SendOutcome::Sent);
    let outbound = client.drain_outbound();
    assert_eq!(outbound.len(), 1);
    assert_eq!(
        outbound[0],
        WireMessage::Business(payload(r#"{"type":"message","data":1}"#))
    );
}

#[test]
fn send_queues_while_connecting() {
    let mut client = WebSocketClient::new();
    client.connect(config(3, 1000));
    client.mark_connecting();
    let outcome = client.send_message(payload(r#""a""#));
    assert_eq!(outcome, SendOutcome::QueuedWhileConnecting);
    assert_eq!(client.pending_snapshot().len(), 1);
    assert_eq!(client.drain_outbound().len(), 0);
}

#[test]
fn send_queues_when_the_sender_is_gone_but_state_is_connected() {
    let mut client = connected_client();
    client.on_supervisor_exit();
    assert_eq!(client.get_state(), ConnectionState::Connected);
    let outcome = client.send_message(payload(r#""late""#));
    assert_eq!(outcome, SendOutcome::QueuedSenderNotReady);
    assert_eq!(
        client.pending_snapshot()[0],
        WireMessage::Business(payload(r#""late""#))
    );
}

#[test]
fn receive_message_without_id_is_not_acked() {
    let mut client = connected_client();
    client.drain_outbox();
    client.drain_outbound();

    let result = client.handle_message(r#"{"type":"receiveMessage","data":{"message":{}}}"#, NOW);
    assert_eq!(result, ProcessResult::Handled);
    assert_eq!(client.drain_outbound().len(), 0);

    let events = client.drain_outbox();
    let receive_events = events
        .iter()
        .filter(|e| {
            matches!(
                e,
                OutboundEvent::Business { kind: BusinessKind::ReceiveMessage, .. }
            )
        })
        .count();
    assert_eq!(receive_events, 1);
}

#[test]
fn pending_queue_drops_oldest_past_one_hundred() {
    let mut client = WebSocketClient::new();
    client.connect(config(3, 1000));
    client.mark_connecting();
    for i in 1..=100u32 {
        let entry = payload(&format!(r#"{{"n":{}}}"#, i));
        assert_eq!(client.send_message(entry), SendOutcome::QueuedWhileConnecting);
    }
    assert_eq!(client.pending_snapshot().len(), 100);
    assert_eq!(
        client.pending_snapshot()[0],
        WireMessage::Business(payload(r#"{"n":1}"#))
    );

    client.send_message(payload(r#"{"n":101}"#));
    let pending = client.pending_snapshot();
    assert_eq!(pending.len(), 100);
    assert_eq!(pending[0], WireMessage::Business(payload(r#"{"n":2}"#)));
    assert_eq!(pending[99], WireMessage::Business(payload(r#"{"n":101}"#)));
}

#[test]
fn queued_messages_flush_in_order_on_reconnect() {
    let mut client = connected_client();
    client.on_session_dead();
    assert_eq!(client.get_state(), ConnectionState::Reconnecting);

    for text in [r#""A""#, r#""B""#, r#""C""#] {
        assert_eq!(client.send_message(payload(text)), SendOutcome::QueuedWhileConnecting);
    }

    let was_reconnecting = client.on_socket_connected();
    assert!(was_reconnecting);
    assert_eq!(client.pending_snapshot().len(), 0);
    let outbound = client.drain_outbound();
    assert_eq!(
        outbound,
        vec![
            WireMessage::Business(payload(r#""A""#)),
            WireMessage::Business(payload(r#""B""#)),
            WireMessage::Business(payload(r#""C""#)),
        ]
    );
}

#[test]
fn retry_ceiling_of_three_halts_after_three_attempts() {
    let mut client = WebSocketClient::new();
    client.connect(config(3, 1000));

    client.mark_connecting();
    assert_eq!(client.on_connect_failure(), RetryDecision::RetryAfter(1000));
    client.mark_connecting();
    assert_eq!(client.on_connect_failure(), RetryDecision::RetryAfter(2000));
    client.mark_connecting();
    assert_eq!(client.on_connect_failure(), RetryDecision::GiveUp);

    assert_eq!(client.get_state(), ConnectionState::Error);
    assert_eq!(client.reconnect_attempts(), 3);
    assert!(!client.is_connected());

    let events = client.drain_outbox();
    let error_events = events
        .iter()
        .filter(|e| {
            matches!(
                e,
                OutboundEvent::Core(WebSocketEvent::Error {
                    reason: ErrorReason::TooManyConnectionFailures,
                    ..
                })
            )
        })
        .count();
    assert_eq!(error_events, 1);
}

#[test]
fn unlimited_retry_never_gives_up() {
    let mut client = WebSocketClient::new();
    client.connect(config(0, 1000));
    for _ in 0..50 {
        client.mark_connecting();
        assert!(matches!(client.on_connect_failure(), RetryDecision::RetryAfter(_)));
    }
    assert_eq!(client.get_state(), ConnectionState::Reconnecting);
}

#[test]
fn attempt_counter_resets_on_success() {
    let mut client = WebSocketClient::new();
    client.connect(config(0, 1000));
    client.mark_connecting();
    assert_eq!(client.on_connect_failure(), RetryDecision::RetryAfter(1000));
    client.mark_connecting();
    assert_eq!(client.on_connect_failure(), RetryDecision::RetryAfter(2000));

    client.on_socket_connected();
    assert_eq!(client.reconnect_attempts(), 0);

    client.on_session_dead();
    assert_eq!(client.on_connect_failure(), RetryDecision::RetryAfter(1000));
}

#[test]
fn pong_resets_failures_and_reports_healthy() {
    let mut client = connected_client();
    client.drain_outbox();

    client.on_pong(NOW - 20000);
    let tick = client.heartbeat_tick(NOW);
    assert_eq!(tick, HeartbeatTick::PingedOverdue { failures: 1 });

    client.on_pong(NOW);
    let health = client.get_health_status(NOW + 5);
    assert!(health.is_healthy);
    assert_eq!(health.consecutive_failures, 0);
    assert_eq!(health.last_pong_time, Some(NOW));

    let events = client.drain_outbox();
    let healthy = events.iter().any(|e| {
        matches!(
            e,
            OutboundEvent::Core(WebSocketEvent::HeartbeatStatusChanged { health })
                if health.is_healthy && health.consecutive_failures == 0
        )
    });
    assert!(healthy);
}

#[test]
fn three_foreground_timeouts_kill_the_session() {
    let mut client = connected_client();
    client.on_pong(NOW);
    let late = NOW + 10001;

    assert_eq!(client.heartbeat_tick(late), HeartbeatTick::PingedOverdue { failures: 1 });
    assert_eq!(client.heartbeat_tick(late), HeartbeatTick::PingedOverdue { failures: 2 });
    assert_eq!(client.heartbeat_tick(late), HeartbeatTick::PingedDead);
    assert!(!client.is_connected());
}

#[test]
fn background_timeouts_are_leniently_thresholded() {
    let mut client = connected_client();
    client.on_pong(NOW);
    client.set_app_background_state(true, NOW);

    // Inside the lenient two-minute window nothing is overdue.
    assert_eq!(client.heartbeat_tick(NOW + 60000), HeartbeatTick::Pinged);

    let late = NOW + 120001;
    for expected in 1..=4u32 {
        assert_eq!(
            client.heartbeat_tick(late),
            HeartbeatTick::PingedOverdue { failures: expected }
        );
    }
    assert_eq!(client.heartbeat_tick(late), HeartbeatTick::PingedDead);
}

#[test]
fn heartbeat_stops_with_the_monitor() {
    let mut client = connected_client();
    client.on_session_dead();
    assert_eq!(client.heartbeat_tick(NOW), HeartbeatTick::Inactive);
}

#[test]
fn ticks_put_pings_on_the_wire() {
    let mut client = connected_client();
    client.drain_outbound();
    assert_eq!(client.heartbeat_tick(NOW), HeartbeatTick::Pinged);
    assert_eq!(client.drain_outbound(), vec![WireMessage::Ping]);
}

#[test]
fn disconnect_settles_everything() {
    let mut client = connected_client();
    let signal_close = client.disconnect();
    assert!(signal_close);
    assert_eq!(client.get_state(), ConnectionState::Disconnected);
    assert!(!client.is_connected());
    assert!(client.should_stop());
    assert_eq!(client.reconnect_attempts(), 0);

    // Callable again with nothing connected: a no-op, not an error.
    let signal_again = client.disconnect();
    assert!(!signal_again);
    assert_eq!(client.get_state(), ConnectionState::Disconnected);
}

#[test]
fn force_reconnect_marks_recovery() {
    let mut client = connected_client();
    client.force_reconnect();
    assert!(!client.should_stop());
    assert_eq!(client.get_state(), ConnectionState::Disconnected);

    client.mark_connecting();
    let was_reconnecting = client.on_socket_connected();
    assert!(was_reconnecting);
}

#[test]
fn receive_message_is_acked_exactly_once() {
    let mut client = connected_client();
    client.drain_outbox();
    client.drain_outbound();

    let result = client.handle_message(
        r#"{"type":"receiveMessage","data":{"message":{"id":"m1"}}}"#,
        NOW,
    );
    assert_eq!(result, ProcessResult::Handled);

    let outbound = client.drain_outbound();
    let acks: Vec<&AckMessage> = outbound
        .iter()
        .filter_map(|m| match m {
            WireMessage::Ack(ack) => Some(ack),
            _ => None,
        })
        .collect();
    assert_eq!(acks.len(), 1);
    assert_eq!(acks[0].msg_id, "m1");

    let events = client.drain_outbox();
    let receive_events = events
        .iter()
        .filter(|e| {
            matches!(
                e,
                OutboundEvent::Business { kind: BusinessKind::ReceiveMessage, .. }
            )
        })
        .count();
    assert_eq!(receive_events, 1);
    let raw_events = events
        .iter()
        .filter(|e| matches!(e, OutboundEvent::Core(WebSocketEvent::MessageReceived { .. })))
        .count();
    assert_eq!(raw_events, 1);
}

#[test]
fn unknown_types_are_forwarded_not_dropped() {
    let mut client = connected_client();
    client.drain_outbox();
    client.drain_outbound();

    let result = client.handle_message(r#"{"type":"brandNewThing","data":{"x":1}}"#, NOW);
    assert_eq!(result, ProcessResult::Unhandled);

    // No acknowledgment for unknown kinds.
    assert_eq!(client.drain_outbound().len(), 0);

    let events = client.drain_outbox();
    let unknown = events.iter().any(|e| {
        matches!(
            e,
            OutboundEvent::Business { kind: BusinessKind::Unknown, payload: Some(p) }
                if p["type"] == "brandNewThing"
        )
    });
    assert!(unknown);
}

#[test]
fn pong_frames_feed_the_monitor() {
    let mut client = connected_client();
    client.drain_outbox();

    let result = client.handle_message(r#"{"type":"14","data":{"timestamp":123}}"#, NOW);
    assert_eq!(result, ProcessResult::Handled);
    assert_eq!(client.get_health_status(NOW).last_pong_time, Some(NOW));

    // No generic message-received event for heartbeat responses.
    let events = client.drain_outbox();
    assert!(!events
        .iter()
        .any(|e| matches!(e, OutboundEvent::Core(WebSocketEvent::MessageReceived { .. }))));
}

#[test]
fn non_json_text_is_dropped() {
    let mut client = connected_client();
    client.on_pong(NOW);
    client.drain_outbox();
    client.drain_outbound();

    let result = client.handle_message("definitely not json", NOW);
    assert_eq!(result, ProcessResult::Unhandled);

    // A malformed frame is dropped: no event, no wire frame, and neither
    // state nor health is touched.
    assert_eq!(client.drain_outbox().len(), 0);
    assert_eq!(client.drain_outbound().len(), 0);
    assert_eq!(client.get_state(), ConnectionState::Connected);
    let health = client.get_health_status(NOW);
    assert!(health.is_healthy);
    assert_eq!(health.consecutive_failures, 0);
}

#[test]
fn acks_queue_when_the_connection_is_down() {
    let mut client = WebSocketClient::new();
    client.connect(config(3, 1000));
    client.mark_connecting();
    let sent = client.send_ack("m9");
    assert!(!sent);
    // Each of the three tries queued a copy: retrying a send that keeps
    // failing for the same reason re-queues each time.
    assert_eq!(client.pending_snapshot().len(), 3);
    assert!(client
        .pending_snapshot()
        .iter()
        .all(|m| matches!(m, WireMessage::Ack(a) if a.msg_id == "m9")));
}

#[test]
fn health_before_any_pong_follows_the_state() {
    let client = WebSocketClient::new();
    let health = client.get_health_status(NOW);
    assert!(!health.is_healthy);
    assert_eq!(health.last_pong_time, None);

    let connected = connected_client();
    assert!(connected.get_health_status(NOW).is_healthy);
}

#[test]
fn stale_pongs_make_the_snapshot_unhealthy() {
    let mut client = connected_client();
    client.on_pong(NOW);
    assert!(client.get_health_status(NOW + 29999).is_healthy);
    assert!(!client.get_health_status(NOW + 30000).is_healthy);
}

#[test]
fn foreground_return_asks_for_recovery() {
    let mut client = connected_client();
    client.on_pong(NOW);
    client.set_app_background_state(true, NOW);
    let probe = client.set_app_background_state(false, NOW + 1000);
    assert!(probe);
    assert_eq!(
        client.check_and_recover_connection(NOW + 1000),
        RecoveryAction::SendTestHeartbeat
    );
    assert_eq!(
        client.check_and_recover_connection(NOW + 61000),
        RecoveryAction::ForceReconnect
    );

    let mut idle = WebSocketClient::new();
    assert_eq!(idle.check_and_recover_connection(NOW), RecoveryAction::ForceReconnect);
    idle.connect(config(3, 1000));
    idle.mark_connecting();
    assert_eq!(idle.check_and_recover_connection(NOW), RecoveryAction::Wait);
}

#[test]
fn connect_url_carries_identity_and_encoded_token() {
    let mut client = WebSocketClient::new();
    client.connect(WebSocketConfig {
        token: "t&k=1".to_owned(),
        ..config(3, 1000)
    });
    let url = client.build_connect_url().expect("endpoint is a valid URL");
    assert_eq!(
        url,
        "wss://chat.example.com/ws?clientId=client-1&Token=t%26k%3D1"
    );

    client.update_config(WebSocketConfig {
        token: String::new(),
        ..config(3, 1000)
    });
    let url = client.build_connect_url().expect("endpoint is a valid URL");
    assert_eq!(url, "wss://chat.example.com/ws?clientId=client-1");

    client.update_config(WebSocketConfig {
        server_url: "not a url".to_owned(),
        ..config(3, 1000)
    });
    assert_eq!(client.build_connect_url(), None);
}

#[test]
fn failed_flushes_requeue_at_the_head() {
    let mut client = WebSocketClient::new();
    client.connect(config(3, 1000));
    client.mark_connecting();
    client.send_message(payload(r#""X""#));

    client.requeue_pending_front(vec![
        WireMessage::Business(payload(r#""A""#)),
        WireMessage::Business(payload(r#""B""#)),
    ]);
    assert_eq!(
        client.pending_snapshot().as_slice(),
        &[
            WireMessage::Business(payload(r#""A""#)),
            WireMessage::Business(payload(r#""B""#)),
            WireMessage::Business(payload(r#""X""#)),
        ]
    );
}

#[test]
fn transport_failure_breaks_the_session() {
    let mut client = connected_client();
    assert!(client.has_live_session());
    client.on_transport_failure();
    assert!(!client.is_connected());
    assert!(client.has_live_session());
    client.on_supervisor_exit();
    client.on_session_dead();
    assert!(!client.has_live_session());
    assert_eq!(client.get_state(), ConnectionState::Reconnecting);
}

#[test]
fn heartbeat_interval_follows_the_config() {
    let mut client = WebSocketClient::new();
    assert_eq!(client.heartbeat_interval_ms(), 30000);
    client.update_config(WebSocketConfig {
        heartbeat_interval: 5000,
        ..config(3, 1000)
    });
    assert_eq!(client.heartbeat_interval_ms(), 5000);
}

#[test]
fn ack_messages_carry_the_id_and_a_clock_stamp() {
    let ack = AckMessage::new("m7".to_owned());
    assert_eq!(ack.msg_id, "m7");
    assert!(ack.timestamp > 0);
}
