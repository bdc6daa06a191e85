//! The connection manager's decision core. All of the client's shared state
//! — counters, flags, configuration, queues — lives in plain fields here, and
//! every state change is a method whose contract gives the new state exactly,
//! as a spec-level transition on the client's view.
//!
//! The application layer owns what cannot be decided here: it dials the
//! socket, runs the send/receive/heartbeat loops, performs the returned
//! actions (publish the outbox, transmit the outbound queue, sleep backoff
//! delays), and serializes `connect`/`disconnect`/`force_reconnect` through
//! one mutex so that the transitions below happen in a single order.

use crate::backoff::{backoff_delay, compute_backoff_delay};
use crate::message::{classify, classify_spec, wants_ack, BusinessKind, ProcessResult};
use crate::types::{
    AckMessage, ConnectionHealth, ConnectionState, ErrorReason, SendOutcome, WebSocketConfig,
    WebSocketEvent, WireMessage,
};
use vstd::prelude::*;

verus! {

/// A pong older than this window makes the health snapshot unhealthy, in
/// milliseconds.
pub const HEALTHY_PONG_WINDOW_MS: u64 = 30000;

/// Pong deadline while the application is backgrounded, in milliseconds; more
/// lenient than the configured foreground timeout because OS throttling delays
/// background network I/O.
pub const BACKGROUND_HEARTBEAT_TIMEOUT_MS: u64 = 120000;

/// Consecutive foreground heartbeat timeouts that flag the session dead.
pub const MAX_FOREGROUND_FAILURES: u32 = 3;

/// Consecutive background heartbeat timeouts that flag the session dead.
pub const MAX_BACKGROUND_FAILURES: u32 = 5;

/// Bound on the pending-message queue; pushing past it drops the oldest entry.
pub const PENDING_QUEUE_LIMIT: usize = 100;

/// Pong gap past which a return to the foreground forces a reconnect, in
/// milliseconds.
pub const RECOVERY_PONG_GAP_MS: u64 = 60000;

/// Attempts made to hand an acknowledgment to the transport.
pub const ACK_MAX_RETRIES: u32 = 3;

/// Something the application layer must publish: a core event on the shared
/// event channel, or a business event on its own named channel.
#[derive(Debug)]
pub enum OutboundEvent {
    /// Published on the shared `websocket-event` channel.
    Core(WebSocketEvent),
    /// Published on `message::event_channel(kind)`, to
    /// `message::emit_target(kind)`. For `Unknown` the payload is the whole
    /// inbound message; otherwise it is the frame's `data` field.
    Business { kind: BusinessKind, payload: Option<serde_json::Value> },
}

/// What a `connect` call decided.
#[derive(Clone, Copy, Debug, PartialEq, Eq, Structural)]
pub enum ConnectDecision {
    /// Already connected: the duplicate request is ignored and reported as
    /// success.
    AlreadyConnected,
    /// The configuration was stored; the caller must run the reconnection
    /// loop.
    StartLoop,
}

/// What the reconnection loop must do after a failed connection attempt.
#[derive(Clone, Copy, Debug, PartialEq, Eq, Structural)]
pub enum RetryDecision {
    /// Sleep this many milliseconds, then try again.
    RetryAfter(u64),
    /// The attempt ceiling is reached: stop retrying for good; only an
    /// explicit `connect` or `force_reconnect` resumes service.
    GiveUp,
}

/// What a return to the foreground asks of the application layer.
#[derive(Clone, Copy, Debug, PartialEq, Eq, Structural)]
pub enum RecoveryAction {
    /// Tear the session down and reconnect.
    ForceReconnect,
    /// Probe the live session with a heartbeat.
    SendTestHeartbeat,
    /// A connection attempt is already in flight; wait for it.
    Wait,
}

/// What one heartbeat tick did.
#[derive(Clone, Copy, Debug, PartialEq, Eq, Structural)]
pub enum HeartbeatTick {
    /// The monitor is stopped or a stop was requested: the loop must end.
    Inactive,
    /// No outbound channel is attached: the connection is presumed dead and
    /// the loop must end.
    SenderGone,
    /// A ping was handed to the transport; no pong is overdue.
    Pinged,
    /// A ping was handed to the transport, but the pong is overdue; one more
    /// failure was counted.
    PingedOverdue { failures: u32 },
    /// The failure threshold was reached: the session is flagged dead and the
    /// loop must end.
    PingedDead,
}

/// One decoded inbound frame, reduced to what the dispatcher reads.
#[derive(Debug)]
pub enum InboundFrame {
    /// Text that did not parse as JSON: a malformed frame, logged by the
    /// shell and dropped by the dispatcher.
    NotJson { text: String },
    /// A heartbeat response: `type` is `"14"` with a numeric
    /// `data.timestamp`.
    Pong,
    /// Any other JSON document.
    Business {
        /// The whole decoded frame.
        raw: serde_json::Value,
        /// Its `type` discriminator; empty when missing or not a string.
        msg_type: String,
        /// Its `data` field, when present.
        data: Option<serde_json::Value>,
        /// `data.message.id`, when present as a string; the message to
        /// acknowledge.
        message_id: Option<String>,
    },
}

/// The client's state, as contracts see it.
#[verifier::ext_equal]
pub ghost struct ClientView {
    /// Per-session configuration.
    pub config: WebSocketConfig,
    /// Connection state.
    pub state: ConnectionState,
    /// When the last pong arrived, ms since the Unix epoch; 0 for never.
    pub last_pong_time: u64,
    /// Consecutive foreground heartbeat timeouts.
    pub consecutive_failures: u32,
    /// Whether the heartbeat monitor runs.
    pub heartbeat_active: bool,
    /// Consecutive failed connection attempts.
    pub reconnect_attempts: u32,
    /// Whether the next successful connect is a recovery.
    pub is_reconnecting: bool,
    /// Whether the live session's outbound channel is attached.
    pub sender_ready: bool,
    /// Whether the live session's close-signal channel is attached.
    pub close_sender_ready: bool,
    /// Payloads waiting for the next flush, oldest first.
    pub pending: Seq<WireMessage>,
    /// Whether a stop was requested.
    pub should_stop: bool,
    /// Whether the application is backgrounded.
    pub is_app_in_background: bool,
    /// When the application last returned to the foreground.
    pub last_foreground_time: u64,
    /// Consecutive background heartbeat timeouts.
    pub background_failures: u32,
    /// Whether a live, working transport session exists.
    pub is_ws_connected: bool,
    /// Whether a transport session (live or half-dead) exists.
    pub session_live: bool,
    /// What was handed to the live session's transport, in order.
    pub outbound: Seq<WireMessage>,
    /// Events for the UI layer, in order.
    pub outbox: Seq<OutboundEvent>,
}

/// The connection manager. One instance stands behind the application's
/// command layer; the application serializes `connect`, `disconnect` and
/// `force_reconnect` calls through a mutex, which is the one mandatory
/// mutual-exclusion invariant of the design.
pub struct WebSocketClient {
    config: WebSocketConfig,
    state: ConnectionState,
    last_pong_time: u64,
    consecutive_failures: u32,
    heartbeat_active: bool,
    reconnect_attempts: u32,
    is_reconnecting: bool,
    sender_ready: bool,
    close_sender_ready: bool,
    pending: Vec<WireMessage>,
    should_stop: bool,
    is_app_in_background: bool,
    last_foreground_time: u64,
    background_failures: u32,
    is_ws_connected: bool,
    session_live: bool,
    outbound: Vec<WireMessage>,
    outbox: Vec<OutboundEvent>,
}

impl View for WebSocketClient {
    type V = ClientView;

    closed spec fn view(&self) -> ClientView {
        ClientView {
            config: self.config,
            state: self.state,
            last_pong_time: self.last_pong_time,
            consecutive_failures: self.consecutive_failures,
            heartbeat_active: self.heartbeat_active,
            reconnect_attempts: self.reconnect_attempts,
            is_reconnecting: self.is_reconnecting,
            sender_ready: self.sender_ready,
            close_sender_ready: self.close_sender_ready,
            pending: self.pending@,
            should_stop: self.should_stop,
            is_app_in_background: self.is_app_in_background,
            last_foreground_time: self.last_foreground_time,
            background_failures: self.background_failures,
            is_ws_connected: self.is_ws_connected,
            session_live: self.session_live,
            outbound: self.outbound@,
            outbox: self.outbox@,
        }
    }
}

/// A fresh client: disconnected, empty queues, zeroed counters.
pub open spec fn is_initial(v: ClientView) -> bool {
    &&& v.state == ConnectionState::Disconnected
    &&& v.last_pong_time == 0
    &&& v.consecutive_failures == 0
    &&& !v.heartbeat_active
    &&& v.reconnect_attempts == 0
    &&& !v.is_reconnecting
    &&& !v.sender_ready
    &&& !v.close_sender_ready
    &&& v.pending == Seq::<WireMessage>::empty()
    &&& !v.should_stop
    &&& !v.is_app_in_background
    &&& v.background_failures == 0
    &&& !v.is_ws_connected
    &&& !v.session_live
    &&& v.outbound == Seq::<WireMessage>::empty()
    &&& v.outbox == Seq::<OutboundEvent>::empty()
}

/// Changes the connection state, publishing a state-changed event exactly when
/// the state actually changes.
pub open spec fn with_state(v: ClientView, s: ConnectionState, is_reconnection: bool) -> ClientView {
    if v.state == s {
        v
    } else {
        ClientView {
            state: s,
            outbox: v.outbox.push(
                OutboundEvent::Core(
                    WebSocketEvent::ConnectionStateChanged { state: s, is_reconnection },
                ),
            ),
            ..v
        }
    }
}

/// Appends to the bounded pending queue: past the limit the oldest entry is
/// dropped, so the queue never exceeds the limit and stays FIFO.
pub open spec fn queue_push(q: Seq<WireMessage>, m: WireMessage) -> Seq<WireMessage> {
    let grown = q.push(m);
    if grown.len() > PENDING_QUEUE_LIMIT as nat {
        grown.subrange(1, grown.len() as int)
    } else {
        grown
    }
}

/// Hands one wire message to the transport: sent directly when a session with
/// an attached channel is live; queued while connected-without-channel,
/// connecting or reconnecting; refused when disconnected or in the error
/// state.
pub open spec fn wire_send(v: ClientView, m: WireMessage) -> (ClientView, SendOutcome) {
    if v.state == ConnectionState::Connected {
        if v.sender_ready {
            (ClientView { outbound: v.outbound.push(m), ..v }, SendOutcome::Sent)
        } else {
            (
                ClientView { pending: queue_push(v.pending, m), ..v },
                SendOutcome::QueuedSenderNotReady,
            )
        }
    } else if v.state == ConnectionState::Connecting || v.state == ConnectionState::Reconnecting {
        (ClientView { pending: queue_push(v.pending, m), ..v }, SendOutcome::QueuedWhileConnecting)
    } else {
        (v, SendOutcome::NotConnected)
    }
}

/// `connect`: a no-op reported as already connected when a working session
/// exists; otherwise stores the configuration and clears the stop flag so the
/// reconnection loop may run.
pub open spec fn connect_transition(v: ClientView, config: WebSocketConfig) -> (
    ClientView,
    ConnectDecision,
) {
    if v.is_ws_connected {
        (v, ConnectDecision::AlreadyConnected)
    } else {
        (
            ClientView { config, should_stop: false, ..v },
            ConnectDecision::StartLoop,
        )
    }
}

/// `disconnect`: requests a stop, tears the session down, transitions to
/// `Disconnected`, and zeroes the failure and attempt counters. The returned
/// flag says whether a close signal must be sent to the live socket.
pub open spec fn disconnect_transition(v: ClientView) -> (ClientView, bool) {
    let torn = ClientView {
        should_stop: true,
        is_ws_connected: false,
        session_live: false,
        sender_ready: false,
        close_sender_ready: false,
        ..v
    };
    let settled = with_state(torn, ConnectionState::Disconnected, false);
    (
        ClientView {
            consecutive_failures: 0,
            reconnect_attempts: 0,
            heartbeat_active: false,
            ..settled
        },
        v.close_sender_ready,
    )
}

/// `force_reconnect`: marks the coming connect as a recovery, resets the
/// attempt counter, tears the current session down, and clears the stop flag
/// so the caller can run the reconnection loop at once.
pub open spec fn force_reconnect_transition(v: ClientView) -> (ClientView, bool) {
    let marked = ClientView { is_reconnecting: true, reconnect_attempts: 0, ..v };
    let (torn, signal_close) = disconnect_transition(marked);
    (ClientView { should_stop: false, ..torn }, signal_close)
}

/// A failed connection attempt: the attempt counter grows (saturating, so an
/// unlimited-retry configuration can never overflow it). Reaching a nonzero
/// ceiling publishes an error event and parks the client in the terminal
/// `Error` state; otherwise the state shows `Reconnecting` and the caller must
/// sleep the capped exponential backoff delay before the next attempt.
pub open spec fn connect_failure_transition(v: ClientView) -> (ClientView, RetryDecision) {
    let attempts = if v.reconnect_attempts == u32::MAX {
        u32::MAX
    } else {
        (v.reconnect_attempts + 1) as u32
    };
    let counted = ClientView { reconnect_attempts: attempts, ..v };
    if v.config.max_reconnect_attempts > 0 && attempts >= v.config.max_reconnect_attempts {
        let told = ClientView {
            outbox: counted.outbox.push(
                OutboundEvent::Core(
                    WebSocketEvent::Error {
                        reason: ErrorReason::TooManyConnectionFailures,
                        details: None,
                    },
                ),
            ),
            is_ws_connected: false,
            ..counted
        };
        (with_state(told, ConnectionState::Error, false), RetryDecision::GiveUp)
    } else {
        (
            with_state(counted, ConnectionState::Reconnecting, true),
            RetryDecision::RetryAfter(backoff_delay(attempts, v.config.reconnect_delay_ms) as u64),
        )
    }
}

/// A successful handshake: attaches the channels, consumes the reconnection
/// mark (returned, so the caller can schedule the post-reconnect sync),
/// transitions to `Connected`, resets the attempt counter, flushes the whole
/// pending queue — in order, ahead of anything else this session sends — and
/// starts the heartbeat.
pub open spec fn session_established_transition(v: ClientView) -> (ClientView, bool) {
    let was_reconnecting = v.is_reconnecting;
    let attached = ClientView {
        sender_ready: true,
        close_sender_ready: true,
        is_reconnecting: false,
        ..v
    };
    let connected = with_state(attached, ConnectionState::Connected, was_reconnecting);
    (
        ClientView {
            is_ws_connected: true,
            session_live: true,
            reconnect_attempts: 0,
            pending: Seq::empty(),
            outbound: v.pending,
            heartbeat_active: true,
            ..connected
        },
        was_reconnecting,
    )
}

/// The supervising task saw a session loop end (or a stop): it stops the
/// heartbeat and drops the outbound sender, so a half-dead socket (one
/// direction broken) is treated as a fully failed session rather than left
/// limping. The reconnection loop's own cleanup follows as
/// `session_dead_transition`.
pub open spec fn supervisor_exit_transition(v: ClientView) -> ClientView {
    ClientView { heartbeat_active: false, sender_ready: false, ..v }
}

/// The live session died (either loop ended, or a stop was observed): mark the
/// client as reconnecting and release every session-local resource.
pub open spec fn session_dead_transition(v: ClientView) -> ClientView {
    let marked = ClientView { is_reconnecting: true, ..v };
    let settled = with_state(marked, ConnectionState::Reconnecting, true);
    ClientView {
        heartbeat_active: false,
        sender_ready: false,
        close_sender_ready: false,
        is_ws_connected: false,
        session_live: false,
        ..settled
    }
}

/// The pong deadline in force: the configured timeout in the foreground, the
/// fixed lenient window in the background.
pub open spec fn effective_timeout(v: ClientView) -> u64 {
    if v.is_app_in_background {
        BACKGROUND_HEARTBEAT_TIMEOUT_MS
    } else {
        v.config.heartbeat_timeout
    }
}

/// One heartbeat tick: stop when asked, declare the connection dead when the
/// outbound channel is gone, otherwise ping and check the pong deadline,
/// counting failures against the lifecycle-appropriate threshold.
pub open spec fn heartbeat_tick_transition(v: ClientView, now: u64) -> (
    ClientView,
    HeartbeatTick,
) {
    if !v.heartbeat_active || v.should_stop {
        (v, HeartbeatTick::Inactive)
    } else if !v.sender_ready {
        (v, HeartbeatTick::SenderGone)
    } else {
        let pinged = ClientView { outbound: v.outbound.push(WireMessage::Ping), ..v };
        if v.last_pong_time > 0 && now - v.last_pong_time > effective_timeout(v) {
            let failures = if v.is_app_in_background {
                if v.background_failures == u32::MAX {
                    u32::MAX
                } else {
                    (v.background_failures + 1) as u32
                }
            } else {
                if v.consecutive_failures == u32::MAX {
                    u32::MAX
                } else {
                    (v.consecutive_failures + 1) as u32
                }
            };
            let counted = if v.is_app_in_background {
                ClientView { background_failures: failures, ..pinged }
            } else {
                ClientView { consecutive_failures: failures, ..pinged }
            };
            let threshold = if v.is_app_in_background {
                MAX_BACKGROUND_FAILURES
            } else {
                MAX_FOREGROUND_FAILURES
            };
            if failures >= threshold {
                (ClientView { is_ws_connected: false, ..counted }, HeartbeatTick::PingedDead)
            } else {
                (counted, HeartbeatTick::PingedOverdue { failures })
            }
        } else {
            (pinged, HeartbeatTick::Pinged)
        }
    }
}

/// A pong arrived: record its time, zero the foreground failure counter, and
/// publish a healthy heartbeat snapshot.
pub open spec fn pong_transition(v: ClientView, now: u64) -> ClientView {
    ClientView {
        last_pong_time: now,
        consecutive_failures: 0,
        outbox: v.outbox.push(
            OutboundEvent::Core(
                WebSocketEvent::HeartbeatStatusChanged {
                    health: ConnectionHealth {
                        is_healthy: true,
                        last_pong_time: Some(now),
                        consecutive_failures: 0,
                        round_trip_time: None,
                    },
                },
            ),
        ),
        ..v
    }
}

/// The derived health snapshot: healthy when a pong was seen inside the
/// window, or, before any pong, when the connection state is `Connected`.
pub open spec fn health_of(v: ClientView, now: u64) -> ConnectionHealth {
    ConnectionHealth {
        is_healthy: if v.last_pong_time == 0 {
            v.state == ConnectionState::Connected
        } else {
            now - v.last_pong_time < HEALTHY_PONG_WINDOW_MS
        },
        last_pong_time: if v.last_pong_time == 0 {
            None
        } else {
            Some(v.last_pong_time)
        },
        consecutive_failures: v.consecutive_failures,
        round_trip_time: None,
    }
}

/// A lifecycle flip: entering the background zeroes the background failure
/// counter; returning to the foreground stamps the time. The flag says
/// whether the caller must run the check-and-recover probe (true exactly on a
/// return to the foreground).
pub open spec fn set_background_transition(v: ClientView, is_background: bool, now: u64) -> (
    ClientView,
    bool,
) {
    (
        ClientView {
            is_app_in_background: is_background,
            background_failures: if is_background && !v.is_app_in_background {
                0
            } else {
                v.background_failures
            },
            last_foreground_time: if !is_background && v.is_app_in_background {
                now
            } else {
                v.last_foreground_time
            },
            ..v
        },
        !is_background && v.is_app_in_background,
    )
}

/// What a return to the foreground must do: force a reconnect when the
/// connection is gone, terminally failed, or its last pong is too old; probe
/// a live connection with a test heartbeat; wait when an attempt is already
/// in flight.
pub open spec fn recovery_action_of(v: ClientView, now: u64) -> RecoveryAction {
    match v.state {
        ConnectionState::Connected => if v.last_pong_time > 0 && now - v.last_pong_time
            > RECOVERY_PONG_GAP_MS {
            RecoveryAction::ForceReconnect
        } else {
            RecoveryAction::SendTestHeartbeat
        },
        ConnectionState::Disconnected | ConnectionState::Error => RecoveryAction::ForceReconnect,
        _ => RecoveryAction::Wait,
    }
}

/// Acknowledgment delivery with up to three tries. The transitions are
/// deterministic in the state, so a try that queues is followed by tries that
/// queue again — the bounded retry behaves as a retry loop does when `send`
/// keeps failing for the same reason.
pub open spec fn send_ack_transition(v: ClientView, ack: AckMessage) -> (ClientView, bool) {
    let (v1, first) = wire_send(v, WireMessage::Ack(ack));
    if first == SendOutcome::Sent {
        (v1, true)
    } else {
        let (v2, second) = wire_send(v1, WireMessage::Ack(ack));
        if second == SendOutcome::Sent {
            (v2, true)
        } else {
            let (v3, third) = wire_send(v2, WireMessage::Ack(ack));
            (v3, third == SendOutcome::Sent)
        }
    }
}

/// Routing one business frame: a delivered chat message with an id is
/// acknowledged first, then the business event goes out on its named channel
/// (unknown kinds under the generic unhandled channel, carrying the whole
/// message), and the raw frame is republished as a generic message-received
/// event for backward compatibility.
pub open spec fn business_transition(
    v: ClientView,
    raw: serde_json::Value,
    msg_type: String,
    data: Option<serde_json::Value>,
    message_id: Option<String>,
    now: u64,
) -> ClientView {
    let kind = classify_spec(msg_type@);
    let acked = if kind == BusinessKind::ReceiveMessage && message_id is Some {
        send_ack_transition(v, AckMessage { msg_id: message_id->0, timestamp: now as i64 }).0
    } else {
        v
    };
    let payload = if kind == BusinessKind::Unknown {
        Some(raw)
    } else {
        data
    };
    ClientView {
        outbox: acked.outbox.push(OutboundEvent::Business { kind, payload }).push(
            OutboundEvent::Core(
                WebSocketEvent::MessageReceived { message: raw },
            ),
        ),
        ..acked
    }
}

/// Routing one decoded frame. Text that is not JSON is a malformed frame: it
/// is logged by the shell and dropped here, touching neither state nor
/// health. A pong feeds the heartbeat monitor. Every other frame is a
/// business frame.
pub open spec fn inbound_transition(v: ClientView, frame: InboundFrame, now: u64) -> ClientView {
    match frame {
        InboundFrame::NotJson { .. } => v,
        InboundFrame::Pong => pong_transition(v, now),
        InboundFrame::Business { raw, msg_type, data, message_id } => business_transition(
            v,
            raw,
            msg_type,
            data,
            message_id,
            now,
        ),
    }
}

/// Whether a frame's discriminator was recognized.
pub open spec fn process_result_of(frame: InboundFrame) -> ProcessResult {
    match frame {
        InboundFrame::NotJson { .. } => ProcessResult::Unhandled,
        InboundFrame::Pong => ProcessResult::Handled,
        InboundFrame::Business { msg_type, .. } => if classify_spec(msg_type@)
            == BusinessKind::Unknown {
            ProcessResult::Unhandled
        } else {
            ProcessResult::Handled
        },
    }
}

impl WebSocketClient {
    /// A fresh, disconnected client with the default configuration. The
    /// last-foreground mark is stamped with the wall clock.
    pub fn new() -> (r: Self)
        ensures
            is_initial(r@),
            r@.config.server_url@ == Seq::<char>::empty(),
            r@.config.client_id@ == Seq::<char>::empty(),
            r@.config.token@ == Seq::<char>::empty(),
            r@.config.heartbeat_interval == 30000,
            r@.config.heartbeat_timeout == 10000,
            r@.config.max_reconnect_attempts == 10,
            r@.config.reconnect_delay_ms == 1000,
    {
        let stamp = crate::ext::now_millis();
        let r = WebSocketClient {
            config: Default::default(),
            state: ConnectionState::Disconnected,
            last_pong_time: 0,
            consecutive_failures: 0,
            heartbeat_active: false,
            reconnect_attempts: 0,
            is_reconnecting: false,
            sender_ready: false,
            close_sender_ready: false,
            pending: Vec::new(),
            should_stop: false,
            is_app_in_background: false,
            last_foreground_time: if stamp >= 0 {
                stamp as u64
            } else {
                0
            },
            background_failures: 0,
            is_ws_connected: false,
            session_live: false,
            outbound: Vec::new(),
            outbox: Vec::new(),
        };
        proof {
            assert(r@.pending == Seq::<WireMessage>::empty());
            assert(r@.outbound == Seq::<WireMessage>::empty());
            assert(r@.outbox == Seq::<OutboundEvent>::empty());
        }
        r
    }

    /// Current connection state.
    pub fn get_state(&self) -> (r: ConnectionState)
        ensures
            r == self@.state,
    {
        self.state
    }

    /// Whether a live, working transport session exists.
    pub fn is_connected(&self) -> (r: bool)
        ensures
            r == self@.is_ws_connected,
    {
        self.is_ws_connected
    }

    /// Whether the application is backgrounded.
    pub fn is_app_in_background(&self) -> (r: bool)
        ensures
            r == self@.is_app_in_background,
    {
        self.is_app_in_background
    }

    /// Whether a stop was requested; the reconnection loop exits when so.
    pub fn should_stop(&self) -> (r: bool)
        ensures
            r == self@.should_stop,
    {
        self.should_stop
    }

    /// The configured milliseconds between heartbeat pings; the caller's
    /// interval timer runs at this rate.
    pub fn heartbeat_interval_ms(&self) -> (r: u64)
        ensures
            r == self@.config.heartbeat_interval,
    {
        self.config.heartbeat_interval
    }

    /// Consecutive failed connection attempts so far.
    pub fn reconnect_attempts(&self) -> (r: u32)
        ensures
            r == self@.reconnect_attempts,
    {
        self.reconnect_attempts
    }

    /// The payloads waiting for the next flush, oldest first.
    pub fn pending_snapshot(&self) -> (r: &Vec<WireMessage>)
        ensures
            r@ == self@.pending,
    {
        &self.pending
    }

    /// Takes the events owed to the UI layer, in order.
    pub fn drain_outbox(&mut self) -> (r: Vec<OutboundEvent>)
        ensures
            r@ == old(self)@.outbox,
            final(self)@ == (ClientView { outbox: Seq::empty(), ..old(self)@ }),
    {
        let r = self.outbox.split_off(0);
        proof {
            assert(r@ =~= old(self)@.outbox);
            assert(self@ =~= (ClientView { outbox: Seq::empty(), ..old(self)@ }));
        }
        r
    }

    /// Takes the wire messages owed to the live session's transport, in order.
    pub fn drain_outbound(&mut self) -> (r: Vec<WireMessage>)
        ensures
            r@ == old(self)@.outbound,
            final(self)@ == (ClientView { outbound: Seq::empty(), ..old(self)@ }),
    {
        let r = self.outbound.split_off(0);
        proof {
            assert(r@ =~= old(self)@.outbound);
            assert(self@ =~= (ClientView { outbound: Seq::empty(), ..old(self)@ }));
        }
        r
    }

    /// Replaces the configuration; the replacement is read at the start of the
    /// next connection attempt, not retroactively by the live session.
    pub fn update_config(&mut self, new_config: WebSocketConfig)
        ensures
            final(self)@ == (ClientView { config: new_config, ..old(self)@ }),
    {
        self.config = new_config;
        proof {
            assert(self@ =~= (ClientView { config: new_config, ..old(self)@ }));
        }
    }

    /// Changes the connection state, publishing a state-changed event exactly
    /// when the state actually changes.
    fn update_state(&mut self, new_state: ConnectionState, is_reconnection: bool)
        ensures
            final(self)@ == with_state(old(self)@, new_state, is_reconnection),
    {
        if !(self.state == new_state) {
            self.state = new_state;
            self.outbox.push(
                OutboundEvent::Core(
                    WebSocketEvent::ConnectionStateChanged { state: new_state, is_reconnection },
                ),
            );
            proof {
                assert(self@ =~= with_state(old(self)@, new_state, is_reconnection));
            }
        } else {
            proof {
                assert(self@ =~= with_state(old(self)@, new_state, is_reconnection));
            }
        }
    }

    /// Puts wire messages that could not be handed to the transport back at
    /// the head of the pending queue, keeping their relative order, so the
    /// next flush retries them before anything queued later. The caller
    /// surfaces the partial-flush failure instead of swallowing it.
    pub fn requeue_pending_front(&mut self, failed: Vec<WireMessage>)
        ensures
            final(self)@ == (ClientView {
                pending: failed@ + old(self)@.pending,
                ..old(self)@
            }),
    {
        let mut rest = failed;
        core::mem::swap(&mut self.pending, &mut rest);
        self.pending.append(&mut rest);
        proof {
            assert(self@ =~= (ClientView { pending: failed@ + old(self)@.pending, ..old(self)@ }));
        }
    }

    /// Appends to the bounded pending queue, dropping the oldest entry past
    /// the limit.
    fn push_pending(&mut self, m: WireMessage)
        ensures
            final(self)@ == (ClientView {
                pending: queue_push(old(self)@.pending, m),
                ..old(self)@
            }),
    {
        self.pending.push(m);
        if self.pending.len() > PENDING_QUEUE_LIMIT {
            self.pending.remove(0);
            proof {
                assert(self@.pending =~= queue_push(old(self)@.pending, m));
            }
        }
        proof {
            assert(self@ =~= (ClientView {
                pending: queue_push(old(self)@.pending, m),
                ..old(self)@
            }));
        }
    }

    /// Hands one wire message to the transport, queueing or refusing it by
    /// state.
    fn send_wire(&mut self, m: WireMessage) -> (r: SendOutcome)
        ensures
            (final(self)@, r) == wire_send(old(self)@, m),
    {
        match self.state {
            ConnectionState::Connected => {
                if self.sender_ready {
                    self.outbound.push(m);
                    proof {
                        assert(self@ =~= wire_send(old(self)@, m).0);
                    }
                    SendOutcome::Sent
                } else {
                    self.push_pending(m);
                    proof {
                        assert(self@ =~= wire_send(old(self)@, m).0);
                    }
                    SendOutcome::QueuedSenderNotReady
                }
            },
            ConnectionState::Connecting | ConnectionState::Reconnecting => {
                self.push_pending(m);
                proof {
                    assert(self@ =~= wire_send(old(self)@, m).0);
                }
                SendOutcome::QueuedWhileConnecting
            },
            _ => SendOutcome::NotConnected,
        }
    }

    /// `send`: hands an application payload to the live session, queues it
    /// while a connection is being (re)established — telling the caller it was
    /// queued, not sent — and refuses it outright when disconnected or in the
    /// error state.
    pub fn send_message(&mut self, data: serde_json::Value) -> (r: SendOutcome)
        ensures
            (final(self)@, r) == wire_send(old(self)@, WireMessage::Business(data)),
    {
        self.send_wire(WireMessage::Business(data))
    }

    /// `connect`: idempotent while a working session exists; otherwise stores
    /// the configuration and clears the stop flag. On `StartLoop` the caller
    /// must run the reconnection loop, holding the connection mutex.
    pub fn connect(&mut self, config: WebSocketConfig) -> (r: ConnectDecision)
        ensures
            (final(self)@, r) == connect_transition(old(self)@, config),
    {
        if self.is_ws_connected {
            ConnectDecision::AlreadyConnected
        } else {
            self.config = config;
            self.should_stop = false;
            proof {
                assert(self@ =~= connect_transition(old(self)@, config).0);
            }
            ConnectDecision::StartLoop
        }
    }

    /// `disconnect`: callable in any state, even with no connection. Returns
    /// whether the caller must send a close signal to a live socket. The
    /// caller also aborts the session's background tasks.
    pub fn disconnect(&mut self) -> (r: bool)
        ensures
            (final(self)@, r) == disconnect_transition(old(self)@),
    {
        let signal_close = self.close_sender_ready;
        self.should_stop = true;
        self.is_ws_connected = false;
        self.session_live = false;
        self.sender_ready = false;
        self.close_sender_ready = false;
        self.update_state(ConnectionState::Disconnected, false);
        self.consecutive_failures = 0;
        self.reconnect_attempts = 0;
        self.heartbeat_active = false;
        proof {
            assert(self@ =~= disconnect_transition(old(self)@).0);
        }
        signal_close
    }

    /// `force_reconnect`: marks the coming connect as a recovery (so the UI
    /// can show a syncing indicator before any socket attempt), tears the
    /// current session down, and leaves the client ready for the caller to run
    /// the reconnection loop at once.
    pub fn force_reconnect(&mut self) -> (r: bool)
        ensures
            (final(self)@, r) == force_reconnect_transition(old(self)@),
    {
        self.is_reconnecting = true;
        self.reconnect_attempts = 0;
        let signal_close = self.disconnect();
        self.should_stop = false;
        proof {
            assert(self@ =~= force_reconnect_transition(old(self)@).0);
        }
        signal_close
    }

    /// Builds the URL a connection attempt dials: the configured endpoint
    /// with the client id appended as the `clientId` query parameter and,
    /// when the token is non-empty, the token as the `Token` parameter
    /// (percent-encoded by the URL crate). `None` exactly when the endpoint
    /// is not a URL the parser accepts; the caller counts that as a failed
    /// attempt, feeding backoff like any transport error. The built text
    /// itself runs through the opaque URL value, so the contract pins the
    /// success condition; the exact text is covered by the test suite.
    pub fn build_connect_url(&self) -> (r: Option<String>)
        ensures
            r is Some <==> crate::ext::url_accepts(self@.config.server_url@),
    {
        let parsed = crate::ext::url_parse(self.config.server_url.as_str());
        match parsed {
            None => None,
            Some(mut u) => {
                crate::ext::url_append_query_pair(&mut u, "clientId", self.config.client_id.as_str());
                if !self.config.token.as_str().is_empty() {
                    crate::ext::url_append_query_pair(&mut u, "Token", self.config.token.as_str());
                }
                Some(crate::ext::url_to_text(&u))
            },
        }
    }

    /// Marks the start of a connection attempt.
    pub fn mark_connecting(&mut self)
        ensures
            final(self)@ == with_state(old(self)@, ConnectionState::Connecting, false),
    {
        self.update_state(ConnectionState::Connecting, false);
    }

    /// Records a failed connection attempt and decides between retrying after
    /// the backoff delay and giving up for good.
    pub fn on_connect_failure(&mut self) -> (r: RetryDecision)
        ensures
            (final(self)@, r) == connect_failure_transition(old(self)@),
    {
        let attempts = if self.reconnect_attempts == u32::MAX {
            u32::MAX
        } else {
            self.reconnect_attempts + 1
        };
        self.reconnect_attempts = attempts;
        if self.config.max_reconnect_attempts > 0 && attempts
            >= self.config.max_reconnect_attempts {
            self.outbox.push(
                OutboundEvent::Core(
                    WebSocketEvent::Error {
                        reason: ErrorReason::TooManyConnectionFailures,
                        details: None,
                    },
                ),
            );
            self.is_ws_connected = false;
            self.update_state(ConnectionState::Error, false);
            proof {
                assert(self@ =~= connect_failure_transition(old(self)@).0);
            }
            RetryDecision::GiveUp
        } else {
            let delay = compute_backoff_delay(attempts, self.config.reconnect_delay_ms);
            self.update_state(ConnectionState::Reconnecting, true);
            proof {
                assert(self@ =~= connect_failure_transition(old(self)@).0);
            }
            RetryDecision::RetryAfter(delay)
        }
    }

    /// Records a successful handshake. Requires that no transport session is
    /// live: the connection mutex serializes session creation, and the
    /// reconnection loop establishes a session only after the previous one was
    /// torn down. Returns whether this connect is a recovery, in which case
    /// the caller schedules the post-reconnect message sync.
    pub fn on_socket_connected(&mut self) -> (r: bool)
        requires
            !old(self)@.session_live,
        ensures
            (final(self)@, r) == session_established_transition(old(self)@),
    {
        let was_reconnecting = self.is_reconnecting;
        self.sender_ready = true;
        self.close_sender_ready = true;
        self.is_reconnecting = false;
        self.update_state(ConnectionState::Connected, was_reconnecting);
        self.is_ws_connected = true;
        self.session_live = true;
        self.reconnect_attempts = 0;
        let flushed = self.pending.split_off(0);
        self.outbound = flushed;
        self.heartbeat_active = true;
        proof {
            assert(self@.pending =~= Seq::<WireMessage>::empty());
            assert(self@.outbound =~= old(self)@.pending);
            assert(self@ =~= session_established_transition(old(self)@).0);
        }
        was_reconnecting
    }

    /// Records what the session's send and receive loops report: a send or
    /// receive failure, or a close frame. The session no longer works; the
    /// supervising loop observes this and tears the session down. A half-dead
    /// socket is thereby treated as a fully failed session.
    pub fn on_transport_failure(&mut self)
        ensures
            final(self)@ == (ClientView { is_ws_connected: false, ..old(self)@ }),
    {
        self.is_ws_connected = false;
        proof {
            assert(self@ =~= (ClientView { is_ws_connected: false, ..old(self)@ }));
        }
    }

    /// Whether a transport session (live or half-dead) exists; none may be
    /// established while one does.
    pub fn has_live_session(&self) -> (r: bool)
        ensures
            r == self@.session_live,
    {
        self.session_live
    }

    /// Records the supervising task's cleanup after a session loop ended:
    /// stops the heartbeat and drops the outbound sender. Sends that arrive
    /// between this and the reconnection loop's own cleanup meet a connected
    /// state without a sender, and are queued.
    pub fn on_supervisor_exit(&mut self)
        ensures
            final(self)@ == supervisor_exit_transition(old(self)@),
    {
        self.heartbeat_active = false;
        self.sender_ready = false;
        proof {
            assert(self@ =~= supervisor_exit_transition(old(self)@));
        }
    }

    /// Records that the live session died; the caller then loops back into
    /// the reconnection loop (or exits it, when a stop was requested).
    pub fn on_session_dead(&mut self)
        ensures
            final(self)@ == session_dead_transition(old(self)@),
    {
        self.is_reconnecting = true;
        self.update_state(ConnectionState::Reconnecting, true);
        self.heartbeat_active = false;
        self.sender_ready = false;
        self.close_sender_ready = false;
        self.is_ws_connected = false;
        self.session_live = false;
        proof {
            assert(self@ =~= session_dead_transition(old(self)@));
        }
    }

    /// One heartbeat tick, driven by the caller's interval timer with its
    /// reading of the clock.
    pub fn heartbeat_tick(&mut self, now: u64) -> (r: HeartbeatTick)
        ensures
            (final(self)@, r) == heartbeat_tick_transition(old(self)@, now),
    {
        if !self.heartbeat_active || self.should_stop {
            return HeartbeatTick::Inactive;
        }
        if !self.sender_ready {
            return HeartbeatTick::SenderGone;
        }
        self.outbound.push(WireMessage::Ping);
        let timeout = if self.is_app_in_background {
            BACKGROUND_HEARTBEAT_TIMEOUT_MS
        } else {
            self.config.heartbeat_timeout
        };
        let overdue = self.last_pong_time > 0 && now > self.last_pong_time && now
            - self.last_pong_time > timeout;
        if overdue {
            if self.is_app_in_background {
                let failures = if self.background_failures == u32::MAX {
                    u32::MAX
                } else {
                    self.background_failures + 1
                };
                self.background_failures = failures;
                if failures >= MAX_BACKGROUND_FAILURES {
                    self.is_ws_connected = false;
                    proof {
                        assert(self@ =~= heartbeat_tick_transition(old(self)@, now).0);
                    }
                    HeartbeatTick::PingedDead
                } else {
                    proof {
                        assert(self@ =~= heartbeat_tick_transition(old(self)@, now).0);
                    }
                    HeartbeatTick::PingedOverdue { failures }
                }
            } else {
                let failures = if self.consecutive_failures == u32::MAX {
                    u32::MAX
                } else {
                    self.consecutive_failures + 1
                };
                self.consecutive_failures = failures;
                if failures >= MAX_FOREGROUND_FAILURES {
                    self.is_ws_connected = false;
                    proof {
                        assert(self@ =~= heartbeat_tick_transition(old(self)@, now).0);
                    }
                    HeartbeatTick::PingedDead
                } else {
                    proof {
                        assert(self@ =~= heartbeat_tick_transition(old(self)@, now).0);
                    }
                    HeartbeatTick::PingedOverdue { failures }
                }
            }
        } else {
            proof {
                assert(self@ =~= heartbeat_tick_transition(old(self)@, now).0);
            }
            HeartbeatTick::Pinged
        }
    }

    /// Records a pong: zeroes the foreground failure counter and publishes a
    /// healthy heartbeat snapshot. `now` is the caller's clock reading; zero
    /// stands for "never", so a real reading is positive.
    pub fn on_pong(&mut self, now: u64)
        requires
            now >= 1,
        ensures
            final(self)@ == pong_transition(old(self)@, now),
    {
        self.last_pong_time = now;
        self.consecutive_failures = 0;
        self.outbox.push(
            OutboundEvent::Core(
                WebSocketEvent::HeartbeatStatusChanged {
                    health: ConnectionHealth {
                        is_healthy: true,
                        last_pong_time: Some(now),
                        consecutive_failures: 0,
                        round_trip_time: None,
                    },
                },
            ),
        );
        proof {
            assert(self@ =~= pong_transition(old(self)@, now));
        }
    }

    /// The derived health snapshot at the caller's clock reading.
    pub fn get_health_status(&self, now: u64) -> (r: ConnectionHealth)
        ensures
            r == health_of(self@, now),
    {
        let is_healthy = if self.last_pong_time == 0 {
            match self.state {
                ConnectionState::Connected => true,
                _ => false,
            }
        } else {
            now > self.last_pong_time && now - self.last_pong_time < HEALTHY_PONG_WINDOW_MS || now
                <= self.last_pong_time
        };
        ConnectionHealth {
            is_healthy,
            last_pong_time: if self.last_pong_time == 0 {
                None
            } else {
                Some(self.last_pong_time)
            },
            consecutive_failures: self.consecutive_failures,
            round_trip_time: None,
        }
    }

    /// Flags the application lifecycle state. Entering the background zeroes
    /// the background failure counter; returning to the foreground stamps the
    /// time and asks the caller (by returning true) to run the
    /// check-and-recover probe.
    pub fn set_app_background_state(&mut self, is_background: bool, now: u64) -> (r: bool)
        ensures
            (final(self)@, r) == set_background_transition(old(self)@, is_background, now),
    {
        let was_background = self.is_app_in_background;
        self.is_app_in_background = is_background;
        if is_background && !was_background {
            self.background_failures = 0;
        } else if !is_background && was_background {
            self.last_foreground_time = now;
        }
        proof {
            assert(self@ =~= set_background_transition(old(self)@, is_background, now).0);
        }
        !is_background && was_background
    }

    /// Decides what a return to the foreground must do: force a reconnect when
    /// the connection is gone or its last pong is too old, probe a live
    /// connection with a test heartbeat, and wait when an attempt is already
    /// in flight.
    pub fn check_and_recover_connection(&self, now: u64) -> (r: RecoveryAction)
        ensures
            r == recovery_action_of(self@, now),
    {
        match self.state {
            ConnectionState::Connected => {
                if self.last_pong_time > 0 && now > self.last_pong_time && now
                    - self.last_pong_time > RECOVERY_PONG_GAP_MS {
                    RecoveryAction::ForceReconnect
                } else {
                    RecoveryAction::SendTestHeartbeat
                }
            },
            ConnectionState::Disconnected | ConnectionState::Error => RecoveryAction::ForceReconnect,
            _ => RecoveryAction::Wait,
        }
    }

    /// Probes the connection with a heartbeat ping, queueing or refusing it by
    /// state like any other send.
    pub fn send_test_heartbeat(&mut self) -> (r: SendOutcome)
        ensures
            (final(self)@, r) == wire_send(old(self)@, WireMessage::Ping),
    {
        self.send_wire(WireMessage::Ping)
    }

    /// Hands an acknowledgment of the given message to the transport, trying
    /// up to three times; the acknowledgment is stamped with the given clock
    /// reading. Returns whether it was sent (as opposed to queued or
    /// refused); a lost acknowledgment is an application-level concern, never
    /// a transport failure.
    pub fn send_ack_at(&mut self, message_id: String, timestamp: i64) -> (r: bool)
        ensures
            (final(self)@, r) == send_ack_transition(
                old(self)@,
                AckMessage { msg_id: message_id, timestamp },
            ),
    {
        let ghost ack = AckMessage { msg_id: message_id, timestamp };
        let first_id = message_id.clone();
        let first = self.send_wire(WireMessage::Ack(AckMessage { msg_id: first_id, timestamp }));
        if first == SendOutcome::Sent {
            return true;
        }
        let second_id = message_id.clone();
        let second = self.send_wire(WireMessage::Ack(AckMessage { msg_id: second_id, timestamp }));
        if second == SendOutcome::Sent {
            return true;
        }
        let third = self.send_wire(WireMessage::Ack(AckMessage { msg_id: message_id, timestamp }));
        third == SendOutcome::Sent
    }

    /// Hands an acknowledgment of the given message to the transport, stamped
    /// with the wall clock, trying up to three times.
    pub fn send_ack(&mut self, message_id: &str) -> (r: bool)
        ensures
            exists|mid: String, ts: i64|
                mid@ == message_id@ && (final(self)@, r) == send_ack_transition(
                    old(self)@,
                    AckMessage { msg_id: mid, timestamp: ts },
                ),
    {
        let ts = crate::ext::now_millis();
        let mid = message_id.to_owned();
        let ghost gmid = mid;
        let r = self.send_ack_at(mid, ts);
        proof {
            assert(gmid@ == message_id@ && (self@, r) == send_ack_transition(
                old(self)@,
                AckMessage { msg_id: gmid, timestamp: ts },
            ));
        }
        r
    }

    /// Routes one decoded frame: acknowledges delivered chat messages,
    /// publishes the business event on its named channel, and republishes the
    /// raw frame as a generic message-received event. `now` is the caller's
    /// clock reading (positive; zero stands for "never").
    /// Routes one business frame; see `business_transition`.
    fn process_business(
        &mut self,
        raw: serde_json::Value,
        msg_type: String,
        data: Option<serde_json::Value>,
        message_id: Option<String>,
        now: u64,
    ) -> (r: ProcessResult)
        requires
            now <= i64::MAX as u64,
        ensures
            final(self)@ == business_transition(old(self)@, raw, msg_type, data, message_id, now),
            r == (if classify_spec(msg_type@) == BusinessKind::Unknown {
                ProcessResult::Unhandled
            } else {
                ProcessResult::Handled
            }),
    {
        let ghost id_view = message_id;
        let kind = classify(msg_type.as_str());
        if wants_ack(kind) {
            if let Some(id) = message_id {
                self.send_ack_at(id, now as i64);
            }
        }
        proof {
            let acked_view = if kind == BusinessKind::ReceiveMessage && id_view is Some {
                send_ack_transition(
                    old(self)@,
                    AckMessage { msg_id: id_view->0, timestamp: now as i64 },
                ).0
            } else {
                old(self)@
            };
            assert(self@ == acked_view);
        }
        let payload = match kind {
            BusinessKind::Unknown => Some(crate::ext::json_clone(&raw)),
            _ => data,
        };
        self.outbox.push(OutboundEvent::Business { kind, payload });
        self.outbox.push(
            OutboundEvent::Core(
                WebSocketEvent::MessageReceived { message: raw },
            ),
        );
        proof {
            assert(self@ =~= business_transition(old(self)@, raw, msg_type, data, id_view, now));
        }
        if kind == BusinessKind::Unknown {
            ProcessResult::Unhandled
        } else {
            ProcessResult::Handled
        }
    }

    /// Decodes one inbound text frame into the fields the dispatcher reads.
    /// What comes back is decided by the opaque JSON accessors, so the
    /// contract pins down only the not-JSON case; the routing of whatever was
    /// decoded is exact in `process_frame`.
    fn parse_inbound(text: &str) -> (r: InboundFrame)
        ensures
            r matches InboundFrame::NotJson { text: t } ==> t@ == text@,
    {
        match crate::ext::json_parse(text) {
            None => InboundFrame::NotJson { text: text.to_owned() },
            Some(raw) => {
                let msg_type = match crate::ext::json_get(&raw, "type") {
                    Some(t) => match crate::ext::json_as_str(t) {
                        Some(s) => s,
                        None => String::new(),
                    },
                    None => String::new(),
                };
                let pong_stamp = match crate::ext::json_get(&raw, "data") {
                    Some(d) => match crate::ext::json_get(d, "timestamp") {
                        Some(ts) => crate::ext::json_as_u64(ts),
                        None => None,
                    },
                    None => None,
                };
                if crate::message::str_eq(msg_type.as_str(), "14") && pong_stamp.is_some() {
                    return InboundFrame::Pong;
                }
                let data = match crate::ext::json_get(&raw, "data") {
                    Some(d) => Some(crate::ext::json_clone(d)),
                    None => None,
                };
                let message_id = match &data {
                    Some(d) => match crate::ext::json_get(d, "message") {
                        Some(m) => match crate::ext::json_get(m, "id") {
                            Some(id) => crate::ext::json_as_str(id),
                            None => None,
                        },
                        None => None,
                    },
                    None => None,
                };
                InboundFrame::Business { raw, msg_type, data, message_id }
            },
        }
    }

    /// Receives one text frame off the wire: decodes it and routes the
    /// result. The decoding reads opaque JSON values, so the contract says
    /// that the state moved by the routing transition of some decoded frame;
    /// `process_frame` gives that transition exactly, frame by frame.
    pub fn handle_message(&mut self, text: &str, now: u64) -> (r: ProcessResult)
        requires
            now >= 1,
            now <= i64::MAX as u64,
        ensures
            exists|frame: InboundFrame|
                final(self)@ == inbound_transition(old(self)@, frame, now) && r
                    == process_result_of(frame),
    {
        let frame = Self::parse_inbound(text);
        let ghost decoded = frame;
        let r = self.process_frame(frame, now);
        proof {
            assert(self@ == inbound_transition(old(self)@, decoded, now) && r == process_result_of(
                decoded,
            ));
        }
        r
    }

    /// Routes one decoded frame: acknowledges delivered chat messages,
    /// publishes the business event on its named channel, and republishes the
    /// raw frame as a generic message-received event; malformed (not-JSON)
    /// frames are dropped without touching state or health. `now` is the
    /// caller's clock reading (positive; zero stands for "never").
    pub fn process_frame(&mut self, frame: InboundFrame, now: u64) -> (r: ProcessResult)
        requires
            now >= 1,
            now <= i64::MAX as u64,
        ensures
            final(self)@ == inbound_transition(old(self)@, frame, now),
            r == process_result_of(frame),
    {
        match frame {
            InboundFrame::NotJson { .. } => ProcessResult::Unhandled,
            InboundFrame::Pong => {
                self.on_pong(now);
                ProcessResult::Handled
            },
            InboundFrame::Business { raw, msg_type, data, message_id } => self.process_business(
                raw,
                msg_type,
                data,
                message_id,
                now,
            ),
        }
    }
}

/// One call into the client, in the order the connection mutex and the
/// session's loops serialize them.
pub ghost enum ClientOp {
    /// `connect` with a configuration.
    Connect(WebSocketConfig),
    /// `disconnect`.
    Disconnect,
    /// `force_reconnect`.
    ForceReconnect,
    /// `update_config`.
    UpdateConfig(WebSocketConfig),
    /// `send_message` with a payload.
    Send(serde_json::Value),
    /// `send_test_heartbeat`.
    TestHeartbeat,
    /// `mark_connecting`, at the start of a connection attempt.
    MarkConnecting,
    /// `on_connect_failure`, after a failed attempt.
    ConnectFailure,
    /// `on_socket_connected`, after a successful handshake.
    SocketConnected,
    /// `on_transport_failure`, when a session loop reports the socket broken.
    TransportFailure,
    /// `on_supervisor_exit`, when the supervising task cleans up.
    SupervisorExit,
    /// `on_session_dead`, after the live session ended.
    SessionDead,
    /// `heartbeat_tick` at a clock reading.
    Tick(u64),
    /// `on_pong` at a clock reading.
    Pong(u64),
    /// `process_frame` with a decoded frame at a clock reading.
    Frame(InboundFrame, u64),
    /// `send_ack_at` with an acknowledgment.
    SendAck(AckMessage),
    /// `set_app_background_state` at a clock reading.
    SetBackground(bool, u64),
    /// `requeue_pending_front`, after a partial flush failed.
    RequeueFront(Seq<WireMessage>),
}

/// The transition each call performs. `SocketConnected` is a no-op while a
/// session is live: the exec method requires that none is, which its callers
/// owe to the connection mutex, and the step mirrors that guard.
pub open spec fn step(v: ClientView, op: ClientOp) -> ClientView {
    match op {
        ClientOp::Connect(config) => connect_transition(v, config).0,
        ClientOp::Disconnect => disconnect_transition(v).0,
        ClientOp::ForceReconnect => force_reconnect_transition(v).0,
        ClientOp::UpdateConfig(config) => ClientView { config, ..v },
        ClientOp::Send(payload) => wire_send(v, WireMessage::Business(payload)).0,
        ClientOp::TestHeartbeat => wire_send(v, WireMessage::Ping).0,
        ClientOp::MarkConnecting => with_state(v, ConnectionState::Connecting, false),
        ClientOp::ConnectFailure => connect_failure_transition(v).0,
        ClientOp::SocketConnected => if v.session_live {
            v
        } else {
            session_established_transition(v).0
        },
        ClientOp::TransportFailure => ClientView { is_ws_connected: false, ..v },
        ClientOp::SupervisorExit => supervisor_exit_transition(v),
        ClientOp::SessionDead => session_dead_transition(v),
        ClientOp::Tick(now) => heartbeat_tick_transition(v, now).0,
        ClientOp::Pong(now) => pong_transition(v, now),
        ClientOp::Frame(frame, now) => inbound_transition(v, frame, now),
        ClientOp::SendAck(ack) => send_ack_transition(v, ack).0,
        ClientOp::SetBackground(b, now) => set_background_transition(v, b, now).0,
        ClientOp::RequeueFront(failed) => ClientView { pending: failed + v.pending, ..v },
    }
}

/// The state after a sequence of calls.
pub open spec fn run(v: ClientView, ops: Seq<ClientOp>) -> ClientView
    decreases ops.len(),
{
    if ops.len() == 0 {
        v
    } else {
        run(step(v, ops[0]), ops.drop_first())
    }
}

/// How many transport sessions are live.
pub open spec fn live_sessions(v: ClientView) -> nat {
    if v.session_live {
        1
    } else {
        0
    }
}

/// The session discipline every reachable state keeps: no more than one
/// transport session at a time, and a working connection
/// (`is_ws_connected`) only ever rides on an existing session.
pub open spec fn session_invariant(v: ClientView) -> bool {
    &&& live_sessions(v) <= 1
    &&& v.is_ws_connected ==> v.session_live
}

/// Running a sequence and then one more call is one more step.
proof fn lemma_run_snoc(v: ClientView, ops: Seq<ClientOp>, op: ClientOp)
    ensures
        run(v, ops.push(op)) == step(run(v, ops), op),
    decreases ops.len(),
{
    if ops.len() == 0 {
        assert(ops.push(op)[0] == op);
        assert(ops.push(op).drop_first() =~= Seq::<ClientOp>::empty());
        assert(run(v, ops.push(op)) == run(step(v, op), Seq::<ClientOp>::empty()));
        assert(run(v, ops) == v);
    } else {
        assert(ops.push(op)[0] == ops[0]);
        assert(ops.push(op).drop_first() =~= ops.drop_first().push(op));
        lemma_run_snoc(step(v, ops[0]), ops.drop_first(), op);
        assert(run(v, ops.push(op)) == run(step(v, ops[0]), ops.drop_first().push(op)));
        assert(run(v, ops) == run(step(v, ops[0]), ops.drop_first()));
    }
}

/// No single call breaks the session discipline: establishing a session
/// happens only from a state with none (the guard the connection mutex
/// enforces), a connection is only marked working in the same step that
/// establishes its session, and every other call keeps or clears what
/// exists.
pub proof fn lemma_step_single_session(v: ClientView, op: ClientOp)
    requires
        session_invariant(v),
    ensures
        session_invariant(step(v, op)),
{
}

/// At most one live transport session exists at any instant: along any
/// serialized sequence of calls from a state that keeps the session
/// discipline (a fresh client does), every intermediate state keeps it — so
/// no instant sees two live sessions, nor a working connection without its
/// session. The serialization itself is what the connection mutex provides;
/// this lemma covers every order of calls it can admit.
pub proof fn lemma_at_most_one_live_session(v: ClientView, ops: Seq<ClientOp>)
    requires
        session_invariant(v),
    ensures
        forall|i: int|
            0 <= i <= ops.len() ==> session_invariant(run(v, #[trigger] ops.take(i))),
    decreases ops.len(),
{
    assert forall|i: int| 0 <= i <= ops.len() implies session_invariant(
        run(v, #[trigger] ops.take(i)),
    ) by {
        lemma_prefix_single_session(v, ops, i);
    }
}

/// Helper: the state after any prefix of calls keeps the session discipline.
proof fn lemma_prefix_single_session(v: ClientView, ops: Seq<ClientOp>, i: int)
    requires
        session_invariant(v),
        0 <= i <= ops.len(),
    ensures
        session_invariant(run(v, ops.take(i))),
    decreases i,
{
    if i == 0 {
        assert(ops.take(0) =~= Seq::<ClientOp>::empty());
    } else {
        lemma_prefix_single_session(v, ops, i - 1);
        assert(ops.take(i) =~= ops.take(i - 1).push(ops[i - 1]));
        lemma_run_snoc(v, ops.take(i - 1), ops[i - 1]);
        lemma_step_single_session(run(v, ops.take(i - 1)), ops[i - 1]);
    }
}

/// The pending queue never outgrows its bound, and pushing onto a full queue
/// drops exactly the oldest entry: the survivors shift down one place and the
/// new entry stands last.
pub proof fn lemma_queue_overflow_drops_oldest(q: Seq<WireMessage>, m: WireMessage)
    requires
        q.len() == PENDING_QUEUE_LIMIT,
    ensures
        queue_push(q, m).len() == PENDING_QUEUE_LIMIT,
        queue_push(q, m) == q.subrange(1, PENDING_QUEUE_LIMIT as int).push(m),
        queue_push(q, m)[PENDING_QUEUE_LIMIT - 1] == m,
        forall|i: int| 0 <= i < PENDING_QUEUE_LIMIT - 1 ==> queue_push(q, m)[i] == q[i + 1],
{
    assert(queue_push(q, m) =~= q.subrange(1, PENDING_QUEUE_LIMIT as int).push(m));
}

/// The pending queue is size-bounded: a push never leaves more than the limit.
pub proof fn lemma_queue_stays_bounded(q: Seq<WireMessage>, m: WireMessage)
    requires
        q.len() <= PENDING_QUEUE_LIMIT,
    ensures
        queue_push(q, m).len() <= PENDING_QUEUE_LIMIT,
{
}

/// Whether the pending queue is within its bound.
pub open spec fn pending_bounded(v: ClientView) -> bool {
    v.pending.len() <= PENDING_QUEUE_LIMIT as nat
}

/// Every serialized call keeps the pending queue within its bound — except a
/// re-queue after a partial flush, which only re-inserts entries that were
/// queued (and counted against the bound) before the flush drained them, so
/// no call path grows the queue without bound.
pub proof fn lemma_step_keeps_queue_bounded(v: ClientView, op: ClientOp)
    requires
        pending_bounded(v),
        !(op is RequeueFront),
    ensures
        pending_bounded(step(v, op)),
{
    match op {
        ClientOp::Send(payload) => {
            lemma_wire_send_keeps_queue_bounded(v, WireMessage::Business(payload));
        },
        ClientOp::TestHeartbeat => {
            lemma_wire_send_keeps_queue_bounded(v, WireMessage::Ping);
        },
        ClientOp::SendAck(ack) => {
            lemma_ack_keeps_queue_bounded(v, ack);
        },
        ClientOp::Frame(frame, now) => {
            match frame {
                InboundFrame::Business { raw, msg_type, data, message_id } => {
                    if classify_spec(msg_type@) == BusinessKind::ReceiveMessage
                        && message_id is Some {
                        lemma_ack_keeps_queue_bounded(
                            v,
                            AckMessage { msg_id: message_id->0, timestamp: now as i64 },
                        );
                    }
                },
                _ => {},
            }
        },
        _ => {},
    }
}

/// Handing one wire message to the transport keeps the queue bound.
proof fn lemma_wire_send_keeps_queue_bounded(v: ClientView, m: WireMessage)
    requires
        pending_bounded(v),
    ensures
        pending_bounded(wire_send(v, m).0),
{
    lemma_queue_stays_bounded(v.pending, m);
}

/// The three acknowledgment tries keep the queue bound.
proof fn lemma_ack_keeps_queue_bounded(v: ClientView, ack: AckMessage)
    requires
        pending_bounded(v),
    ensures
        pending_bounded(send_ack_transition(v, ack).0),
{
    let (v1, _) = wire_send(v, WireMessage::Ack(ack));
    lemma_wire_send_keeps_queue_bounded(v, WireMessage::Ack(ack));
    let (v2, _) = wire_send(v1, WireMessage::Ack(ack));
    lemma_wire_send_keeps_queue_bounded(v1, WireMessage::Ack(ack));
    lemma_wire_send_keeps_queue_bounded(v2, WireMessage::Ack(ack));
}

/// The state after handing the transport each payload in turn.
pub open spec fn send_all(v: ClientView, payloads: Seq<serde_json::Value>) -> ClientView
    decreases payloads.len(),
{
    if payloads.len() == 0 {
        v
    } else {
        send_all(
            wire_send(v, WireMessage::Business(payloads[0])).0,
            payloads.drop_first(),
        )
    }
}

/// Messages enqueued while a connection is being (re)established are
/// delivered on the first successful post-reconnect flush, in their original
/// order: with pending room for them, sending any sequence of payloads while
/// `Connecting` or `Reconnecting` and then establishing a session hands the
/// transport exactly the earlier queue followed by those payloads, and
/// empties the pending queue.
pub proof fn lemma_all_queued_messages_flush_in_order(
    v: ClientView,
    payloads: Seq<serde_json::Value>,
)
    requires
        v.state == ConnectionState::Connecting || v.state == ConnectionState::Reconnecting,
        v.pending.len() + payloads.len() <= PENDING_QUEUE_LIMIT as nat,
    ensures
        ({
            let queued = send_all(v, payloads);
            let (after, _) = session_established_transition(queued);
            &&& after.outbound == v.pending + payloads.map_values(
                |p: serde_json::Value| WireMessage::Business(p),
            )
            &&& after.pending.len() == 0
        }),
    decreases payloads.len(),
{
    let to_wire = |p: serde_json::Value| WireMessage::Business(p);
    if payloads.len() == 0 {
        assert(v.pending + payloads.map_values(to_wire) =~= v.pending);
    } else {
        let first = WireMessage::Business(payloads[0]);
        let v1 = wire_send(v, first).0;
        assert(v1.pending =~= v.pending.push(first));
        lemma_all_queued_messages_flush_in_order(v1, payloads.drop_first());
        assert(v1.pending + payloads.drop_first().map_values(to_wire) =~= v.pending
            + payloads.map_values(to_wire));
    }
}

/// The flush-order law on the three-message case: with pending room for
/// them, sending `a`, `b`, `c` while `Reconnecting` and then establishing a
/// session hands the transport exactly the earlier queue followed by `a`,
/// `b`, `c`, and empties the pending queue.
pub proof fn lemma_pending_flushes_in_order(
    v: ClientView,
    a: serde_json::Value,
    b: serde_json::Value,
    c: serde_json::Value,
)
    requires
        v.state == ConnectionState::Reconnecting,
        v.pending.len() + 3 <= PENDING_QUEUE_LIMIT,
    ensures
        ({
            let v1 = wire_send(v, WireMessage::Business(a)).0;
            let v2 = wire_send(v1, WireMessage::Business(b)).0;
            let v3 = wire_send(v2, WireMessage::Business(c)).0;
            let (after, _) = session_established_transition(v3);
            &&& after.outbound == v.pending + seq![
                WireMessage::Business(a),
                WireMessage::Business(b),
                WireMessage::Business(c),
            ]
            &&& after.pending.len() == 0
        }),
{
    let v1 = wire_send(v, WireMessage::Business(a)).0;
    let v2 = wire_send(v1, WireMessage::Business(b)).0;
    let v3 = wire_send(v2, WireMessage::Business(c)).0;
    assert(v3.pending =~= v.pending + seq![
        WireMessage::Business(a),
        WireMessage::Business(b),
        WireMessage::Business(c),
    ]);
}

/// A pong resets the failure counter to zero and makes the client healthy:
/// the transition publishes a healthy snapshot at once, and any snapshot
/// taken inside the health window after the pong reports healthy with zero
/// consecutive failures.
pub proof fn lemma_pong_restores_health(v: ClientView, now: u64, later: u64)
    requires
        1 <= now <= later,
        later - now < HEALTHY_PONG_WINDOW_MS,
    ensures
        ({
            let after = pong_transition(v, now);
            &&& after.consecutive_failures == 0
            &&& after.outbox.last() == OutboundEvent::Core(
                WebSocketEvent::HeartbeatStatusChanged {
                    health: ConnectionHealth {
                        is_healthy: true,
                        last_pong_time: Some(now),
                        consecutive_failures: 0,
                        round_trip_time: None,
                    },
                },
            )
            &&& health_of(after, later) == (ConnectionHealth {
                is_healthy: true,
                last_pong_time: Some(now),
                consecutive_failures: 0,
                round_trip_time: None,
            })
        }),
{
}

/// After any successful connection the attempt counter is back at zero, so
/// the delay before the next retry (should that connection fail at once) is
/// the base delay again, up to the cap.
pub proof fn lemma_backoff_resets_after_success(v: ClientView)
    requires
        v.config.max_reconnect_attempts != 1,
    ensures
        ({
            let (connected, _) = session_established_transition(v);
            let (_, decision) = connect_failure_transition(connected);
            decision == RetryDecision::RetryAfter(
                vstd::math::min(
                    v.config.reconnect_delay_ms as int,
                    crate::backoff::MAX_BACKOFF_DELAY_MS as int,
                ) as u64,
            )
        }),
{
    let (connected, _) = session_established_transition(v);
    assert(connected.reconnect_attempts == 0);
    crate::backoff::lemma_backoff_restarts_at_base(v.config.reconnect_delay_ms);
}

/// With an attempt ceiling of three and every attempt failing, the
/// reconnection loop is told to retry exactly twice and to give up on the
/// third failure, publishing an error event and parking the client in the
/// terminal `Error` state.
pub proof fn lemma_retry_ceiling_halts(v: ClientView)
    requires
        v.reconnect_attempts == 0,
        v.config.max_reconnect_attempts == 3,
    ensures
        ({
            let (v1, d1) = connect_failure_transition(v);
            let (v2, d2) = connect_failure_transition(v1);
            let (v3, d3) = connect_failure_transition(v2);
            &&& d1 == RetryDecision::RetryAfter(
                backoff_delay(1, v.config.reconnect_delay_ms) as u64,
            )
            &&& d2 == RetryDecision::RetryAfter(
                backoff_delay(2, v.config.reconnect_delay_ms) as u64,
            )
            &&& d3 == RetryDecision::GiveUp
            &&& v3.state == ConnectionState::Error
            &&& v3.outbox[v2.outbox.len() as int] == OutboundEvent::Core(
                WebSocketEvent::Error {
                    reason: ErrorReason::TooManyConnectionFailures,
                    details: None,
                },
            )
        }),
{
}

/// A delivered chat-message frame carrying a message id, handled on a live
/// connection, puts exactly one acknowledgment referencing that id on the
/// wire and publishes exactly one receive-message business event (followed by
/// the generic message-received republication).
pub proof fn lemma_receive_message_acked(
    v: ClientView,
    raw: serde_json::Value,
    msg_type: String,
    data: serde_json::Value,
    id: String,
    now: u64,
)
    requires
        msg_type@ == "receiveMessage"@,
        v.state == ConnectionState::Connected,
        v.sender_ready,
    ensures
        ({
            let after = business_transition(v, raw, msg_type, Some(data), Some(id), now);
            &&& after.outbound == v.outbound.push(
                WireMessage::Ack(AckMessage { msg_id: id, timestamp: now as i64 }),
            )
            &&& after.outbox == v.outbox.push(
                OutboundEvent::Business {
                    kind: BusinessKind::ReceiveMessage,
                    payload: Some(data),
                },
            ).push(
                OutboundEvent::Core(
                    WebSocketEvent::MessageReceived { message: raw },
                ),
            )
            &&& after.pending == v.pending
        }),
{
    proof_classify_receive_message(msg_type);
}

/// An unrecognized discriminator is forwarded under the generic
/// unhandled-message event, carrying the whole frame, and is acknowledged
/// never; the dispatcher is a total function, so no frame can crash it.
pub proof fn lemma_unknown_type_forwarded(
    v: ClientView,
    raw: serde_json::Value,
    msg_type: String,
    data: Option<serde_json::Value>,
    message_id: Option<String>,
    now: u64,
)
    requires
        classify_spec(msg_type@) == BusinessKind::Unknown,
    ensures
        ({
            let after = business_transition(v, raw, msg_type, data, message_id, now);
            &&& after.outbound == v.outbound
            &&& after.pending == v.pending
            &&& after.outbox == v.outbox.push(
                OutboundEvent::Business { kind: BusinessKind::Unknown, payload: Some(raw) },
            ).push(
                OutboundEvent::Core(
                    WebSocketEvent::MessageReceived { message: raw },
                ),
            )
        }),
{
}

/// `"receiveMessage"` classifies as the receive-message kind.
proof fn proof_classify_receive_message(msg_type: String)
    requires
        msg_type@ == "receiveMessage"@,
    ensures
        classify_spec(msg_type@) == BusinessKind::ReceiveMessage,
{
    reveal(classify_spec);
    reveal_strlit("receiveMessage");
    reveal_strlit("loginQrCode");
    reveal_strlit("waitingAuthorize");
    reveal_strlit("loginSuccess");
    assert("receiveMessage"@.len() == 14);
    assert("receiveMessage"@ != "loginQrCode"@);
    assert("receiveMessage"@ != "waitingAuthorize"@);
    assert("receiveMessage"@ != "loginSuccess"@);
}

} // verus!
