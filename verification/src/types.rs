//! Plain data of the connection manager: the connection-state enum, the
//! per-session configuration, health snapshots, and the wire-level message
//! forms the transport carries.

use vstd::prelude::*;

verus! {

/// State of the managed connection.
#[derive(Clone, Copy, Debug, PartialEq, Eq, Structural)]
pub enum ConnectionState {
    /// No connection and none being attempted.
    Disconnected,
    /// A first connection attempt is in flight.
    Connecting,
    /// A live transport session exists.
    Connected,
    /// The last session died and the manager is retrying.
    Reconnecting,
    /// The retry ceiling was reached; only an explicit call resumes service.
    Error,
}

/// Per-session configuration, read afresh at the start of each connection
/// attempt; replacing it takes effect on the next reconnect.
#[derive(Clone, Debug)]
pub struct WebSocketConfig {
    /// WebSocket endpoint.
    pub server_url: String,
    /// Client identifier, sent as the `clientId` query parameter.
    pub client_id: String,
    /// Auth token, sent as the `Token` query parameter when non-empty.
    pub token: String,
    /// Milliseconds between heartbeat pings.
    pub heartbeat_interval: u64,
    /// Milliseconds without a pong before a foreground heartbeat failure.
    pub heartbeat_timeout: u64,
    /// Ceiling on consecutive failed connection attempts; 0 means unlimited.
    pub max_reconnect_attempts: u32,
    /// Base delay for the exponential reconnect backoff, in milliseconds.
    pub reconnect_delay_ms: u64,
}

impl Default for WebSocketConfig {
    /// Empty endpoint and identity, 30 s ping interval, 10 s pong timeout,
    /// 10 attempts, 1 s base backoff.
    fn default() -> (r: Self)
        ensures
            r.server_url@ == Seq::<char>::empty(),
            r.client_id@ == Seq::<char>::empty(),
            r.token@ == Seq::<char>::empty(),
            r.heartbeat_interval == 30000,
            r.heartbeat_timeout == 10000,
            r.max_reconnect_attempts == 10,
            r.reconnect_delay_ms == 1000,
    {
        WebSocketConfig {
            server_url: String::new(),
            client_id: String::new(),
            token: String::new(),
            heartbeat_interval: 30000,
            heartbeat_timeout: 10000,
            max_reconnect_attempts: 10,
            reconnect_delay_ms: 1000,
        }
    }
}

/// Derived health snapshot of the live connection.
#[derive(Clone, Debug, PartialEq)]
pub struct ConnectionHealth {
    /// Whether a pong was seen inside the health window, or, before any pong,
    /// whether the connection state is `Connected`.
    pub is_healthy: bool,
    /// When the last pong arrived, milliseconds since the Unix epoch.
    pub last_pong_time: Option<u64>,
    /// Consecutive foreground heartbeat timeouts since the last pong.
    pub consecutive_failures: u32,
    /// Measured round trip of the last ping, when one was measured.
    pub round_trip_time: Option<u64>,
}

/// Reconnect policy values, in milliseconds where a duration is meant.
#[derive(Clone, Debug)]
pub struct ReconnectConfig {
    /// Delay before the first retry.
    pub initial_delay: u64,
    /// Ceiling on the delay between retries.
    pub max_delay: u64,
    /// Ceiling on consecutive failed attempts; 0 means unlimited.
    pub max_attempts: u32,
}

impl Default for ReconnectConfig {
    /// 1 s initial delay, 60 s delay ceiling, 10 attempts.
    fn default() -> (r: Self)
        ensures
            r.initial_delay == 1000,
            r.max_delay == 60000,
            r.max_attempts == 10,
    {
        ReconnectConfig { initial_delay: 1000, max_delay: 60000, max_attempts: 10 }
    }
}

/// Acknowledgment of one delivered chat message, sent back over the wire.
#[derive(Debug, PartialEq)]
pub struct AckMessage {
    /// Identifier of the message being acknowledged.
    pub msg_id: String,
    /// When the acknowledgment was built, milliseconds since the Unix epoch.
    pub timestamp: i64,
}

impl AckMessage {
    /// Builds an acknowledgment of the given message, stamped with the wall
    /// clock.
    pub fn new(msg_id: String) -> (r: Self)
        ensures
            r.msg_id == msg_id,
    {
        AckMessage { msg_id, timestamp: crate::ext::now_millis() }
    }
}

/// One message handed to the transport session's outbound channel. The
/// application layer serializes each form to its JSON wire frame.
#[derive(Debug, PartialEq)]
pub enum WireMessage {
    /// An application payload, sent verbatim.
    Business(serde_json::Value),
    /// A heartbeat ping frame.
    Ping,
    /// An acknowledgment frame for a delivered chat message.
    Ack(AckMessage),
}

/// Why an error event was published.
#[derive(Clone, Copy, Debug, PartialEq, Eq, Structural)]
pub enum ErrorReason {
    /// The configured reconnect-attempt ceiling was reached; automatic retry
    /// has stopped.
    TooManyConnectionFailures,
}

impl ErrorReason {
    /// The reason as the message text the UI shows.
    pub fn text(&self) -> (r: String)
        ensures
            *self == ErrorReason::TooManyConnectionFailures ==> r@
                == "Too many connection failures, stopping retry"@,
    {
        match self {
            ErrorReason::TooManyConnectionFailures => "Too many connection failures, stopping retry".to_owned(),
        }
    }
}

/// Event published to the UI layer on the shared event channel.
#[derive(Debug)]
pub enum WebSocketEvent {
    /// The connection state changed; `is_reconnection` distinguishes recovery
    /// from a first connect.
    ConnectionStateChanged { state: ConnectionState, is_reconnection: bool },
    /// An inbound frame arrived; carries the decoded document verbatim.
    MessageReceived { message: serde_json::Value },
    /// The heartbeat monitor observed a pong or a timeout.
    HeartbeatStatusChanged { health: ConnectionHealth },
    /// An unrecoverable failure, such as the retry ceiling being reached.
    Error { reason: ErrorReason, details: Option<serde_json::Value> },
}

/// What `send` did with a payload.
#[derive(Clone, Copy, Debug, PartialEq, Eq, Structural)]
pub enum SendOutcome {
    /// Handed to the live session's outbound channel.
    Sent,
    /// Connected, but the outbound channel is not attached yet; the payload
    /// was queued and the caller is told it was not sent.
    QueuedSenderNotReady,
    /// Connecting or reconnecting; the payload was queued for the flush that
    /// follows the next successful connect.
    QueuedWhileConnecting,
    /// Disconnected or in the terminal error state; the payload was refused
    /// and not queued.
    NotConnected,
}

impl SendOutcome {
    /// Whether the payload reached the outbound channel.
    pub fn is_sent(&self) -> (r: bool)
        ensures
            r == (*self == SendOutcome::Sent),
    {
        match self {
            SendOutcome::Sent => true,
            _ => false,
        }
    }
}

} // verus!
