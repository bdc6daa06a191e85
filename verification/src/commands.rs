//! Parameter and response shapes of the command surface that fronts the
//! connection manager, and the configuration merge that the update command
//! performs.

use crate::types::WebSocketConfig;
use vstd::prelude::*;

verus! {

/// Parameters of the connection-initialization command.
#[derive(Debug)]
pub struct InitWsParams {
    /// Client identifier to connect under.
    pub client_id: String,
}

/// Parameters of the send-message command.
#[derive(Debug)]
pub struct SendMessageParams {
    /// The payload to send.
    pub data: serde_json::Value,
}

/// Parameters of the configuration-update command; absent fields keep their
/// defaults.
#[derive(Clone, Debug)]
pub struct UpdateConfigParams {
    /// Milliseconds between heartbeat pings.
    pub heartbeat_interval: Option<u64>,
    /// Milliseconds without a pong before a foreground heartbeat failure.
    pub heartbeat_timeout: Option<u64>,
    /// Ceiling on consecutive failed connection attempts; 0 means unlimited.
    pub max_reconnect_attempts: Option<u32>,
    /// Base delay for the exponential reconnect backoff, in milliseconds.
    pub reconnect_delay_ms: Option<u64>,
}

/// A command's success response.
#[derive(Debug)]
pub struct SuccessResponse {
    /// Always true; failures are reported as errors instead.
    pub success: bool,
    /// An optional human-readable note.
    pub message: Option<String>,
}

impl SuccessResponse {
    /// A bare success with no note.
    pub fn new() -> (r: Self)
        ensures
            r.success,
            r.message is None,
    {
        SuccessResponse { success: true, message: None }
    }
}

/// The configuration the update command installs: the defaults, with each
/// given field overriding its default.
pub fn merged_config(params: &UpdateConfigParams) -> (r: WebSocketConfig)
    ensures
        r.server_url@ == Seq::<char>::empty(),
        r.client_id@ == Seq::<char>::empty(),
        r.token@ == Seq::<char>::empty(),
        r.heartbeat_interval == (match params.heartbeat_interval {
            Some(v) => v,
            None => 30000,
        }),
        r.heartbeat_timeout == (match params.heartbeat_timeout {
            Some(v) => v,
            None => 10000,
        }),
        r.max_reconnect_attempts == (match params.max_reconnect_attempts {
            Some(v) => v,
            None => 10,
        }),
        r.reconnect_delay_ms == (match params.reconnect_delay_ms {
            Some(v) => v,
            None => 1000,
        }),
{
    let mut config: WebSocketConfig = Default::default();
    if let Some(interval) = params.heartbeat_interval {
        config.heartbeat_interval = interval;
    }
    if let Some(timeout) = params.heartbeat_timeout {
        config.heartbeat_timeout = timeout;
    }
    if let Some(attempts) = params.max_reconnect_attempts {
        config.max_reconnect_attempts = attempts;
    }
    if let Some(delay) = params.reconnect_delay_ms {
        config.reconnect_delay_ms = delay;
    }
    config
}

} // verus!
