//! Core of a persistent WebSocket connection manager for an instant-messaging
//! client: connection state, capped exponential reconnect backoff, a bounded
//! FIFO queue for messages composed while offline, an application-level
//! heartbeat monitor, and a dispatcher that routes inbound frames to named
//! UI events.
//!
//! The library is the decision core: every state transition is a plain
//! function with a contract. Socket I/O, timers and task management live in
//! the surrounding application, which drives this core and performs the
//! actions it returns.

pub mod backoff;
pub mod client;
pub mod commands;
pub mod configuration;
pub mod dto;
pub mod ext;
pub mod message;
pub mod splash;
pub mod timeout_config;
pub mod types;
pub mod vo;
pub mod webview_helper;
