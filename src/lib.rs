//! Liveness supervision for long-lived bidirectional message channels.
//!
//! The library keeps one connection alive only as long as the peer proves
//! that it still responds: a frame codec turns transport frames into events,
//! a liveness policy decides on each supervision tick, and a connection
//! session owns the per-connection state machine.

pub mod liveness;
pub mod codec;
pub mod session;
pub mod logger;
pub mod config;
