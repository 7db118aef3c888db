//! Socket-connection core of a script-engine runtime.
//!
//! Scripts of two engines (a Legacy, message-oriented one and a Modern,
//! byte-oriented one) open outbound connections, send bytes and are notified
//! of connect, data and close events. The network I/O itself runs elsewhere:
//! this library keeps the registry of live connections, hands out
//! generation-tagged handles, and once per tick turns the queued backend
//! actions into buffer updates and an ordered list of notifications.

pub mod handle;
pub mod arena;
pub mod channel;
pub mod objects;
pub mod framing;
pub mod action;
pub mod model;
pub mod sockets;
pub mod laws;
