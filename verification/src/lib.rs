//! A real-time text relay core: credential registry, append-only message
//! history, a bounded fan-out bus with a per-subscriber drop-oldest policy,
//! and the per-connection session state machine that ties them together.
//!
//! Transport, framing and envelope serialization are external collaborators;
//! this crate holds the decisions they feed: authentication gating, history
//! replay, and publish/subscribe fan-out.
//!
//! Known weakness kept on purpose: passwords are compared in plain text, and
//! a submitted message's sender field is not checked against the session's
//! authenticated identity.

pub mod bus;
pub mod credentials;
pub mod errors;
pub mod history;
pub mod message;
pub mod server;
pub mod session;
