//! Decision core of a one-request-per-connection HTTP service that also emits a
//! periodic heartbeat.
//!
//! Everything that touches a socket, a timer or a JSON decoder lives with the
//! program that embeds this crate. What is decided about a request, a finished
//! connection or a loop event is decided here, and each decision carries a
//! contract that Verus proves.

pub mod error;
pub mod text;
pub mod router;
pub mod signature;
pub mod connection;
pub mod scheduler;
pub mod exchange;
