//! Client-side engine for a live-streaming chat ("danmaku") protocol:
//! length-prefixed binary frames carried over a WebSocket transport,
//! holding JSON and brotli-compressed sub-payloads that decode into a
//! closed set of domain events, plus a multi-source deduplication hub.
//!
//! The crate verifies the protocol logic itself; the sockets, HTTP
//! lookups and timers that feed it live outside the library.

pub mod text;
pub mod json;
pub mod model;
pub mod event;
pub mod packet;
pub mod cmd;
pub mod room;
pub mod synchub;
pub mod connection;
pub mod error;
