//! Core of an interactive client that drives one persistent bidirectional
//! connection: envelope construction for outgoing payloads and the session
//! state machine that consumes abstract input events, caches queries, and
//! runs the synchronous send-then-await-one-reply exchange.
//!
//! Terminal setup, rendering and the actual network transport live outside
//! this crate; they hand events in and carry payloads out as plain strings.

pub mod envelope;
pub mod session;
