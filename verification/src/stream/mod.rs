//! What the byte streams decide for themselves: which variant a stream is,
//! how TLS plaintext is carried across calls, how WebSocket frames are
//! chosen.

/// TLS bookkeeping.
pub mod rustls;
/// Readiness-driven variants.
pub mod stream;
/// Task-driven variants and frames.
pub mod tokio;
/// The server handshake.
pub mod websocket;
