//! The client half of the measurement: one phase machine per connection.

/// Creation and dispatch.
pub mod driver;
/// Pre-download sizing.
pub mod get_chunks;
/// The timed download.
pub mod get_time;
/// The greeting.
pub mod greeting;
/// Latency sampling.
pub mod ping;
/// The timed upload.
pub mod put;
/// The signed envelope.
pub mod signed_result;
/// The connection state.
pub mod state;
