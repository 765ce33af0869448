//! The server half of the measurement: one phase machine per connection,
//! and the worker that owns it.

/// Command acceptance.
pub mod command;
/// Creation and dispatch.
pub mod driver;
/// The greeting.
pub mod greeting;
/// What holds of every connection.
pub mod laws;
/// The signed envelope.
pub mod signed_result;
/// The connection state.
pub mod state;
/// The lifetime cap.
pub mod timeout_utils;
/// Commands that move payload.
pub mod transfer;
/// The greeting upgrade.
pub mod upgrade;
/// The worker and the admission queue.
pub mod worker;
