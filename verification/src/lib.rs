//! Measurement protocol engine: chunk framing, control lines, the client and
//! server phase machines, envelope signing and result aggregation.

/// Internet addresses in text.
pub mod address;
/// The scratch buffers of a connection.
pub mod channel;
/// Chunk framing.
pub mod chunk;
/// The client phase machine.
pub mod client;
/// The server configuration.
pub mod config;
/// Decimal text of numbers.
pub mod decimal;
/// Protocol errors.
pub mod error;
/// Readiness and clock values.
pub mod event;
/// Chunk-size bounds.
pub mod limits;
/// Dropping root and becoming a daemon.
pub mod privileges;
/// The client report.
pub mod report;
/// The server phase machine and its worker.
pub mod server;
/// The numbers of a run.
pub mod stats;
/// Byte stream variants.
pub mod stream;
/// Byte string search.
pub mod text;
/// The task-driven server.
pub mod tokio_server;
/// Control lines.
pub mod wire;
