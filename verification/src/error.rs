//! Why a connection is given up.

use vstd::prelude::*;

verus! {

/// A deviation from the protocol, or a transport condition that ends the
/// connection it happens on.
#[derive(Clone, Copy, Debug, PartialEq, Eq, Structural)]
pub enum ProtocolError {
    /// The command line names no command of the protocol.
    UnknownCommand,
    /// A number on a control line is empty, no decimal, or too large.
    MalformedNumber,
    /// A chunk size outside the advertised bounds, or no power of two.
    ChunkSize,
    /// A full chunk ended in a byte that is neither the continue flag nor the
    /// end-of-cycle flag.
    BadTerminator,
    /// The token line does not have the form of a token.
    BadToken,
    /// A control line did not end within the line buffer.
    LineTooLong,
    /// The peer answered with something other than the line that the phase
    /// expects.
    UnexpectedReply,
    /// More bytes were reported than were offered or asked for.
    Overrun,
    /// The stream ended in the middle of a phase.
    UnexpectedEof,
    /// The handler does not belong to the phase that the connection is in.
    WrongPhase,
    /// A deadline passed.
    Timeout,
    /// The envelope was asked for before both timed transfers were done.
    NotMeasured,
    /// The signing key is no base64 text.
    BadKey,
    /// No signing key could be generated.
    KeyUnavailable,
}

} // verus!
