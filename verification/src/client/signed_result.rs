//! Fetching the server-signed summary of the run.

use crate::channel::BUFFER_SIZE;
use crate::client::get_chunks::Step;
use crate::client::state::{ClientView, MeasurementState, TestPhase};
use crate::error::ProtocolError;
use crate::event::Progress;
use crate::wire::{lemma_short_lines, ok_line, text_bytes, NEWLINE};
use vstd::prelude::*;
use vstd::slice::slice_to_vec;
use vstd::string::*;

verus! {

/// The text ends in a line feed.
pub open spec fn is_line(text: Seq<u8>) -> bool {
    text.len() > 0 && text.last() == NEWLINE
}

/// Whether the text ends in a line feed.
pub fn ends_line(text: &[u8]) -> (r: bool)
    ensures
        r == is_line(text@),
{
    text.len() > 0 && text[text.len() - 1] == NEWLINE
}

impl ClientView {
    /// Receiving `data` of the envelope. The envelope is the one line that
    /// the server sends; once its line feed has arrived it is kept, line feed
    /// included, and the connection turns round to acknowledge.
    pub open spec fn signed_result_receive(self, data: Seq<u8>) -> Step {
        let line = self.io.received + data;
        if line.len() > BUFFER_SIZE {
            (self, Err(ProtocolError::LineTooLong))
        } else if !is_line(line) {
            (self.with_received(data), Ok(Progress::Pending))
        } else {
            (
                ClientView {
                    envelope: Some(line),
                    ..self.sending(TestPhase::SignedResultSendOk, ok_line())
                },
                Ok(Progress::Advanced),
            )
        }
    }
}

/// Handles the progress of writing the `SIGNEDRESULT` request; once it is
/// out the envelope is awaited.
pub fn handle_signed_result_command(state: &mut MeasurementState, written: usize) -> (r: Result<
    Progress,
    ProtocolError,
>)
    requires
        old(state).wf(),
    ensures
        final(state).wf(),
        r == old(state)@.sent_result(written as nat),
        final(state)@ == old(state)@.after_sent(written as nat, TestPhase::SignedResultReceive),
{
    state.line_sent(written, TestPhase::SignedResultReceive)
}

/// Handles readable data of the envelope.
pub fn handle_signed_result_receive(state: &mut MeasurementState, data: &[u8]) -> (r: Result<
    Progress,
    ProtocolError,
>)
    requires
        old(state).wf(),
    ensures
        final(state).wf(),
        (final(state)@, r) == old(state)@.signed_result_receive(data@),
{
    match state.io.receive(data) {
        Err(e) => {
            return Err(e);
        },
        Ok(_) => {},
    }
    if !ends_line(state.io.line()) {
        return Ok(Progress::Pending);
    }
    let envelope = slice_to_vec(state.io.line());
    let ok = text_bytes("OK\n");
    proof {
        lemma_short_lines(0, 0, 0);
    }
    state.begin_send(TestPhase::SignedResultSendOk, ok.as_slice());
    state.envelope = Some(envelope);
    Ok(Progress::Advanced)
}

/// Handles the progress of writing the acknowledgement of the envelope;
/// once it is out the exchange is complete.
pub fn handle_signed_result_send_ok(state: &mut MeasurementState, written: usize) -> (r: Result<
    Progress,
    ProtocolError,
>)
    requires
        old(state).wf(),
    ensures
        final(state).wf(),
        r == old(state)@.sent_result(written as nat),
        final(state)@ == old(state)@.after_sent(written as nat, TestPhase::SignedResultCompleted),
{
    state.line_sent(written, TestPhase::SignedResultCompleted)
}

} // verus!
