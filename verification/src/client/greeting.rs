//! The greeting: upgrade request, version banner, token, chunk-size
//! advertisement.

use crate::channel::BUFFER_SIZE;
use crate::client::get_chunks::Step;
use crate::client::state::{ClientView, MeasurementState, TestPhase};
use crate::error::ProtocolError;
use crate::event::Progress;
use crate::text::{contains, contains_bytes};
use crate::wire::{
    accept_commands_line, accept_token_line, lemma_short_lines, ping_line, text_bytes,
    token_command, token_line,
};
use vstd::prelude::*;
use vstd::string::*;

verus! {

impl ClientView {
    /// The state on entering the latency sampling: the first `PING` staged,
    /// or the sampling complete at once where the plan asks for none.
    pub open spec fn start_pings(self) -> ClientView {
        if self.plan.pings > 0 {
            self.sending(TestPhase::PingSendPing, ping_line())
        } else {
            self.entering(TestPhase::PingCompleted)
        }
    }

    /// Receiving `data` of the server's greeting. The greeting is complete
    /// once the banner that offers the token exchange has arrived; the token
    /// is then staged.
    pub open spec fn greeting_receive_version(self, data: Seq<u8>) -> Step {
        let line = self.io.received + data;
        if line.len() > BUFFER_SIZE {
            (self, Err(ProtocolError::LineTooLong))
        } else if !contains(line, accept_token_line()) {
            (self.with_received(data), Ok(Progress::Pending))
        } else {
            (
                self.sending(TestPhase::GreetingSendToken, token_line(self.auth_token)),
                Ok(Progress::Advanced),
            )
        }
    }

    /// Receiving `data` of the server's answer to the token. The answer is
    /// complete once the banner of admissible commands has arrived; the
    /// latency sampling then begins.
    pub open spec fn greeting_receive_chunk_size(self, data: Seq<u8>) -> Step {
        let line = self.io.received + data;
        if line.len() > BUFFER_SIZE {
            (self, Err(ProtocolError::LineTooLong))
        } else if !contains(line, accept_commands_line()) {
            (self.with_received(data), Ok(Progress::Pending))
        } else {
            (self.start_pings(), Ok(Progress::Advanced))
        }
    }
}

impl MeasurementState {
    /// Enters the latency sampling.
    pub fn begin_pings(&mut self)
        requires
            old(self).wf(),
        ensures
            final(self).wf(),
            final(self)@ == old(self)@.start_pings(),
    {
        if self.plan.pings > 0 {
            let ping = text_bytes("PING\n");
            proof {
                lemma_short_lines(0, 0, 0);
            }
            self.begin_send(TestPhase::PingSendPing, ping.as_slice());
        } else {
            self.begin(TestPhase::PingCompleted);
        }
    }
}

/// Handles the progress of writing the upgrade request; once it is out the
/// server's greeting is awaited.
pub fn handle_greeting_send_upgrade(state: &mut MeasurementState, written: usize) -> (r: Result<
    Progress,
    ProtocolError,
>)
    requires
        old(state).wf(),
    ensures
        final(state).wf(),
        r == old(state)@.sent_result(written as nat),
        final(state)@ == old(state)@.after_sent(written as nat, TestPhase::GreetingReceiveVersion),
{
    state.line_sent(written, TestPhase::GreetingReceiveVersion)
}

/// Handles readable data of the server's greeting.
pub fn handle_greeting_receive_version(state: &mut MeasurementState, data: &[u8]) -> (r: Result<
    Progress,
    ProtocolError,
>)
    requires
        old(state).wf(),
    ensures
        final(state).wf(),
        (final(state)@, r) == old(state)@.greeting_receive_version(data@),
{
    match state.io.receive(data) {
        Err(e) => {
            return Err(e);
        },
        Ok(_) => {},
    }
    let accept = text_bytes("ACCEPT TOKEN QUIT\n");
    if !contains_bytes(state.io.line(), accept.as_slice()) {
        return Ok(Progress::Pending);
    }
    let line = token_command(state.auth_token.as_slice());
    proof {
        lemma_short_lines(0, 0, 0);
    }
    state.begin_send(TestPhase::GreetingSendToken, line.as_slice());
    Ok(Progress::Advanced)
}

/// Handles the progress of writing the token; once it is out the server's
/// answer is awaited.
pub fn handle_greeting_send_token(state: &mut MeasurementState, written: usize) -> (r: Result<
    Progress,
    ProtocolError,
>)
    requires
        old(state).wf(),
    ensures
        final(state).wf(),
        r == old(state)@.sent_result(written as nat),
        final(state)@ == old(state)@.after_sent(
            written as nat,
            TestPhase::GreetingReceiveChunkSize,
        ),
{
    state.line_sent(written, TestPhase::GreetingReceiveChunkSize)
}

/// Handles readable data of the server's answer to the token.
pub fn handle_greeting_receive_chunk_size(state: &mut MeasurementState, data: &[u8]) -> (r:
    Result<Progress, ProtocolError>)
    requires
        old(state).wf(),
    ensures
        final(state).wf(),
        (final(state)@, r) == old(state)@.greeting_receive_chunk_size(data@),
{
    match state.io.receive(data) {
        Err(e) => {
            return Err(e);
        },
        Ok(_) => {},
    }
    let accept = text_bytes("ACCEPT GETCHUNKS GETTIME PUT PUTNORESULT PING QUIT\n");
    if !contains_bytes(state.io.line(), accept.as_slice()) {
        return Ok(Progress::Pending);
    }
    state.begin_pings();
    Ok(Progress::Advanced)
}

} // verus!
