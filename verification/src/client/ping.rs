//! Latency sampling: the client times each `PING`/`PONG` round trip.

use crate::channel::BUFFER_SIZE;
use crate::client::get_chunks::Step;
use crate::client::state::{ClientView, MeasurementState, TestPhase};
use crate::error::ProtocolError;
use crate::event::{elapsed, elapsed_since, Progress};
use crate::text::{contains, contains_bytes};
use crate::wire::{
    accept_commands_line, lemma_short_lines, ok_line, parse_time_response, ping_line, pong_line,
    reported_time, text_bytes,
};
use vstd::prelude::*;
use vstd::string::*;

verus! {

impl ClientView {
    /// Writing `n` more bytes of a `PING` at clock reading `now`. The round
    /// trip is timed from the moment the whole `PING` is out.
    pub open spec fn ping_send_ping(self, n: nat, now: u64) -> ClientView {
        let after = self.after_sent(n, TestPhase::PingReceivePong);
        if n == self.io.pending.len() {
            ClientView { phase_start_time: Some(now), ..after }
        } else {
            after
        }
    }

    /// Receiving `data` of the server's `PONG` at clock reading `now`. Once
    /// the `PONG` has arrived the round trip is one more sample, and the
    /// connection turns round to acknowledge.
    pub open spec fn ping_receive_pong(self, data: Seq<u8>, now: u64) -> Step {
        let line = self.io.received + data;
        if line.len() > BUFFER_SIZE {
            (self, Err(ProtocolError::LineTooLong))
        } else if !contains(line, pong_line()) {
            (self.with_received(data), Ok(Progress::Pending))
        } else {
            (
                ClientView {
                    ping_samples: self.ping_samples.push(
                        elapsed_since(self.phase_start_time, now),
                    ),
                    phase_start_time: None,
                    ..self.sending(TestPhase::PingSendOk, ok_line())
                },
                Ok(Progress::Advanced),
            )
        }
    }

    /// Receiving `data` while the server's duration of a ping is awaited.
    /// Once it is complete another ping follows until the plan's number of
    /// samples is taken.
    pub open spec fn ping_receive_time(self, data: Seq<u8>) -> Step {
        let line = self.io.received + data;
        if line.len() > BUFFER_SIZE {
            (self, Err(ProtocolError::LineTooLong))
        } else if !contains(line, accept_commands_line()) {
            (self.with_received(data), Ok(Progress::Pending))
        } else if reported_time(line).is_none() {
            (self.with_received(data), Err(ProtocolError::MalformedNumber))
        } else if self.ping_samples.len() < self.plan.pings {
            (self.sending(TestPhase::PingSendPing, ping_line()), Ok(Progress::Advanced))
        } else {
            (self.entering(TestPhase::PingCompleted), Ok(Progress::Advanced))
        }
    }
}

/// Handles the progress of writing a `PING` at clock reading `now`; once it
/// is out the `PONG` is awaited.
pub fn handle_ping_send_ping(state: &mut MeasurementState, written: usize, now: u64) -> (r: Result<
    Progress,
    ProtocolError,
>)
    requires
        old(state).wf(),
    ensures
        final(state).wf(),
        r == old(state)@.sent_result(written as nat),
        final(state)@ == old(state)@.ping_send_ping(written as nat, now),
{
    let r = state.line_sent(written, TestPhase::PingReceivePong);
    match r {
        Ok(Progress::Advanced) => {
            state.phase_start_time = Some(now);
        },
        _ => {},
    }
    r
}

/// Handles readable data of the server's `PONG` at clock reading `now`.
pub fn handle_ping_receive_pong(state: &mut MeasurementState, data: &[u8], now: u64) -> (r: Result<
    Progress,
    ProtocolError,
>)
    requires
        old(state).wf(),
    ensures
        final(state).wf(),
        (final(state)@, r) == old(state)@.ping_receive_pong(data@, now),
{
    match state.io.receive(data) {
        Err(e) => {
            return Err(e);
        },
        Ok(_) => {},
    }
    let pong = text_bytes("PONG\n");
    if !contains_bytes(state.io.line(), pong.as_slice()) {
        return Ok(Progress::Pending);
    }
    let round_trip: u64 = elapsed(state.phase_start_time, now);
    let ok = text_bytes("OK\n");
    proof {
        lemma_short_lines(0, 0, 0);
    }
    state.begin_send(TestPhase::PingSendOk, ok.as_slice());
    state.ping_samples.push(round_trip);
    state.phase_start_time = None;
    Ok(Progress::Advanced)
}

/// Handles the progress of writing the acknowledgement of a `PONG`; once it
/// is out the server's duration is awaited.
pub fn handle_ping_send_ok(state: &mut MeasurementState, written: usize) -> (r: Result<
    Progress,
    ProtocolError,
>)
    requires
        old(state).wf(),
    ensures
        final(state).wf(),
        r == old(state)@.sent_result(written as nat),
        final(state)@ == old(state)@.after_sent(written as nat, TestPhase::PingReceiveTime),
{
    state.line_sent(written, TestPhase::PingReceiveTime)
}

/// Handles readable data while the server's duration of a ping is awaited.
pub fn handle_ping_receive_time(state: &mut MeasurementState, data: &[u8]) -> (r: Result<
    Progress,
    ProtocolError,
>)
    requires
        old(state).wf(),
    ensures
        final(state).wf(),
        (final(state)@, r) == old(state)@.ping_receive_time(data@),
{
    match state.io.receive(data) {
        Err(e) => {
            return Err(e);
        },
        Ok(_) => {},
    }
    let accept = text_bytes("ACCEPT GETCHUNKS GETTIME PUT PUTNORESULT PING QUIT\n");
    if !contains_bytes(state.io.line(), accept.as_slice()) {
        return Ok(Progress::Pending);
    }
    if parse_time_response(state.io.line()).is_none() {
        return Err(ProtocolError::MalformedNumber);
    }
    if state.ping_samples.len() < state.plan.pings as usize {
        let ping = text_bytes("PING\n");
        proof {
            lemma_short_lines(0, 0, 0);
        }
        state.begin_send(TestPhase::PingSendPing, ping.as_slice());
    } else {
        state.begin(TestPhase::PingCompleted);
    }
    Ok(Progress::Advanced)
}

} // verus!
