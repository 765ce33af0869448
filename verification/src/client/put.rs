//! The timed upload: the client streams chunks for the planned duration
//! and flags the one that ends the cycle.

use crate::channel::{ChannelView, BUFFER_SIZE};
use crate::chunk::{flag_of, timed, timed_terminator, Terminator, LAST_FLAG};
use crate::client::get_chunks::Step;
use crate::client::get_time::strictly_increasing;
use crate::client::signed_result::{ends_line, is_line};
use crate::client::state::{ClientView, MeasurementState, TestPhase, TestPlan};
use crate::error::ProtocolError;
use crate::event::{elapsed, elapsed_since, nanos_of_seconds, seconds_as_nanos, Progress};
use crate::text::{contains, contains_bytes, same_bytes};
use crate::wire::{
    accept_commands_line, ok_line, parse_time_response, put_line, put_no_result_line,
    reported_time, text_bytes,
};
use vstd::prelude::*;
use vstd::string::*;

verus! {

/// The planned duration of a timed phase in nanoseconds, capped at what 64
/// bits hold.
pub open spec fn duration_ns(plan: TestPlan) -> u64 {
    seconds_as_nanos(plan.duration_s)
}

/// The planned duration of a timed phase in nanoseconds.
pub fn planned_duration_ns(plan: &TestPlan) -> (r: u64)
    ensures
        r == duration_ns(*plan),
{
    nanos_of_seconds(plan.duration_s)
}

impl ClientView {
    /// The request for the timed upload that the state describes.
    pub open spec fn put_request(self) -> Seq<u8> {
        if self.plan.sample_upload {
            put_line(self.io.chunk.len())
        } else {
            put_no_result_line(self.io.chunk.len())
        }
    }

    /// The state with the chunk buffer made the next chunk to send, flagged
    /// as a chunk begun `elapsed_ns` into the upload.
    pub open spec fn with_sealed_chunk(self, elapsed_ns: u64) -> ClientView {
        ClientView {
            io: ChannelView {
                chunk: self.io.chunk.update(
                    self.io.chunk.len() - 1,
                    flag_of(timed_terminator(elapsed_ns as nat, duration_ns(self.plan) as nat)),
                ),
                chunk_pos: 0,
                ..self.io
            },
            ..self
        }
    }

    /// Receiving `data` of the server's answer to the upload request at
    /// clock reading `now`. No chunk is sent before the answer is a complete
    /// line, and none unless that line is `OK`: the timed phase then begins
    /// with the clock started, counter and samples empty, and the first
    /// chunk sealed.
    pub open spec fn put_receive_ok(self, data: Seq<u8>, now: u64) -> Step {
        let line = self.io.received + data;
        if line.len() > BUFFER_SIZE {
            (self, Err(ProtocolError::LineTooLong))
        } else if !is_line(line) {
            (self.with_received(data), Ok(Progress::Pending))
        } else if line != ok_line() {
            (self.with_received(data), Err(ProtocolError::UnexpectedReply))
        } else {
            (
                (ClientView {
                    phase_start_time: Some(now),
                    bytes_sent: 0,
                    upload_measurements: Seq::empty(),
                    ..self.entering(TestPhase::PutSendChunk)
                }).with_sealed_chunk(0),
                Ok(Progress::Advanced),
            )
        }
    }

    /// Writing `n` more bytes of the current upload chunk at clock reading
    /// `now`. Every completed chunk adds its length to the byte counter and
    /// one sample; after the chunk flagged as last the server's duration is
    /// awaited, after any other the next chunk is sealed, flagged as last if
    /// the planned duration has passed.
    pub open spec fn put_send_chunk(self, n: nat, now: u64) -> Step {
        if n > self.io.chunk_pending().len() {
            (self, Err(ProtocolError::Overrun))
        } else if n < self.io.chunk_pending().len() {
            (
                ClientView {
                    io: ChannelView { chunk_pos: (self.io.chunk_pos + n) as nat, ..self.io },
                    ..self
                },
                Ok(Progress::Pending),
            )
        } else {
            let whole = ClientView { io: ChannelView { chunk_pos: 0, ..self.io }, ..self };
            let total = self.bytes_sent + self.io.chunk.len();
            if total > u64::MAX {
                (whole, Err(ProtocolError::Overrun))
            } else {
                let passed = elapsed_since(self.phase_start_time, now);
                let sampled = ClientView {
                    bytes_sent: total as u64,
                    upload_measurements: self.upload_measurements.push((passed, total as u64)),
                    ..whole
                };
                if self.io.chunk.last() == LAST_FLAG {
                    (sampled.entering(TestPhase::PutReceiveTime), Ok(Progress::Advanced))
                } else {
                    (sampled.with_sealed_chunk(passed), Ok(Progress::Pending))
                }
            }
        }
    }

    /// Receiving `data` while the server's duration of the timed upload is
    /// awaited; once it is complete the duration is kept and the clock
    /// cleared.
    pub open spec fn put_receive_time(self, data: Seq<u8>) -> Step {
        let line = self.io.received + data;
        if line.len() > BUFFER_SIZE {
            (self, Err(ProtocolError::LineTooLong))
        } else if !contains(line, accept_commands_line()) {
            (self.with_received(data), Ok(Progress::Pending))
        } else {
            match reported_time(line) {
                None => (self.with_received(data), Err(ProtocolError::MalformedNumber)),
                Some(time_ns) => (
                    ClientView {
                        upload_time: Some(time_ns),
                        phase_start_time: None,
                        ..self.entering(TestPhase::PutCompleted)
                    },
                    Ok(Progress::Advanced),
                ),
            }
        }
    }
}

/// On a clock that advances between chunk boundaries, a step of the timed
/// upload keeps the timestamps of the samples strictly increasing, and the
/// phase is left only with at least one sample taken.
pub proof fn lemma_upload_samples(before: ClientView, written: nat, now: u64)
    requires
        strictly_increasing(before.upload_measurements),
        before.upload_measurements.len() > 0 ==> before.upload_measurements.last().0
            < elapsed_since(before.phase_start_time, now),
    ensures
        strictly_increasing(before.put_send_chunk(written, now).0.upload_measurements),
        before.put_send_chunk(written, now).1 == Ok::<Progress, ProtocolError>(Progress::Advanced)
            ==> before.put_send_chunk(written, now).0.upload_measurements.len() > 0,
{
}

/// Every chunk that a client connection sends ends in 0x00 or in 0xFF.
pub proof fn lemma_upload_chunk_is_sealed(state: MeasurementState)
    requires
        state.wf(),
        state.phase == TestPhase::PutSendChunk,
    ensures
        (state@.io.chunk.last() == crate::chunk::CONTINUE_FLAG) != (state@.io.chunk.last()
            == LAST_FLAG),
{
}

impl MeasurementState {
    /// Makes the chunk buffer the next chunk to send, flagged as a chunk
    /// begun `elapsed_ns` into the upload.
    pub fn seal_next_chunk(&mut self, elapsed_ns: u64)
        requires
            old(self).wf(),
        ensures
            final(self).wf(),
            final(self)@ == old(self)@.with_sealed_chunk(elapsed_ns),
    {
        let t: Terminator = timed(elapsed_ns, planned_duration_ns(&self.plan));
        self.io.seal_chunk(t);
    }
}

/// Handles the progress of writing the upload request; once it is out the
/// server's answer is awaited.
pub fn handle_put_send_command(state: &mut MeasurementState, written: usize) -> (r: Result<
    Progress,
    ProtocolError,
>)
    requires
        old(state).wf(),
    ensures
        final(state).wf(),
        r == old(state)@.sent_result(written as nat),
        final(state)@ == old(state)@.after_sent(written as nat, TestPhase::PutReceiveOk),
{
    state.line_sent(written, TestPhase::PutReceiveOk)
}

/// Handles readable data of the server's answer to the upload request at
/// clock reading `now`.
pub fn handle_put_receive_ok(state: &mut MeasurementState, data: &[u8], now: u64) -> (r: Result<
    Progress,
    ProtocolError,
>)
    requires
        old(state).wf(),
    ensures
        final(state).wf(),
        (final(state)@, r) == old(state)@.put_receive_ok(data@, now),
{
    match state.io.receive(data) {
        Err(e) => {
            return Err(e);
        },
        Ok(_) => {},
    }
    if !ends_line(state.io.line()) {
        return Ok(Progress::Pending);
    }
    let ok = text_bytes("OK\n");
    if !same_bytes(state.io.line(), ok.as_slice()) {
        return Err(ProtocolError::UnexpectedReply);
    }
    state.seal_next_chunk(0);
    state.begin(TestPhase::PutSendChunk);
    state.phase_start_time = Some(now);
    state.bytes_sent = 0;
    state.upload_measurements = Vec::new();
    Ok(Progress::Advanced)
}

/// Handles the progress of writing the current upload chunk at clock
/// reading `now`.
pub fn handle_put_send_chunk(state: &mut MeasurementState, written: usize, now: u64) -> (r: Result<
    Progress,
    ProtocolError,
>)
    requires
        old(state).wf(),
    ensures
        final(state).wf(),
        (final(state)@, r) == old(state)@.put_send_chunk(written as nat, now),
{
    let size: usize = state.io.chunk_size();
    match state.io.chunk_sent(written) {
        Err(e) => Err(e),
        Ok(false) => Ok(Progress::Pending),
        Ok(true) => {
            match state.bytes_sent.checked_add(size as u64) {
                None => Err(ProtocolError::Overrun),
                Some(total) => {
                    let passed: u64 = elapsed(state.phase_start_time, now);
                    state.bytes_sent = total;
                    state.upload_measurements.push((passed, total));
                    if state.io.chunk_buffer[size - 1] == LAST_FLAG {
                        state.begin(TestPhase::PutReceiveTime);
                        Ok(Progress::Advanced)
                    } else {
                        state.seal_next_chunk(passed);
                        Ok(Progress::Pending)
                    }
                },
            }
        },
    }
}

/// Handles readable data while the server's duration of the timed upload
/// is awaited.
pub fn handle_put_receive_time(state: &mut MeasurementState, data: &[u8]) -> (r: Result<
    Progress,
    ProtocolError,
>)
    requires
        old(state).wf(),
    ensures
        final(state).wf(),
        (final(state)@, r) == old(state)@.put_receive_time(data@),
{
    match state.io.receive(data) {
        Err(e) => {
            return Err(e);
        },
        Ok(_) => {},
    }
    let accept = text_bytes("ACCEPT GETCHUNKS GETTIME PUT PUTNORESULT PING QUIT\n");
    if !contains_bytes(state.io.line(), accept.as_slice()) {
        return Ok(Progress::Pending);
    }
    match parse_time_response(state.io.line()) {
        None => Err(ProtocolError::MalformedNumber),
        Some(time_ns) => {
            state.begin(TestPhase::PutCompleted);
            state.upload_time = Some(time_ns);
            state.phase_start_time = None;
            Ok(Progress::Advanced)
        },
    }
}

} // verus!
