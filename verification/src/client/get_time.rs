//! The timed download: the server streams chunks for the requested
//! duration, the client samples at every chunk boundary.

use crate::channel::{splice, ChannelView, BUFFER_SIZE};
use crate::chunk::{terminator_of, Terminator};
use crate::client::get_chunks::Step;
use crate::client::state::{ClientView, MeasurementState, TestPhase};
use crate::error::ProtocolError;
use crate::event::{elapsed, elapsed_since, Progress};
use crate::text::{contains, contains_bytes};
use crate::wire::{
    accept_commands_line, get_time_line, lemma_short_lines, ok_line, parse_time_response,
    reported_time, text_bytes,
};
use vstd::prelude::*;
use vstd::string::*;

verus! {

impl ClientView {
    /// The request for the timed download that the state describes.
    pub open spec fn get_time_request(self) -> Seq<u8> {
        get_time_line(self.plan.duration_s as nat, self.io.chunk.len())
    }

    /// Writing `n` more bytes of the `GETTIME` request at clock reading
    /// `now`. Once the request is out the timed phase begins: the clock
    /// starts, and the byte counter and the samples start empty.
    pub open spec fn get_time_send_command(self, n: nat, now: u64) -> ClientView {
        let after = self.after_sent(n, TestPhase::GetTimeReceiveChunk);
        if n == self.io.pending.len() {
            ClientView {
                phase_start_time: Some(now),
                bytes_received: 0,
                download_measurements: Seq::empty(),
                ..after
            }
        } else {
            after
        }
    }

    /// Receiving `data` of a timed-download chunk at clock reading `now`.
    /// Every complete chunk with a valid flag adds its length to the byte
    /// counter and one sample `(elapsed, bytes)`; the end flag then turns the
    /// connection round to acknowledge.
    pub open spec fn get_time_receive_chunk(self, data: Seq<u8>, now: u64) -> Step {
        if data.len() > self.io.chunk.len() - self.io.chunk_pos {
            (self, Err(ProtocolError::Overrun))
        } else {
            let filled = splice(self.io.chunk, self.io.chunk_pos as int, data);
            if self.io.chunk_pos + data.len() < self.io.chunk.len() {
                (
                    ClientView {
                        io: ChannelView {
                            chunk: filled,
                            chunk_pos: (self.io.chunk_pos + data.len()) as nat,
                            ..self.io
                        },
                        ..self
                    },
                    Ok(Progress::Pending),
                )
            } else {
                let whole = ClientView {
                    io: ChannelView { chunk: filled, chunk_pos: 0, ..self.io },
                    ..self
                };
                let total = self.bytes_received + self.io.chunk.len();
                match terminator_of(filled.last()) {
                    Err(e) => (whole, Err(e)),
                    Ok(t) => if total > u64::MAX {
                        (whole, Err(ProtocolError::Overrun))
                    } else {
                        let sampled = ClientView {
                            bytes_received: total as u64,
                            download_measurements: self.download_measurements.push(
                                (elapsed_since(self.phase_start_time, now), total as u64),
                            ),
                            ..whole
                        };
                        match t {
                            Terminator::Continue => (sampled, Ok(Progress::Pending)),
                            Terminator::Last => (
                                sampled.sending(TestPhase::GetTimeSendOk, ok_line()),
                                Ok(Progress::Advanced),
                            ),
                        }
                    },
                }
            }
        }
    }

    /// Receiving `data` while the server's duration of the timed download
    /// is awaited. The response is complete once the banner of admissible
    /// commands has arrived; the duration is then kept and the clock cleared.
    pub open spec fn get_time_receive_time(self, data: Seq<u8>) -> Step {
        let line = self.io.received + data;
        if line.len() > BUFFER_SIZE {
            (self, Err(ProtocolError::LineTooLong))
        } else if !contains(line, accept_commands_line()) {
            (self.with_received(data), Ok(Progress::Pending))
        } else {
            match reported_time(line) {
                None => (self.with_received(data), Err(ProtocolError::MalformedNumber)),
                Some(time_ns) => (
                    ClientView {
                        download_time: Some(time_ns),
                        phase_start_time: None,
                        ..self.entering(TestPhase::GetTimeCompleted)
                    },
                    Ok(Progress::Advanced),
                ),
            }
        }
    }
}

/// The timestamps of a sample series increase strictly.
pub open spec fn strictly_increasing(samples: Seq<(u64, u64)>) -> bool {
    forall|i: int, j: int| 0 <= i < j < samples.len() ==> samples[i].0 < samples[j].0
}

/// On a clock that advances between chunk boundaries, a step of the timed
/// download keeps the timestamps of the samples strictly increasing, and the
/// phase is left only with at least one sample taken.
pub proof fn lemma_download_samples(before: ClientView, data: Seq<u8>, now: u64)
    requires
        strictly_increasing(before.download_measurements),
        before.download_measurements.len() > 0 ==> before.download_measurements.last().0
            < elapsed_since(before.phase_start_time, now),
    ensures
        strictly_increasing(before.get_time_receive_chunk(data, now).0.download_measurements),
        before.get_time_receive_chunk(data, now).1 == Ok::<Progress, ProtocolError>(
            Progress::Advanced,
        ) ==> before.get_time_receive_chunk(data, now).0.download_measurements.len() > 0,
{
}

/// The state after the chunks `chunks` of a timed download were each
/// received whole, one after the other, at the clock readings `times`.
pub open spec fn after_received(state: ClientView, chunks: Seq<Seq<u8>>, times: Seq<u64>)
    -> ClientView
    decreases chunks.len(),
{
    if chunks.len() == 0 {
        state
    } else {
        let before = after_received(state, chunks.drop_last(), times.drop_last());
        if before.phase == TestPhase::GetTimeReceiveChunk {
            before.get_time_receive_chunk(chunks.last(), times.last()).0
        } else {
            before
        }
    }
}

/// The chunks are the beginning of a cycle of chunks of `size` bytes:
/// every one but the last announces a successor, and the last carries one
/// of the two flags.
pub open spec fn begins_cycle(chunks: Seq<Seq<u8>>, size: nat) -> bool {
    &&& forall|i: int| 0 <= i < chunks.len() ==> (#[trigger] chunks[i]).len() == size
    &&& forall|i: int|
        0 <= i < chunks.len() - 1 ==> (#[trigger] chunks[i]).last() == crate::chunk::CONTINUE_FLAG
    &&& chunks.len() > 0 ==> (chunks.last().last() == crate::chunk::CONTINUE_FLAG
        || chunks.last().last() == crate::chunk::LAST_FLAG)
}

/// What holds after the beginning of a cycle was received: one sample per
/// chunk, the i-th with the clock reading of its chunk and i chunks' worth
/// of bytes; the byte counter at the bytes of all chunks; and the phase
/// turned round exactly if the last chunk ended the cycle.
pub open spec fn sampled(
    state: ClientView,
    start: Option<u64>,
    chunks: Seq<Seq<u8>>,
    times: Seq<u64>,
    size: nat,
) -> bool {
    &&& state.io.chunk.len() == size
    &&& state.phase_start_time == start
    &&& state.bytes_received == chunks.len() * size
    &&& state.download_measurements.len() == chunks.len()
    &&& forall|i: int|
        0 <= i < chunks.len() ==> #[trigger] state.download_measurements[i] == (
            elapsed_since(start, times[i]),
            ((i + 1) * size) as u64,
        )
    &&& state.phase == if chunks.len() > 0 && chunks.last().last() == crate::chunk::LAST_FLAG {
        TestPhase::GetTimeSendOk
    } else {
        TestPhase::GetTimeReceiveChunk
    }
    &&& state.phase == TestPhase::GetTimeReceiveChunk ==> state.io.chunk_pos == 0
}

/// Receiving the beginning of a cycle chunk by chunk adds one sample per
/// chunk with the running byte count.
pub proof fn lemma_sampled(state: ClientView, chunks: Seq<Seq<u8>>, times: Seq<u64>, size: nat)
    requires
        state.phase == TestPhase::GetTimeReceiveChunk,
        state.io.chunk_pos == 0,
        state.io.chunk.len() == size,
        size > 0,
        state.bytes_received == 0,
        state.download_measurements.len() == 0,
        begins_cycle(chunks, size),
        times.len() == chunks.len(),
        chunks.len() * size <= u64::MAX,
    ensures
        sampled(after_received(state, chunks, times), state.phase_start_time, chunks, times, size),
    decreases chunks.len(),
{
    if chunks.len() == 0 {
        assert(0 * size == 0) by (nonlinear_arith);
    } else {
        let earlier = chunks.drop_last();
        let k = earlier.len();
        let data = chunks.last();
        let now = times.last();
        assert forall|i: int| 0 <= i < earlier.len() implies (#[trigger] earlier[i]).len()
            == size by {
            assert(earlier[i] == chunks[i]);
        }
        assert forall|i: int| 0 <= i < earlier.len() - 1 implies (#[trigger] earlier[i]).last()
            == crate::chunk::CONTINUE_FLAG by {
            assert(earlier[i] == chunks[i]);
        }
        if k > 0 {
            assert(earlier.last() == chunks[k - 1]);
        }
        assert(k * size <= chunks.len() * size) by (nonlinear_arith)
            requires
                k <= chunks.len(),
        ;
        lemma_sampled(state, earlier, times.drop_last(), size);
        let before = after_received(state, earlier, times.drop_last());
        assert((k + 1) * size == k * size + size) by (nonlinear_arith);
        assert(before.phase == TestPhase::GetTimeReceiveChunk);
        assert(data == chunks[k as int]);
        let filled = splice(before.io.chunk, 0, data);
        assert(filled =~= data);
        let after = after_received(state, chunks, times);
        assert(after == before.get_time_receive_chunk(data, now).0);
        assert forall|i: int| 0 <= i < chunks.len() implies #[trigger] after.download_measurements[i]
            == (elapsed_since(state.phase_start_time, times[i]), ((i + 1) * size) as u64) by {
            if i < k {
                assert(after.download_measurements[i] == before.download_measurements[i]);
                assert(times.drop_last()[i] == times[i]);
            }
        }
    }
}

/// A timed download of k chunks, the last of which ends the cycle, leaves
/// k samples, the i-th holding i chunks' worth of bytes, a byte counter of
/// k chunks' worth, and the connection turned round to acknowledge.
pub proof fn lemma_download_of_chunks(
    state: ClientView,
    chunks: Seq<Seq<u8>>,
    times: Seq<u64>,
    size: nat,
)
    requires
        state.phase == TestPhase::GetTimeReceiveChunk,
        state.io.chunk_pos == 0,
        state.io.chunk.len() == size,
        size > 0,
        state.bytes_received == 0,
        state.download_measurements.len() == 0,
        begins_cycle(chunks, size),
        chunks.len() >= 1,
        chunks.last().last() == crate::chunk::LAST_FLAG,
        times.len() == chunks.len(),
        chunks.len() * size <= u64::MAX,
    ensures
        ({
            let end = after_received(state, chunks, times);
            &&& end.phase == TestPhase::GetTimeSendOk
            &&& end.download_measurements.len() == chunks.len()
            &&& end.download_measurements.len() >= 1
            &&& end.bytes_received == chunks.len() * size
            &&& forall|i: int|
                0 <= i < chunks.len() ==> (#[trigger] end.download_measurements[i]).1 == (i + 1)
                    * size
        }),
{
    lemma_sampled(state, chunks, times, size);
    let end = after_received(state, chunks, times);
    assert forall|i: int| 0 <= i < chunks.len() implies (#[trigger] end.download_measurements[i]).1
        == (i + 1) * size by {
        assert((i + 1) * size <= chunks.len() * size) by (nonlinear_arith)
            requires
                i + 1 <= chunks.len(),
        ;
    }
}

/// Handles the progress of writing the acknowledgement of the timed
/// download; once it is out the server's duration is awaited.
pub fn handle_get_time_send_ok(state: &mut MeasurementState, written: usize) -> (r: Result<
    Progress,
    ProtocolError,
>)
    requires
        old(state).wf(),
    ensures
        final(state).wf(),
        r == old(state)@.sent_result(written as nat),
        final(state)@ == old(state)@.after_sent(written as nat, TestPhase::GetTimeReceiveTime),
{
    state.line_sent(written, TestPhase::GetTimeReceiveTime)
}

/// Handles the progress of writing the `GETTIME` request at clock reading
/// `now`; once it is out the timed phase begins.
pub fn handle_get_time_send_command(state: &mut MeasurementState, written: usize, now: u64) -> (r:
    Result<Progress, ProtocolError>)
    requires
        old(state).wf(),
    ensures
        final(state).wf(),
        r == old(state)@.sent_result(written as nat),
        final(state)@ == old(state)@.get_time_send_command(written as nat, now),
{
    let r = state.line_sent(written, TestPhase::GetTimeReceiveChunk);
    match r {
        Ok(Progress::Advanced) => {
            state.phase_start_time = Some(now);
            state.bytes_received = 0;
            state.download_measurements = Vec::new();
        },
        _ => {},
    }
    r
}

/// Handles readable data of a timed-download chunk at clock reading `now`.
pub fn handle_get_time_receive_chunk(state: &mut MeasurementState, data: &[u8], now: u64) -> (r:
    Result<Progress, ProtocolError>)
    requires
        old(state).wf(),
        old(state).phase != TestPhase::PutSendChunk,
    ensures
        final(state).wf(),
        (final(state)@, r) == old(state)@.get_time_receive_chunk(data@, now),
{
    let size: usize = state.io.chunk_size();
    match state.io.receive_chunk(data) {
        Err(e) => Err(e),
        Ok(None) => Ok(Progress::Pending),
        Ok(Some(t)) => {
            match state.bytes_received.checked_add(size as u64) {
                None => Err(ProtocolError::Overrun),
                Some(total) => {
                    state.bytes_received = total;
                    state.download_measurements.push((elapsed(state.phase_start_time, now), total));
                    match t {
                        Terminator::Continue => Ok(Progress::Pending),
                        Terminator::Last => {
                            let ok = text_bytes("OK\n");
                            proof {
                                lemma_short_lines(0, 0, 0);
                            }
                            state.begin_send(TestPhase::GetTimeSendOk, ok.as_slice());
                            Ok(Progress::Advanced)
                        },
                    }
                },
            }
        },
    }
}

/// Handles readable data while the server's duration of the timed download
/// is awaited.
pub fn handle_get_time_receive_time(state: &mut MeasurementState, data: &[u8]) -> (r: Result<
    Progress,
    ProtocolError,
>)
    requires
        old(state).wf(),
    ensures
        final(state).wf(),
        (final(state)@, r) == old(state)@.get_time_receive_time(data@),
{
    match state.io.receive(data) {
        Err(e) => {
            return Err(e);
        },
        Ok(_) => {},
    }
    let accept = text_bytes("ACCEPT GETCHUNKS GETTIME PUT PUTNORESULT PING QUIT\n");
    if !contains_bytes(state.io.line(), accept.as_slice()) {
        return Ok(Progress::Pending);
    }
    match parse_time_response(state.io.line()) {
        None => Err(ProtocolError::MalformedNumber),
        Some(time_ns) => {
            state.begin(TestPhase::GetTimeCompleted);
            state.download_time = Some(time_ns);
            state.phase_start_time = None;
            Ok(Progress::Advanced)
        },
    }
}

} // verus!
