//! Pre-download sizing: cycles of a few chunks that grow until one of them
//! lasts as long as the warm-up should.

use crate::channel::{resized, ChannelView, BUFFER_SIZE};
use crate::chunk::{terminator_of, Terminator};
use crate::client::state::{
    ClientView, MeasurementState, TestPhase, MAX_CHUNKS_BEFORE_SIZE_INCREASE,
    PRE_DOWNLOAD_DURATION_NS,
};
use crate::error::ProtocolError;
use crate::event::Progress;
use crate::limits::{lemma_small_pow2, lemma_valid_chunk_sizes, MAX_CHUNK_SIZE};
use crate::text::{contains, contains_bytes};
use crate::wire::{
    accept_commands_line, get_chunks_command, get_chunks_line, lemma_short_lines, ok_line,
    parse_time_response, reported_time, text_bytes,
};
use vstd::prelude::*;
use vstd::string::*;

verus! {

/// A state and what the handler that led to it reports.
pub type Step = (ClientView, Result<Progress, ProtocolError>);

impl ClientView {
    /// The next larger pre-download cycle: twice the chunks below the
    /// ceiling of the chunk count, else twice the chunk size, capped at the
    /// largest.
    pub open spec fn grown(self) -> ClientView {
        if self.total_chunks < MAX_CHUNKS_BEFORE_SIZE_INCREASE {
            ClientView { total_chunks: (self.total_chunks * 2) as u32, ..self }
        } else {
            let doubled = self.io.chunk.len() * 2;
            let size = if doubled <= MAX_CHUNK_SIZE {
                doubled
            } else {
                MAX_CHUNK_SIZE as nat
            };
            ClientView {
                io: ChannelView { chunk: resized(self.io.chunk, size), chunk_pos: 0, ..self.io },
                ..self
            }
        }
    }

    /// The request for the pre-download cycle that the state describes.
    pub open spec fn get_chunks_request(self) -> Seq<u8> {
        get_chunks_line(self.total_chunks as nat, self.io.chunk.len())
    }

    /// Receiving `data` while the reported duration of a pre-download cycle
    /// is awaited. The response is complete once the banner of admissible
    /// commands has arrived. A cycle shorter than the warm-up, at less than
    /// the largest chunk size, is repeated larger; otherwise the sizing is
    /// complete.
    pub open spec fn get_chunks_receive_time(self, data: Seq<u8>) -> Step {
        let line = self.io.received + data;
        if line.len() > BUFFER_SIZE {
            (self, Err(ProtocolError::LineTooLong))
        } else if !contains(line, accept_commands_line()) {
            (self.with_received(data), Ok(Progress::Pending))
        } else {
            match reported_time(line) {
                None => (self.with_received(data), Err(ProtocolError::MalformedNumber)),
                Some(time_ns) => if time_ns < PRE_DOWNLOAD_DURATION_NS && self.io.chunk.len()
                    < MAX_CHUNK_SIZE {
                    let next = self.grown();
                    (
                        next.sending(
                            TestPhase::GetChunksSendChunksCommand,
                            next.get_chunks_request(),
                        ),
                        Ok(Progress::Advanced),
                    )
                } else {
                    (self.entering(TestPhase::GetChunksCompleted), Ok(Progress::Advanced))
                },
            }
        }
    }

    /// Receiving `data` of a pre-download chunk. A chunk is complete when it
    /// has the negotiated length; its last byte then decides: the continue
    /// flag starts the next chunk, the end flag turns the connection round to
    /// acknowledge, any other byte is a framing error.
    pub open spec fn get_chunks_receive_chunk(self, data: Seq<u8>) -> Step {
        if data.len() > self.io.chunk.len() - self.io.chunk_pos {
            (self, Err(ProtocolError::Overrun))
        } else {
            let filled = crate::channel::splice(self.io.chunk, self.io.chunk_pos as int, data);
            let read = ClientView { io: ChannelView { chunk: filled, ..self.io }, ..self };
            if self.io.chunk_pos + data.len() < self.io.chunk.len() {
                (
                    ClientView {
                        io: ChannelView {
                            chunk_pos: (self.io.chunk_pos + data.len()) as nat,
                            ..read.io
                        },
                        ..read
                    },
                    Ok(Progress::Pending),
                )
            } else {
                let whole = ClientView { io: ChannelView { chunk_pos: 0, ..read.io }, ..read };
                match terminator_of(filled.last()) {
                    Ok(Terminator::Continue) => (whole, Ok(Progress::Pending)),
                    Ok(Terminator::Last) => (
                        whole.sending(TestPhase::GetChunksSendOk, ok_line()),
                        Ok(Progress::Advanced),
                    ),
                    Err(e) => (whole, Err(e)),
                }
            }
        }
    }
}

/// Grows the pre-download cycle: doubles the chunk count while it is below
/// its ceiling, else doubles the chunk size up to the largest.
pub fn increase_chunk_size(measurement_state: &mut MeasurementState)
    requires
        old(measurement_state).wf(),
    ensures
        final(measurement_state).wf(),
        final(measurement_state)@ == old(measurement_state)@.grown(),
        final(measurement_state).total_chunks >= old(measurement_state).total_chunks,
        final(measurement_state)@.io.chunk.len() >= old(measurement_state)@.io.chunk.len(),
{
    proof {
        let chunk = measurement_state.io@.chunk;
        assert(resized(chunk, chunk.len()) =~= chunk);
        lemma_small_pow2(measurement_state.total_chunks as int);
        lemma_small_pow2(measurement_state.total_chunks * 2);
        lemma_valid_chunk_sizes(measurement_state.io.chunk_buffer@.len() as int);
        lemma_valid_chunk_sizes((measurement_state.io.chunk_buffer@.len() * 2) as int);
        lemma_valid_chunk_sizes(MAX_CHUNK_SIZE as int);
    }
    if measurement_state.total_chunks < MAX_CHUNKS_BEFORE_SIZE_INCREASE {
        measurement_state.total_chunks = measurement_state.total_chunks * 2;
    } else {
        let doubled: usize = measurement_state.io.chunk_size() * 2;
        let size: usize = if doubled <= MAX_CHUNK_SIZE {
            doubled
        } else {
            MAX_CHUNK_SIZE
        };
        let resized = measurement_state.io.set_chunk_size(size);
    }
}

/// Handles readable data while the duration of a pre-download cycle is
/// awaited.
pub fn handle_get_chunks_receive_time(state: &mut MeasurementState, data: &[u8]) -> (r: Result<
    Progress,
    ProtocolError,
>)
    requires
        old(state).wf(),
    ensures
        final(state).wf(),
        (final(state)@, r) == old(state)@.get_chunks_receive_time(data@),
{
    match state.io.receive(data) {
        Err(e) => {
            return Err(e);
        },
        Ok(_) => {},
    }
    let accept = text_bytes("ACCEPT GETCHUNKS GETTIME PUT PUTNORESULT PING QUIT\n");
    if !contains_bytes(state.io.line(), accept.as_slice()) {
        return Ok(Progress::Pending);
    }
    match parse_time_response(state.io.line()) {
        None => Err(ProtocolError::MalformedNumber),
        Some(time_ns) => {
            if time_ns < PRE_DOWNLOAD_DURATION_NS && state.io.chunk_size() < MAX_CHUNK_SIZE {
                increase_chunk_size(state);
                let command = get_chunks_command(state.total_chunks, state.io.chunk_size());
                proof {
                    lemma_short_lines(
                        state.total_chunks as nat,
                        state.io@.chunk.len(),
                        0,
                    );
                }
                state.begin_send(TestPhase::GetChunksSendChunksCommand, command.as_slice());
            } else {
                state.begin(TestPhase::GetChunksCompleted);
            }
            Ok(Progress::Advanced)
        },
    }
}

/// Handles the progress of writing the `GETCHUNKS` request; once it is out
/// the chunks are awaited.
pub fn handle_get_chunks_send_chunks_command(state: &mut MeasurementState, written: usize) -> (r:
    Result<Progress, ProtocolError>)
    requires
        old(state).wf(),
    ensures
        final(state).wf(),
        r == old(state)@.sent_result(written as nat),
        final(state)@ == old(state)@.after_sent(written as nat, TestPhase::GetChunksReceiveChunk),
{
    state.line_sent(written, TestPhase::GetChunksReceiveChunk)
}

/// Handles the progress of writing the acknowledgement of a pre-download
/// cycle; once it is out the reported duration is awaited.
pub fn handle_get_chunks_send_ok(state: &mut MeasurementState, written: usize) -> (r: Result<
    Progress,
    ProtocolError,
>)
    requires
        old(state).wf(),
    ensures
        final(state).wf(),
        r == old(state)@.sent_result(written as nat),
        final(state)@ == old(state)@.after_sent(written as nat, TestPhase::GetChunksReceiveTime),
{
    state.line_sent(written, TestPhase::GetChunksReceiveTime)
}

/// Handles readable data of a pre-download chunk.
pub fn handle_get_chunks_receive_chunk(state: &mut MeasurementState, data: &[u8]) -> (r: Result<
    Progress,
    ProtocolError,
>)
    requires
        old(state).wf(),
        old(state).phase != TestPhase::PutSendChunk,
    ensures
        final(state).wf(),
        (final(state)@, r) == old(state)@.get_chunks_receive_chunk(data@),
{
    match state.io.receive_chunk(data) {
        Err(e) => Err(e),
        Ok(None) => Ok(Progress::Pending),
        Ok(Some(Terminator::Continue)) => Ok(Progress::Pending),
        Ok(Some(Terminator::Last)) => {
            let ok = text_bytes("OK\n");
            proof {
                lemma_short_lines(0, 0, 0);
            }
            state.begin_send(TestPhase::GetChunksSendOk, ok.as_slice());
            Ok(Progress::Advanced)
        },
    }
}

} // verus!
