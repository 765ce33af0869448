//! Serving the commands that move payload or time a round trip: `PING`,
//! `GETCHUNKS`, `GETTIME`, `PUT` and `PUTNORESULT`.

use crate::channel::{splice, ChannelView, BUFFER_SIZE};
use crate::chunk::{
    counted, counted_terminator, flag_of, terminator_of, timed, timed_terminator, Terminator,
    LAST_FLAG,
};
use crate::client::signed_result::{ends_line, is_line};
use crate::error::ProtocolError;
use crate::event::{elapsed, elapsed_since, Progress};
use crate::limits::lemma_valid_chunk_sizes;
use crate::server::state::{ServerStep, ServerTestPhase, ServerView, TestState};
use crate::text::same_bytes;
use crate::wire::{lemma_short_lines, ok_line, text_bytes, time_line, time_response};
use vstd::prelude::*;
use vstd::string::*;

verus! {

impl ServerView {
    /// The state with `n` more bytes of the current chunk written.
    pub open spec fn with_chunk_sent(self, n: nat) -> ServerView {
        ServerView {
            io: ChannelView { chunk_pos: (self.io.chunk_pos + n) as nat, ..self.io },
            ..self
        }
    }

    /// The state with the chunk buffer made the next chunk to send, ending
    /// in the flag for `t`.
    pub open spec fn with_sealed_chunk(self, t: Terminator) -> ServerView {
        ServerView {
            io: ChannelView {
                chunk: self.io.chunk.update(self.io.chunk.len() - 1, flag_of(t)),
                chunk_pos: 0,
                ..self.io
            },
            ..self
        }
    }

    /// Receiving `data` of the client's acknowledgement at clock reading
    /// `now`, in a command whose duration is then reported in the phase
    /// `report`. Once the line is complete, `OK` stops the clock and stages
    /// `TIME` with the nanoseconds since the command began; any other line is
    /// refused.
    pub open spec fn acknowledged(self, data: Seq<u8>, now: u64, report: ServerTestPhase)
        -> ServerStep {
        let line = self.io.received + data;
        if line.len() > BUFFER_SIZE {
            (self, Err(ProtocolError::LineTooLong))
        } else if !is_line(line) {
            (self.with_received(data), Ok(Progress::Pending))
        } else if line != ok_line() {
            (self.refusing(ProtocolError::UnexpectedReply, line), Ok(Progress::Advanced))
        } else {
            let time_ns = elapsed_since(self.clock, now);
            (
                ServerView { clock: None, ..self.sending(report, time_line(time_ns as nat)) },
                Ok(Progress::Advanced),
            )
        }
    }

    /// Receiving `data` of the acknowledgement of the timed download: as
    /// for any command, and the reported duration is kept for the envelope.
    pub open spec fn get_time_receive_ok(self, data: Seq<u8>, now: u64) -> ServerStep {
        let step = self.acknowledged(data, now, ServerTestPhase::GetTimeSendTime);
        if step.0.phase == ServerTestPhase::GetTimeSendTime {
            (
                ServerView {
                    download_time_ns: Some(elapsed_since(self.clock, now)),
                    ..step.0
                },
                step.1,
            )
        } else {
            step
        }
    }

    /// Writing `n` more bytes of the current pre-download chunk. Every
    /// completed chunk is counted; behind the final one the acknowledgement
    /// is awaited, behind any other the next chunk is sealed with the flag of
    /// its place in the cycle.
    pub open spec fn get_chunks_send_chunk(self, n: nat) -> ServerStep {
        if n > self.io.chunk_pending().len() {
            (self, Err(ProtocolError::Overrun))
        } else if n < self.io.chunk_pending().len() {
            (self.with_chunk_sent(n), Ok(Progress::Pending))
        } else {
            let counted = ServerView {
                processed_chunks: (self.processed_chunks + 1) as u32,
                cycle_bytes: (self.cycle_bytes + self.io.chunk.len()) as u64,
                ..self
            };
            if counted.processed_chunks >= self.num_chunks {
                (counted.entering(ServerTestPhase::GetChunksReceiveOk), Ok(Progress::Advanced))
            } else {
                (
                    counted.with_sealed_chunk(
                        counted_terminator(
                            counted.processed_chunks as nat,
                            self.num_chunks as nat,
                        ),
                    ),
                    Ok(Progress::Pending),
                )
            }
        }
    }

    /// Writing `n` more bytes of the current timed-download chunk at clock
    /// reading `now`. Every completed chunk adds its length to the bytes of
    /// the download; behind the chunk flagged as last the acknowledgement is
    /// awaited, behind any other the next chunk is sealed, flagged as last
    /// if the requested duration has passed.
    pub open spec fn get_time_send_chunk(self, n: nat, now: u64) -> ServerStep {
        if n > self.io.chunk_pending().len() {
            (self, Err(ProtocolError::Overrun))
        } else if n < self.io.chunk_pending().len() {
            (self.with_chunk_sent(n), Ok(Progress::Pending))
        } else {
            let whole = ServerView { io: ChannelView { chunk_pos: 0, ..self.io }, ..self };
            let total = self.download_bytes + self.io.chunk.len();
            if total > u64::MAX {
                (whole, Err(ProtocolError::Overrun))
            } else {
                let counted = ServerView { download_bytes: total as u64, ..whole };
                if self.io.chunk.last() == LAST_FLAG {
                    (counted.entering(ServerTestPhase::GetTimeReceiveOk), Ok(Progress::Advanced))
                } else {
                    (
                        counted.with_sealed_chunk(
                            timed_terminator(
                                elapsed_since(self.clock, now) as nat,
                                self.duration as nat,
                            ),
                        ),
                        Ok(Progress::Pending),
                    )
                }
            }
        }
    }

    /// Writing `n` more bytes of the `OK` that answers an upload request at
    /// clock reading `now`. Only once the `OK` is out are chunks received:
    /// the clock starts and the accounts of the upload start empty.
    pub open spec fn put_send_ok(self, n: nat, now: u64) -> ServerView {
        let after = self.after_sent(n, ServerTestPhase::PutReceiveChunk);
        if n == self.io.pending.len() {
            ServerView {
                clock: Some(now),
                upload_bytes: 0,
                upload_time_ns: None,
                bytes_received: Seq::empty(),
                ..after
            }
        } else {
            after
        }
    }

    /// Receiving `data` of an upload chunk at clock reading `now`. Every
    /// complete chunk with a valid flag adds its length to the bytes of the
    /// upload, and one sample where the upload is sampled; the end flag stops
    /// the clock and stages `TIME`. A complete chunk with any other last
    /// byte is refused as a framing error.
    pub open spec fn put_receive_chunk(self, data: Seq<u8>, now: u64) -> ServerStep {
        if data.len() > self.io.chunk.len() - self.io.chunk_pos {
            (self, Err(ProtocolError::Overrun))
        } else {
            let filled = splice(self.io.chunk, self.io.chunk_pos as int, data);
            if self.io.chunk_pos + data.len() < self.io.chunk.len() {
                (
                    ServerView {
                        io: ChannelView {
                            chunk: filled,
                            chunk_pos: (self.io.chunk_pos + data.len()) as nat,
                            ..self.io
                        },
                        ..self
                    },
                    Ok(Progress::Pending),
                )
            } else {
                let whole = ServerView {
                    io: ChannelView { chunk: filled, chunk_pos: 0, ..self.io },
                    ..self
                };
                let total = self.upload_bytes + self.io.chunk.len();
                let passed = elapsed_since(self.clock, now);
                match terminator_of(filled.last()) {
                    Err(e) => (whole.refusing(e, whole.io.received), Ok(Progress::Advanced)),
                    Ok(t) => if total > u64::MAX {
                        (whole, Err(ProtocolError::Overrun))
                    } else {
                        let sampled = ServerView {
                            upload_bytes: total as u64,
                            bytes_received: if self.sample_upload {
                                self.bytes_received.push((passed, total as u64))
                            } else {
                                self.bytes_received
                            },
                            ..whole
                        };
                        match t {
                            Terminator::Continue => (sampled, Ok(Progress::Pending)),
                            Terminator::Last => (
                                ServerView {
                                    upload_time_ns: Some(passed),
                                    clock: None,
                                    ..sampled.sending(
                                        ServerTestPhase::PutSendTime,
                                        time_line(passed as nat),
                                    )
                                },
                                Ok(Progress::Advanced),
                            ),
                        }
                    },
                }
            }
        }
    }
}

impl TestState {
    /// Handles readable data of an acknowledgement and stages the `TIME`
    /// line of the command in the phase `report`.
    pub fn acknowledge(&mut self, data: &[u8], now: u64, report: ServerTestPhase) -> (r: Result<
        Progress,
        ProtocolError,
    >)
        requires
            old(self).wf(),
            old(self)@.may_enter(report),
        ensures
            final(self).wf(),
            (final(self)@, r) == old(self)@.acknowledged(data@, now, report),
    {
        match self.io.receive(data) {
            Err(e) => {
                return Err(e);
            },
            Ok(_) => {},
        }
        if !ends_line(self.io.line()) {
            return Ok(Progress::Pending);
        }
        let ok = text_bytes("OK\n");
        if !same_bytes(self.io.line(), ok.as_slice()) {
            self.refuse(ProtocolError::UnexpectedReply);
            return Ok(Progress::Advanced);
        }
        let time_ns: u64 = elapsed(self.clock, now);
        let line = time_response(time_ns);
        proof {
            lemma_short_lines(time_ns as nat, 0, 0);
        }
        self.begin_send(report, line.as_slice());
        self.clock = None;
        Ok(Progress::Advanced)
    }
}

/// Handles the progress of writing `PONG`; once it is out the
/// acknowledgement is awaited.
pub fn handle_ping_send_pong(state: &mut TestState, written: usize) -> (r: Result<
    Progress,
    ProtocolError,
>)
    requires
        old(state).wf(),
    ensures
        final(state).wf(),
        r == old(state)@.sent_result(written as nat),
        final(state)@ == old(state)@.after_sent(written as nat, ServerTestPhase::PingReceiveOk),
{
    state.line_sent(written, ServerTestPhase::PingReceiveOk)
}

/// Handles readable data of the acknowledgement of a `PONG` at clock
/// reading `now`.
pub fn handle_ping_receive_ok(state: &mut TestState, data: &[u8], now: u64) -> (r: Result<
    Progress,
    ProtocolError,
>)
    requires
        old(state).wf(),
    ensures
        final(state).wf(),
        (final(state)@, r) == old(state)@.acknowledged(data@, now, ServerTestPhase::PingSendTime),
{
    state.acknowledge(data, now, ServerTestPhase::PingSendTime)
}

/// Handles the progress of writing the `TIME` line that ends a command;
/// once it is out the banner of admissible commands is staged.
pub fn handle_send_time(state: &mut TestState, written: usize) -> (r: Result<
    Progress,
    ProtocolError,
>)
    requires
        old(state).wf(),
    ensures
        final(state).wf(),
        r == old(state)@.sent_result(written as nat),
        final(state)@ == old(state)@.after_sent_accept(written as nat),
{
    state.line_sent_accept(written)
}

/// Handles the progress of writing the current pre-download chunk.
pub fn handle_get_chunks_send_chunk(state: &mut TestState, written: usize) -> (r: Result<
    Progress,
    ProtocolError,
>)
    requires
        old(state).wf(),
        old(state).measurement_state == ServerTestPhase::GetChunksSendChunk,
    ensures
        final(state).wf(),
        (final(state)@, r) == old(state)@.get_chunks_send_chunk(written as nat),
{
    let size: usize = state.io.chunk_size();
    match state.io.chunk_sent(written) {
        Err(e) => Err(e),
        Ok(false) => Ok(Progress::Pending),
        Ok(true) => {
            proof {
                lemma_valid_chunk_sizes(size as int);
                assert((state.processed_chunks + 1) * size == state.processed_chunks * size
                    + size) by (nonlinear_arith);
                assert((state.processed_chunks + 1) * size <= 0x1_0000_0000 * 4194304) by (nonlinear_arith)
                    requires
                        state.processed_chunks + 1 <= 0x1_0000_0000,
                        size <= 4194304,
                ;
            }
            state.processed_chunks = state.processed_chunks + 1;
            state.cycle_bytes = state.cycle_bytes + size as u64;
            if state.processed_chunks >= state.num_chunks {
                state.io.reset();
                state.measurement_state = ServerTestPhase::GetChunksReceiveOk;
                Ok(Progress::Advanced)
            } else {
                state.io.seal_chunk(counted(state.processed_chunks, state.num_chunks));
                Ok(Progress::Pending)
            }
        },
    }
}

/// Handles readable data of the acknowledgement of a pre-download cycle at
/// clock reading `now`.
pub fn handle_get_chunks_receive_ok(state: &mut TestState, data: &[u8], now: u64) -> (r: Result<
    Progress,
    ProtocolError,
>)
    requires
        old(state).wf(),
        old(state).measurement_state == ServerTestPhase::GetChunksReceiveOk,
    ensures
        final(state).wf(),
        (final(state)@, r) == old(state)@.acknowledged(
            data@,
            now,
            ServerTestPhase::GetChunksSendTime,
        ),
{
    state.acknowledge(data, now, ServerTestPhase::GetChunksSendTime)
}

/// Handles the progress of writing the current timed-download chunk at
/// clock reading `now`.
pub fn handle_get_time_send_chunk(state: &mut TestState, written: usize, now: u64) -> (r: Result<
    Progress,
    ProtocolError,
>)
    requires
        old(state).wf(),
        old(state).measurement_state == ServerTestPhase::GetTimeSendChunk,
    ensures
        final(state).wf(),
        (final(state)@, r) == old(state)@.get_time_send_chunk(written as nat, now),
{
    let size: usize = state.io.chunk_size();
    match state.io.chunk_sent(written) {
        Err(e) => Err(e),
        Ok(false) => Ok(Progress::Pending),
        Ok(true) => {
            match state.download_bytes.checked_add(size as u64) {
                None => Err(ProtocolError::Overrun),
                Some(total) => {
                    state.download_bytes = total;
                    if state.io.chunk_buffer[size - 1] == LAST_FLAG {
                        state.begin(ServerTestPhase::GetTimeReceiveOk);
                        Ok(Progress::Advanced)
                    } else {
                        state.io.seal_chunk(timed(elapsed(state.clock, now), state.duration));
                        Ok(Progress::Pending)
                    }
                },
            }
        },
    }
}

/// Handles readable data of the acknowledgement of the timed download at
/// clock reading `now`.
pub fn handle_get_time_receive_ok(state: &mut TestState, data: &[u8], now: u64) -> (r: Result<
    Progress,
    ProtocolError,
>)
    requires
        old(state).wf(),
    ensures
        final(state).wf(),
        (final(state)@, r) == old(state)@.get_time_receive_ok(data@, now),
{
    let time_ns: u64 = elapsed(state.clock, now);
    let r = state.acknowledge(data, now, ServerTestPhase::GetTimeSendTime);
    match state.measurement_state {
        ServerTestPhase::GetTimeSendTime => {
            state.download_time_ns = Some(time_ns);
        },
        _ => {},
    }
    r
}

/// Handles the progress of writing the `OK` that answers an upload request
/// at clock reading `now`.
pub fn handle_put_send_ok(state: &mut TestState, written: usize, now: u64) -> (r: Result<
    Progress,
    ProtocolError,
>)
    requires
        old(state).wf(),
    ensures
        final(state).wf(),
        r == old(state)@.sent_result(written as nat),
        final(state)@ == old(state)@.put_send_ok(written as nat, now),
{
    let r = state.line_sent(written, ServerTestPhase::PutReceiveChunk);
    match r {
        Ok(Progress::Advanced) => {
            state.clock = Some(now);
            state.upload_bytes = 0;
            state.upload_time_ns = None;
            state.bytes_received = Vec::new();
        },
        _ => {},
    }
    r
}

/// Handles readable data of an upload chunk at clock reading `now`.
pub fn handle_put_receive_chunk(state: &mut TestState, data: &[u8], now: u64) -> (r: Result<
    Progress,
    ProtocolError,
>)
    requires
        old(state).wf(),
        old(state).measurement_state == ServerTestPhase::PutReceiveChunk,
    ensures
        final(state).wf(),
        (final(state)@, r) == old(state)@.put_receive_chunk(data@, now),
{
    let size: usize = state.io.chunk_size();
    match state.io.receive_chunk(data) {
        Err(ProtocolError::BadTerminator) => {
            state.refuse(ProtocolError::BadTerminator);
            Ok(Progress::Advanced)
        },
        Err(e) => Err(e),
        Ok(None) => Ok(Progress::Pending),
        Ok(Some(t)) => {
            match state.upload_bytes.checked_add(size as u64) {
                None => Err(ProtocolError::Overrun),
                Some(total) => {
                    let passed: u64 = elapsed(state.clock, now);
                    state.upload_bytes = total;
                    if state.sample_upload {
                        state.bytes_received.push((passed, total));
                    }
                    match t {
                        Terminator::Continue => Ok(Progress::Pending),
                        Terminator::Last => {
                            let line = time_response(passed);
                            proof {
                                lemma_short_lines(passed as nat, 0, 0);
                            }
                            state.begin_send(ServerTestPhase::PutSendTime, line.as_slice());
                            state.upload_time_ns = Some(passed);
                            state.clock = None;
                            Ok(Progress::Advanced)
                        },
                    }
                },
            }
        },
    }
}

/// Handles the progress of writing an `ERR` line; once it is out the
/// connection is closed.
pub fn handle_error_send(state: &mut TestState, written: usize) -> (r: Result<
    Progress,
    ProtocolError,
>)
    requires
        old(state).wf(),
    ensures
        final(state).wf(),
        r == old(state)@.sent_result(written as nat),
        final(state)@ == old(state)@.after_sent(written as nat, ServerTestPhase::Closed),
{
    state.line_sent(written, ServerTestPhase::Closed)
}

} // verus!
