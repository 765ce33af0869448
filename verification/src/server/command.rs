//! Accepting the client's next command and entering the phase that serves
//! it.

use crate::channel::{resized, ChannelView, BUFFER_SIZE};
use crate::chunk::{counted, counted_terminator, flag_of, timed, timed_terminator};
use crate::client::signed_result::{ends_line, is_line};
use crate::error::ProtocolError;
use crate::event::{nanos_of_seconds, seconds_as_nanos, Progress};
use crate::server::state::{ServerStep, ServerTestPhase, ServerView, TestState};
use crate::wire::{
    command_of, lemma_short_lines, ok_line, parse_command, pong_line, text_bytes, Command,
};
use vstd::prelude::*;
use vstd::slice::slice_subrange;
use vstd::string::*;

verus! {

impl ServerView {
    /// The state with the chunk buffer given the length `size`, the first
    /// chunk sealed with the flag for `t`, and the accounts of the
    /// pre-download cycle cleared.
    pub open spec fn with_chunks_of(self, size: usize, t: crate::chunk::Terminator) -> ServerView {
        let buffer = resized(self.io.chunk, size as nat);
        ServerView {
            io: ChannelView {
                chunk: buffer.update(size - 1, flag_of(t)),
                chunk_pos: 0,
                ..self.io.cleared()
            },
            num_chunks: 0,
            processed_chunks: 0,
            cycle_bytes: 0,
            ..self
        }
    }

    /// The state on taking up `command` at clock reading `now`.
    ///
    /// `PING` starts the clock and stages `PONG`. `GETCHUNKS` and `GETTIME`
    /// start the clock and seal the first chunk of the requested size; the
    /// cycle is then counted, or timed against the requested duration. `PUT`
    /// and `PUTNORESULT` stage `OK` and take the requested size; no chunk is
    /// received before the `OK` is out. `SIGNEDRESULT` owes the envelope, and
    /// `QUIT` closes the connection.
    pub open spec fn starting(self, command: Command, now: u64) -> ServerView {
        match command {
            Command::Ping => ServerView {
                clock: Some(now),
                ..self.sending(ServerTestPhase::PingSendPong, pong_line())
            },
            Command::GetChunks { chunks, chunk_size } => ServerView {
                phase: ServerTestPhase::GetChunksSendChunk,
                num_chunks: chunks,
                clock: Some(now),
                ..self.with_chunks_of(chunk_size, counted_terminator(0, chunks as nat))
            },
            Command::GetTime { seconds, chunk_size } => ServerView {
                phase: ServerTestPhase::GetTimeSendChunk,
                duration: seconds_as_nanos(seconds),
                download_bytes: 0,
                download_time_ns: None,
                clock: Some(now),
                ..self.with_chunks_of(
                    chunk_size,
                    timed_terminator(0, seconds_as_nanos(seconds) as nat),
                )
            },
            Command::Put { chunk_size } => ServerView {
                sample_upload: true,
                ..self.with_chunks_of(chunk_size, crate::chunk::Terminator::Continue).sending(
                    ServerTestPhase::PutSendOk,
                    ok_line(),
                )
            },
            Command::PutNoResult { chunk_size } => ServerView {
                sample_upload: false,
                ..self.with_chunks_of(chunk_size, crate::chunk::Terminator::Continue).sending(
                    ServerTestPhase::PutSendOk,
                    ok_line(),
                )
            },
            Command::SignedResult => self.entering(ServerTestPhase::SignedResultSend),
            Command::Quit => self.entering(ServerTestPhase::Closed),
        }
    }

    /// Receiving `data` of a command line at clock reading `now`. Once the
    /// line is complete it is read: a command of the protocol is taken up; a
    /// line that is none, or whose arguments are refused, is answered with
    /// `ERR` and the connection closed; so is `SIGNEDRESULT` before both
    /// timed transfers are done.
    pub open spec fn accept_command_receive(self, data: Seq<u8>, now: u64) -> ServerStep {
        let line = self.io.received + data;
        if line.len() > BUFFER_SIZE {
            (self, Err(ProtocolError::LineTooLong))
        } else if !is_line(line) {
            (self.with_received(data), Ok(Progress::Pending))
        } else {
            match command_of(line.drop_last()) {
                Err(e) => (self.refusing(e, line), Ok(Progress::Advanced)),
                Ok(command) => if command == Command::SignedResult && !self.measured() {
                    (self.refusing(ProtocolError::NotMeasured, line), Ok(Progress::Advanced))
                } else {
                    (self.starting(command, now), Ok(Progress::Advanced))
                },
            }
        }
    }
}

impl TestState {
    /// Gives the chunk buffer the length `size`, seals the first chunk with
    /// the flag for `t` and clears the accounts of the pre-download cycle.
    fn prepare_chunks(&mut self, size: usize, t: crate::chunk::Terminator)
        requires
            old(self).wf(),
            crate::limits::valid_chunk_size(size as int),
            old(self).measurement_state != ServerTestPhase::GetChunksSendChunk,
        ensures
            final(self).wf(),
            final(self)@ == old(self)@.with_chunks_of(size, t),
    {
        self.num_chunks = 0;
        self.processed_chunks = 0;
        self.cycle_bytes = 0;
        self.io.reset();
        let sized = self.io.set_chunk_size(size);
        self.io.seal_chunk(t);
        assert(self.processed_chunks * self.io@.chunk.len() == 0) by (nonlinear_arith)
            requires
                self.processed_chunks == 0,
        ;
    }

    /// Takes up `command` at clock reading `now`.
    pub fn start(&mut self, command: Command, now: u64)
        requires
            old(self).wf(),
            old(self).measurement_state != ServerTestPhase::GetChunksSendChunk,
            match command {
                Command::GetChunks { chunks, chunk_size } => chunks >= 1
                    && crate::limits::valid_chunk_size(chunk_size as int),
                Command::GetTime { seconds, chunk_size } => crate::limits::valid_chunk_size(
                    chunk_size as int,
                ),
                Command::Put { chunk_size } => crate::limits::valid_chunk_size(chunk_size as int),
                Command::PutNoResult { chunk_size } => crate::limits::valid_chunk_size(
                    chunk_size as int,
                ),
                _ => true,
            },
        ensures
            final(self).wf(),
            final(self)@ == old(self)@.starting(command, now),
    {
        proof {
            lemma_short_lines(0, 0, 0);
        }
        match command {
            Command::Ping => {
                let pong = text_bytes("PONG\n");
                self.begin_send(ServerTestPhase::PingSendPong, pong.as_slice());
                self.clock = Some(now);
            },
            Command::GetChunks { chunks, chunk_size } => {
                self.prepare_chunks(chunk_size, counted(0, chunks));
                self.num_chunks = chunks;
                self.clock = Some(now);
                self.measurement_state = ServerTestPhase::GetChunksSendChunk;
            },
            Command::GetTime { seconds, chunk_size } => {
                let duration: u64 = nanos_of_seconds(seconds);
                self.prepare_chunks(chunk_size, timed(0, duration));
                self.duration = duration;
                self.download_bytes = 0;
                self.download_time_ns = None;
                self.clock = Some(now);
                self.measurement_state = ServerTestPhase::GetTimeSendChunk;
            },
            Command::Put { chunk_size } => {
                self.prepare_chunks(chunk_size, crate::chunk::Terminator::Continue);
                let ok = text_bytes("OK\n");
                self.begin_send(ServerTestPhase::PutSendOk, ok.as_slice());
                self.sample_upload = true;
            },
            Command::PutNoResult { chunk_size } => {
                self.prepare_chunks(chunk_size, crate::chunk::Terminator::Continue);
                let ok = text_bytes("OK\n");
                self.begin_send(ServerTestPhase::PutSendOk, ok.as_slice());
                self.sample_upload = false;
            },
            Command::SignedResult => {
                self.begin(ServerTestPhase::SignedResultSend);
            },
            Command::Quit => {
                self.begin(ServerTestPhase::Closed);
            },
        }
    }
}

/// Handles the progress of writing the banner of admissible commands; once
/// it is out the client's command is awaited.
pub fn handle_accept_command_send(state: &mut TestState, written: usize) -> (r: Result<
    Progress,
    ProtocolError,
>)
    requires
        old(state).wf(),
    ensures
        final(state).wf(),
        r == old(state)@.sent_result(written as nat),
        final(state)@ == old(state)@.after_sent(
            written as nat,
            ServerTestPhase::AcceptCommandReceive,
        ),
{
    state.line_sent(written, ServerTestPhase::AcceptCommandReceive)
}

/// Handles readable data of a command line at clock reading `now`.
pub fn handle_accept_command_receive(state: &mut TestState, data: &[u8], now: u64) -> (r: Result<
    Progress,
    ProtocolError,
>)
    requires
        old(state).wf(),
        old(state).measurement_state != ServerTestPhase::GetChunksSendChunk,
    ensures
        final(state).wf(),
        (final(state)@, r) == old(state)@.accept_command_receive(data@, now),
{
    match state.io.receive(data) {
        Err(e) => {
            return Err(e);
        },
        Ok(_) => {},
    }
    if !ends_line(state.io.line()) {
        return Ok(Progress::Pending);
    }
    let line = state.io.line();
    let body = slice_subrange(line, 0, line.len() - 1);
    assert(body@ =~= line@.drop_last());
    match parse_command(body) {
        Err(e) => {
            state.refuse(e);
        },
        Ok(command) => {
            let unmeasured: bool = state.download_time_ns.is_none()
                || state.upload_time_ns.is_none();
            match command {
                Command::SignedResult => {
                    if unmeasured {
                        state.refuse(ProtocolError::NotMeasured);
                    } else {
                        state.start(command, now);
                    }
                },
                _ => {
                    state.start(command, now);
                },
            }
        },
    }
    Ok(Progress::Advanced)
}

} // verus!
