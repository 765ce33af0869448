//! The state of one server connection and the moves that every phase shares.

use crate::channel::{Channel, ChannelView, BUFFER_SIZE};
use crate::chunk::{counted_terminator, flag_of, CONTINUE_FLAG, LAST_FLAG};
use crate::error::ProtocolError;
use crate::event::{Interest, Progress};
use crate::wire::{accept_commands_line, err_line, err_response, lemma_short_lines, text_bytes};
use vstd::prelude::*;
use vstd::slice::slice_subrange;
use vstd::string::*;

verus! {

/// Longest echo that fits on an `ERR` line.
pub const MAX_ECHO_LEN: usize = 8187;

/// The phases of a server connection.
#[derive(Clone, Copy, Debug, PartialEq, Eq, Structural)]
pub enum ServerTestPhase {
    GreetingSendVersion,
    GreetingReceiveToken,
    GreetingSendChunkSize,
    AcceptCommandSend,
    AcceptCommandReceive,
    PingSendPong,
    PingReceiveOk,
    PingSendTime,
    GetChunksSendChunk,
    GetChunksReceiveOk,
    GetChunksSendTime,
    GetTimeSendChunk,
    GetTimeReceiveOk,
    GetTimeSendTime,
    PutSendOk,
    PutReceiveChunk,
    PutSendTime,
    SignedResultSend,
    SignedResultReceiveOk,
    ErrorSend,
    Closed,
}

/// The readiness that a phase waits for.
pub open spec fn interest_of(phase: ServerTestPhase) -> Interest {
    match phase {
        ServerTestPhase::GreetingReceiveToken
        | ServerTestPhase::AcceptCommandReceive
        | ServerTestPhase::PingReceiveOk
        | ServerTestPhase::GetChunksReceiveOk
        | ServerTestPhase::GetTimeReceiveOk
        | ServerTestPhase::PutReceiveChunk
        | ServerTestPhase::SignedResultReceiveOk => Interest::Readable,
        ServerTestPhase::Closed => Interest::Closed,
        _ => Interest::Writable,
    }
}

/// The phase streams chunks to the client.
pub open spec fn sends_chunks(phase: ServerTestPhase) -> bool {
    phase == ServerTestPhase::GetChunksSendChunk || phase == ServerTestPhase::GetTimeSendChunk
}

/// The state of one server connection.
pub struct TestState {
    /// Identifier of the connection at the poller.
    pub token: usize,
    /// Clock reading at which the connection was taken up.
    pub connection_start: u64,
    pub io: Channel,
    pub measurement_state: ServerTestPhase,
    /// The protocol version that the greeting announces, if one is
    /// configured.
    pub version: Option<u8>,
    /// Chunks that the current pre-download cycle is to deliver.
    pub num_chunks: u32,
    /// Chunks that the current pre-download cycle has delivered.
    pub processed_chunks: u32,
    /// Payload bytes that the current pre-download cycle has delivered.
    pub cycle_bytes: u64,
    /// Clock reading at which the current command began.
    pub clock: Option<u64>,
    /// Requested duration of the timed download in nanoseconds.
    pub duration: u64,
    /// Payload bytes of the timed download.
    pub download_bytes: u64,
    /// Duration of the timed download in nanoseconds.
    pub download_time_ns: Option<u64>,
    /// Payload bytes of the timed upload.
    pub upload_bytes: u64,
    /// Duration of the timed upload in nanoseconds.
    pub upload_time_ns: Option<u64>,
    /// Whether the current upload was asked for with per-chunk sampling.
    pub sample_upload: bool,
    /// `(elapsed_ns, bytes)` at every chunk boundary of a sampled upload.
    pub bytes_received: Vec<(u64, u64)>,
    /// The client's address as text.
    pub client_addr: Vec<u8>,
    /// The base64 text of the key that signs the envelope, once there is one.
    pub sig_key: Option<Vec<u8>>,
    /// Handler invocations counted for the timeout throttle.
    pub loop_iteration_count: u32,
    /// The protocol error that the connection is being closed for.
    pub failure: Option<ProtocolError>,
}

/// The state of a server connection as contracts speak of it.
pub struct ServerView {
    pub token: usize,
    pub connection_start: u64,
    pub io: ChannelView,
    pub phase: ServerTestPhase,
    pub version: Option<u8>,
    pub num_chunks: u32,
    pub processed_chunks: u32,
    pub cycle_bytes: u64,
    pub clock: Option<u64>,
    pub duration: u64,
    pub download_bytes: u64,
    pub download_time_ns: Option<u64>,
    pub upload_bytes: u64,
    pub upload_time_ns: Option<u64>,
    pub sample_upload: bool,
    pub bytes_received: Seq<(u64, u64)>,
    pub client_addr: Seq<u8>,
    pub sig_key: Option<Seq<u8>>,
    pub loop_iteration_count: u32,
    pub failure: Option<ProtocolError>,
}

/// A state and what the handler that led to it reports.
pub type ServerStep = (ServerView, Result<Progress, ProtocolError>);

impl View for TestState {
    type V = ServerView;

    open spec fn view(&self) -> ServerView {
        ServerView {
            token: self.token,
            connection_start: self.connection_start,
            io: self.io@,
            phase: self.measurement_state,
            version: self.version,
            num_chunks: self.num_chunks,
            processed_chunks: self.processed_chunks,
            cycle_bytes: self.cycle_bytes,
            clock: self.clock,
            duration: self.duration,
            download_bytes: self.download_bytes,
            download_time_ns: self.download_time_ns,
            upload_bytes: self.upload_bytes,
            upload_time_ns: self.upload_time_ns,
            sample_upload: self.sample_upload,
            bytes_received: self.bytes_received@,
            client_addr: self.client_addr@,
            sig_key: match self.sig_key {
                Some(k) => Some(k@),
                None => None,
            },
            loop_iteration_count: self.loop_iteration_count,
            failure: self.failure,
        }
    }
}

/// What is echoed of a refused line: the line without its line feed, cut to
/// what fits behind `ERR`.
pub open spec fn echo_of(line: Seq<u8>) -> Seq<u8> {
    let body = if line.len() > 0 && line.last() == crate::wire::NEWLINE {
        line.drop_last()
    } else {
        line
    };
    if body.len() > MAX_ECHO_LEN {
        body.take(MAX_ECHO_LEN as int)
    } else {
        body
    }
}

impl ServerView {
    /// The chunk that is being sent ends in one of the two flags.
    pub open spec fn sealed(self) -> bool {
        self.io.chunk.last() == CONTINUE_FLAG || self.io.chunk.last() == LAST_FLAG
    }

    /// The cycles are accounted for. Of the pre-download: the bytes
    /// delivered are the chunks delivered times the chunk size; while the
    /// cycle streams, a chunk is still owed and the sealed one carries the
    /// flag of its place; once the cycle is acknowledged or timed, every
    /// chunk was delivered. Of the timed download: while it streams, the
    /// chunk that is being sent ends in one of the two flags.
    pub open spec fn cycle_ok(self) -> bool {
        &&& self.cycle_bytes == self.processed_chunks * self.io.chunk.len()
        &&& self.phase == ServerTestPhase::GetChunksSendChunk ==> {
            &&& self.processed_chunks < self.num_chunks
            &&& self.io.chunk.last() == flag_of(
                counted_terminator(self.processed_chunks as nat, self.num_chunks as nat),
            )
        }
        &&& (self.phase == ServerTestPhase::GetChunksReceiveOk || self.phase
            == ServerTestPhase::GetChunksSendTime) ==> self.processed_chunks == self.num_chunks
        &&& self.phase == ServerTestPhase::GetTimeSendChunk ==> self.sealed()
    }

    /// The phase `next` can be entered without touching the accounts of
    /// the cycles or sealing a chunk.
    pub open spec fn may_enter(self, next: ServerTestPhase) -> bool {
        &&& next != ServerTestPhase::GetChunksSendChunk
        &&& next != ServerTestPhase::GetTimeSendChunk
        &&& (next == ServerTestPhase::GetChunksReceiveOk || next
            == ServerTestPhase::GetChunksSendTime) ==> self.processed_chunks == self.num_chunks
    }

    /// The state on entering the send phase `phase` with `line` staged.
    pub open spec fn sending(self, phase: ServerTestPhase, line: Seq<u8>) -> ServerView {
        ServerView { phase, io: self.io.staging(line), ..self }
    }

    /// The state on entering `phase` with nothing staged or received.
    pub open spec fn entering(self, phase: ServerTestPhase) -> ServerView {
        ServerView { phase, io: self.io.cleared(), ..self }
    }

    /// The state with `data` appended to the line that is being received.
    pub open spec fn with_received(self, data: Seq<u8>) -> ServerView {
        ServerView { io: self.io.taking(data), ..self }
    }

    /// The state with `n` more bytes of the staged line written.
    pub open spec fn with_sent(self, n: nat) -> ServerView {
        ServerView { io: self.io.written(n), ..self }
    }

    /// What a handler reports after `n` more bytes of the staged line were
    /// written.
    pub open spec fn sent_result(self, n: nat) -> Result<Progress, ProtocolError> {
        if n > self.io.pending.len() {
            Err(ProtocolError::Overrun)
        } else if n == self.io.pending.len() {
            Ok(Progress::Advanced)
        } else {
            Ok(Progress::Pending)
        }
    }

    /// The state after `n` more bytes of the staged line were written, when
    /// the receive phase `next` follows the line.
    pub open spec fn after_sent(self, n: nat, next: ServerTestPhase) -> ServerView {
        if n > self.io.pending.len() {
            self
        } else if n == self.io.pending.len() {
            self.entering(next)
        } else {
            self.with_sent(n)
        }
    }

    /// The state after `n` more bytes of the staged line were written, when
    /// the line ends a command: the banner of admissible commands is staged
    /// next.
    pub open spec fn after_sent_accept(self, n: nat) -> ServerView {
        if n > self.io.pending.len() {
            self
        } else if n == self.io.pending.len() {
            self.sending(ServerTestPhase::AcceptCommandSend, accept_commands_line())
        } else {
            self.with_sent(n)
        }
    }

    /// The state on refusing `line` for `error`: the error is noted and the
    /// `ERR` line that echoes the refused line is staged.
    pub open spec fn refusing(self, error: ProtocolError, line: Seq<u8>) -> ServerView {
        ServerView {
            failure: Some(error),
            ..self.sending(ServerTestPhase::ErrorSend, err_line(echo_of(line)))
        }
    }
}

impl TestState {
    /// The buffers are well formed and the pre-download cycle is accounted
    /// for.
    pub open spec fn wf(&self) -> bool {
        &&& self.io.wf()
        &&& self@.cycle_ok()
    }

    /// The readiness that the connection waits for.
    pub fn interest(&self) -> (r: Interest)
        ensures
            r == interest_of(self.measurement_state),
    {
        match self.measurement_state {
            ServerTestPhase::GreetingReceiveToken
            | ServerTestPhase::AcceptCommandReceive
            | ServerTestPhase::PingReceiveOk
            | ServerTestPhase::GetChunksReceiveOk
            | ServerTestPhase::GetTimeReceiveOk
            | ServerTestPhase::PutReceiveChunk
            | ServerTestPhase::SignedResultReceiveOk => Interest::Readable,
            ServerTestPhase::Closed => Interest::Closed,
            _ => Interest::Writable,
        }
    }

    /// What the connection has to write next: the rest of the current chunk
    /// while chunks stream, else the rest of the staged line.
    pub fn outgoing(&self) -> (r: &[u8])
        requires
            self.wf(),
        ensures
            r@ == if sends_chunks(self.measurement_state) {
                self@.io.chunk_pending()
            } else {
                self@.io.pending
            },
    {
        match self.measurement_state {
            ServerTestPhase::GetChunksSendChunk | ServerTestPhase::GetTimeSendChunk => {
                self.io.chunk_outgoing()
            },
            _ => self.io.outgoing(),
        }
    }

    /// How many bytes the next read may deliver at most.
    pub fn read_room(&self) -> (r: usize)
        requires
            self.wf(),
        ensures
            r == if self.measurement_state == ServerTestPhase::PutReceiveChunk {
                self@.io.chunk.len() - self@.io.chunk_pos
            } else {
                BUFFER_SIZE - self@.io.received.len()
            },
    {
        match self.measurement_state {
            ServerTestPhase::PutReceiveChunk => self.io.chunk_room(),
            _ => self.io.line_room(),
        }
    }

    /// Enters the send phase `phase` with `line` staged.
    pub fn begin_send(&mut self, phase: ServerTestPhase, line: &[u8])
        requires
            old(self).wf(),
            old(self)@.may_enter(phase),
            line@.len() <= BUFFER_SIZE,
        ensures
            final(self).wf(),
            final(self)@ == old(self)@.sending(phase, line@),
    {
        let staged = self.io.stage(line);
        self.measurement_state = phase;
    }

    /// Enters `phase` with nothing staged or received.
    pub fn begin(&mut self, phase: ServerTestPhase)
        requires
            old(self).wf(),
            old(self)@.may_enter(phase),
        ensures
            final(self).wf(),
            final(self)@ == old(self)@.entering(phase),
    {
        self.io.reset();
        self.measurement_state = phase;
    }

    /// Accounts for `written` bytes of the staged line and enters the
    /// receive phase `next` once the line is out.
    pub fn line_sent(&mut self, written: usize, next: ServerTestPhase) -> (r: Result<
        Progress,
        ProtocolError,
    >)
        requires
            old(self).wf(),
            old(self)@.may_enter(next),
        ensures
            final(self).wf(),
            r == old(self)@.sent_result(written as nat),
            final(self)@ == old(self)@.after_sent(written as nat, next),
    {
        match self.io.sent(written) {
            Ok(true) => {
                self.io.reset();
                self.measurement_state = next;
                Ok(Progress::Advanced)
            },
            Ok(false) => Ok(Progress::Pending),
            Err(e) => Err(e),
        }
    }

    /// Accounts for `written` bytes of a line that ends a command and stages
    /// the banner of admissible commands once the line is out.
    pub fn line_sent_accept(&mut self, written: usize) -> (r: Result<Progress, ProtocolError>)
        requires
            old(self).wf(),
        ensures
            final(self).wf(),
            r == old(self)@.sent_result(written as nat),
            final(self)@ == old(self)@.after_sent_accept(written as nat),
    {
        match self.io.sent(written) {
            Ok(true) => {
                let accept = text_bytes("ACCEPT GETCHUNKS GETTIME PUT PUTNORESULT PING QUIT\n");
                proof {
                    lemma_short_lines(0, 0, 0);
                }
                self.begin_send(ServerTestPhase::AcceptCommandSend, accept.as_slice());
                Ok(Progress::Advanced)
            },
            Ok(false) => Ok(Progress::Pending),
            Err(e) => Err(e),
        }
    }

    /// Refuses the line received so far for `error`: notes the error and
    /// stages the `ERR` line.
    pub fn refuse(&mut self, error: ProtocolError)
        requires
            old(self).wf(),
        ensures
            final(self).wf(),
            final(self)@ == old(self)@.refusing(error, old(self)@.io.received),
    {
        let line = self.io.line();
        let total: usize = line.len();
        let end: usize = if total > 0 && line[total - 1] == crate::wire::NEWLINE {
            total - 1
        } else {
            total
        };
        let cut: usize = if end > MAX_ECHO_LEN {
            MAX_ECHO_LEN
        } else {
            end
        };
        let echo = slice_subrange(line, 0, cut);
        assert(echo@ =~= echo_of(self@.io.received));
        let response = err_response(echo);
        proof {
            lemma_short_lines(0, 0, 0);
        }
        self.begin_send(ServerTestPhase::ErrorSend, response.as_slice());
        self.failure = Some(error);
    }
}

} // verus!
