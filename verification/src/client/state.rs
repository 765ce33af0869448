//! The state of one client connection and the moves that every phase shares.

use crate::channel::{Channel, ChannelView, BUFFER_SIZE};
use crate::chunk::{CONTINUE_FLAG, LAST_FLAG};
use crate::error::ProtocolError;
use crate::event::{Interest, Progress};
use crate::limits::is_pow2;
use vstd::prelude::*;

verus! {

/// Warm-up duration that the pre-download aims at, in nanoseconds.
pub const PRE_DOWNLOAD_DURATION_NS: u64 = 2_000_000_000;

/// Chunk count up to which a pre-download cycle grows before the chunk size
/// grows instead.
pub const MAX_CHUNKS_BEFORE_SIZE_INCREASE: u32 = 8;

/// Longest token that fits on a `TOKEN` line.
pub const MAX_TOKEN_LEN: usize = 8185;

/// The phases of a client connection, in the order a run passes them.
#[derive(Clone, Copy, Debug, PartialEq, Eq, Structural)]
pub enum TestPhase {
    GreetingSendUpgrade,
    GreetingReceiveVersion,
    GreetingSendToken,
    GreetingReceiveChunkSize,
    PingSendPing,
    PingReceivePong,
    PingSendOk,
    PingReceiveTime,
    PingCompleted,
    GetChunksSendChunksCommand,
    GetChunksReceiveChunk,
    GetChunksSendOk,
    GetChunksReceiveTime,
    GetChunksCompleted,
    GetTimeSendCommand,
    GetTimeReceiveChunk,
    GetTimeSendOk,
    GetTimeReceiveTime,
    GetTimeCompleted,
    PutSendCommand,
    PutReceiveOk,
    PutSendChunk,
    PutReceiveTime,
    PutCompleted,
    SignedResultSendCommand,
    SignedResultReceive,
    SignedResultSendOk,
    SignedResultCompleted,
    QuitSend,
    Finished,
}

/// The readiness that a phase waits for: send phases and the boundaries
/// between commands wait to write, receive phases wait to read.
pub open spec fn interest_of(phase: TestPhase) -> Interest {
    match phase {
        TestPhase::GreetingReceiveVersion
        | TestPhase::GreetingReceiveChunkSize
        | TestPhase::PingReceivePong
        | TestPhase::PingReceiveTime
        | TestPhase::GetChunksReceiveChunk
        | TestPhase::GetChunksReceiveTime
        | TestPhase::GetTimeReceiveChunk
        | TestPhase::GetTimeReceiveTime
        | TestPhase::PutReceiveOk
        | TestPhase::PutReceiveTime
        | TestPhase::SignedResultReceive => Interest::Readable,
        TestPhase::Finished => Interest::Closed,
        _ => Interest::Writable,
    }
}

/// What a run consists of.
#[derive(Clone, Copy, Debug, PartialEq, Eq, Structural)]
pub struct TestPlan {
    /// How many round trips the latency sampling takes.
    pub pings: u32,
    /// How long the timed download and the timed upload last, in seconds.
    pub duration_s: u64,
    /// Whether the upload asks the server for per-chunk sampling.
    pub sample_upload: bool,
    /// Whether the run ends by asking for the signed envelope.
    pub signed_result: bool,
}

/// The state of one client connection.
pub struct MeasurementState {
    /// Identifier of the connection at the poller.
    pub token: usize,
    pub io: Channel,
    pub phase: TestPhase,
    pub plan: TestPlan,
    /// The authorisation text presented on the `TOKEN` line.
    pub auth_token: Vec<u8>,
    /// Chunks asked for in the next pre-download cycle.
    pub total_chunks: u32,
    /// Clock reading at which the current timed phase or ping began.
    pub phase_start_time: Option<u64>,
    /// Payload bytes received since the timed download began.
    pub bytes_received: u64,
    /// `(elapsed_ns, bytes)` at every chunk boundary of the timed download.
    pub download_measurements: Vec<(u64, u64)>,
    /// The server's duration of the timed download.
    pub download_time: Option<u64>,
    /// Payload bytes sent since the timed upload began.
    pub bytes_sent: u64,
    /// `(elapsed_ns, bytes)` at every chunk boundary of the timed upload.
    pub upload_measurements: Vec<(u64, u64)>,
    /// The server's duration of the timed upload.
    pub upload_time: Option<u64>,
    /// Round-trip durations measured by this side, in nanoseconds.
    pub ping_samples: Vec<u64>,
    /// The server-signed summary line, once received.
    pub envelope: Option<Vec<u8>>,
}

/// The state of a client connection as contracts speak of it.
pub struct ClientView {
    pub token: usize,
    pub io: ChannelView,
    pub phase: TestPhase,
    pub plan: TestPlan,
    pub auth_token: Seq<u8>,
    pub total_chunks: u32,
    pub phase_start_time: Option<u64>,
    pub bytes_received: u64,
    pub download_measurements: Seq<(u64, u64)>,
    pub download_time: Option<u64>,
    pub bytes_sent: u64,
    pub upload_measurements: Seq<(u64, u64)>,
    pub upload_time: Option<u64>,
    pub ping_samples: Seq<u64>,
    pub envelope: Option<Seq<u8>>,
}

impl View for MeasurementState {
    type V = ClientView;

    open spec fn view(&self) -> ClientView {
        ClientView {
            token: self.token,
            io: self.io@,
            phase: self.phase,
            plan: self.plan,
            auth_token: self.auth_token@,
            total_chunks: self.total_chunks,
            phase_start_time: self.phase_start_time,
            bytes_received: self.bytes_received,
            download_measurements: self.download_measurements@,
            download_time: self.download_time,
            bytes_sent: self.bytes_sent,
            upload_measurements: self.upload_measurements@,
            upload_time: self.upload_time,
            ping_samples: self.ping_samples@,
            envelope: match self.envelope {
                Some(e) => Some(e@),
                None => None,
            },
        }
    }
}

impl ClientView {
    /// The chunk that is being sent ends in one of the two flags.
    pub open spec fn sealed(self) -> bool {
        self.io.chunk.last() == CONTINUE_FLAG || self.io.chunk.last() == LAST_FLAG
    }

    /// The phase `next` can be entered as the state is: the phase that
    /// streams the upload only with a sealed chunk.
    pub open spec fn may_enter(self, next: TestPhase) -> bool {
        next == TestPhase::PutSendChunk ==> self.sealed()
    }

    /// The state after `n` more bytes of the staged line were written, when
    /// the phase that follows the line is `next`: more than was pending
    /// changes nothing, the whole rest crosses into `next` with cleared
    /// buffers, less leaves the remainder pending.
    pub open spec fn after_sent(self, n: nat, next: TestPhase) -> ClientView {
        if n > self.io.pending.len() {
            self
        } else if n == self.io.pending.len() {
            ClientView { phase: next, io: self.io.cleared(), ..self }
        } else {
            ClientView { io: self.io.written(n), ..self }
        }
    }

    /// What a handler reports after `n` more bytes of the staged line were
    /// written.
    pub open spec fn sent_result(self, n: nat) -> Result<Progress, ProtocolError> {
        if n > self.io.pending.len() {
            Err(ProtocolError::Overrun)
        } else if n == self.io.pending.len() {
            Ok(Progress::Advanced)
        } else {
            Ok(Progress::Pending)
        }
    }

    /// The state on entering the send phase `phase` with `line` staged.
    pub open spec fn sending(self, phase: TestPhase, line: Seq<u8>) -> ClientView {
        ClientView { phase, io: self.io.staging(line), ..self }
    }

    /// The state on entering `phase` with nothing staged or received.
    pub open spec fn entering(self, phase: TestPhase) -> ClientView {
        ClientView { phase, io: self.io.cleared(), ..self }
    }

    /// The state with `data` appended to the line that is being received.
    pub open spec fn with_received(self, data: Seq<u8>) -> ClientView {
        ClientView { io: self.io.taking(data), ..self }
    }
}

impl MeasurementState {
    /// The buffers are well formed, the chunk count of the pre-download is a
    /// power of two up to its ceiling, the token fits on its line, and while
    /// the upload streams, the chunk that is being sent ends in one of the
    /// two flags.
    pub open spec fn wf(&self) -> bool {
        &&& self.io.wf()
        &&& is_pow2(self.total_chunks as int)
        &&& 1 <= self.total_chunks <= MAX_CHUNKS_BEFORE_SIZE_INCREASE
        &&& self.auth_token@.len() <= MAX_TOKEN_LEN
        &&& self.phase == TestPhase::PutSendChunk ==> self@.sealed()
    }

    /// The chunk size that the connection currently moves.
    pub open spec fn spec_chunk_size(&self) -> nat {
        self.io@.chunk.len()
    }

    /// The chunk size that the connection currently moves.
    pub fn chunk_size(&self) -> (r: usize)
        ensures
            r == self.spec_chunk_size(),
    {
        self.io.chunk_size()
    }

    /// The readiness that the connection waits for.
    pub fn interest(&self) -> (r: Interest)
        ensures
            r == interest_of(self.phase),
    {
        match self.phase {
            TestPhase::GreetingReceiveVersion
            | TestPhase::GreetingReceiveChunkSize
            | TestPhase::PingReceivePong
            | TestPhase::PingReceiveTime
            | TestPhase::GetChunksReceiveChunk
            | TestPhase::GetChunksReceiveTime
            | TestPhase::GetTimeReceiveChunk
            | TestPhase::GetTimeReceiveTime
            | TestPhase::PutReceiveOk
            | TestPhase::PutReceiveTime
            | TestPhase::SignedResultReceive => Interest::Readable,
            TestPhase::Finished => Interest::Closed,
            _ => Interest::Writable,
        }
    }

    /// What the connection has to write next: the rest of the current chunk
    /// while the upload streams, else the rest of the staged line.
    pub fn outgoing(&self) -> (r: &[u8])
        requires
            self.wf(),
        ensures
            r@ == if self.phase == TestPhase::PutSendChunk {
                self@.io.chunk_pending()
            } else {
                self@.io.pending
            },
    {
        match self.phase {
            TestPhase::PutSendChunk => self.io.chunk_outgoing(),
            _ => self.io.outgoing(),
        }
    }

    /// How many bytes the next read may deliver at most: the rest of the
    /// current chunk while chunks arrive, else the room in the line buffer.
    pub fn read_room(&self) -> (r: usize)
        requires
            self.wf(),
        ensures
            r == if self.phase == TestPhase::GetChunksReceiveChunk || self.phase
                == TestPhase::GetTimeReceiveChunk {
                self@.io.chunk.len() - self@.io.chunk_pos
            } else {
                BUFFER_SIZE - self@.io.received.len()
            },
    {
        match self.phase {
            TestPhase::GetChunksReceiveChunk | TestPhase::GetTimeReceiveChunk => {
                self.io.chunk_room()
            },
            _ => self.io.line_room(),
        }
    }

    /// Accounts for `written` bytes of the staged line and crosses into
    /// `next` once the line is out.
    pub fn line_sent(&mut self, written: usize, next: TestPhase) -> (r: Result<
        Progress,
        ProtocolError,
    >)
        requires
            old(self).wf(),
            old(self)@.may_enter(next),
        ensures
            final(self).wf(),
            r == old(self)@.sent_result(written as nat),
            final(self)@ == old(self)@.after_sent(written as nat, next),
    {
        match self.io.sent(written) {
            Ok(true) => {
                self.io.reset();
                self.phase = next;
                Ok(Progress::Advanced)
            },
            Ok(false) => Ok(Progress::Pending),
            Err(e) => Err(e),
        }
    }

    /// Enters the send phase `phase` with `line` staged.
    pub fn begin_send(&mut self, phase: TestPhase, line: &[u8])
        requires
            old(self).wf(),
            old(self)@.may_enter(phase),
            line@.len() <= BUFFER_SIZE,
        ensures
            final(self).wf(),
            final(self)@ == old(self)@.sending(phase, line@),
    {
        let staged = self.io.stage(line);
        self.phase = phase;
    }

    /// Enters `phase` with nothing staged or received.
    pub fn begin(&mut self, phase: TestPhase)
        requires
            old(self).wf(),
            old(self)@.may_enter(phase),
        ensures
            final(self).wf(),
            final(self)@ == old(self)@.entering(phase),
    {
        self.io.reset();
        self.phase = phase;
    }
}

} // verus!
