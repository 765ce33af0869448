//! Creating a client connection and dispatching readiness events to the
//! handler of its phase.

use crate::channel::{Channel, ChannelView};
use crate::client::get_chunks::{
    handle_get_chunks_receive_chunk, handle_get_chunks_receive_time,
    handle_get_chunks_send_chunks_command, handle_get_chunks_send_ok, Step,
};
use crate::client::get_time::{
    handle_get_time_receive_chunk, handle_get_time_receive_time, handle_get_time_send_command,
    handle_get_time_send_ok,
};
use crate::client::greeting::{
    handle_greeting_receive_chunk_size, handle_greeting_receive_version,
    handle_greeting_send_token, handle_greeting_send_upgrade,
};
use crate::client::ping::{
    handle_ping_receive_pong, handle_ping_receive_time, handle_ping_send_ok, handle_ping_send_ping,
};
use crate::client::put::{
    handle_put_receive_ok, handle_put_receive_time, handle_put_send_chunk, handle_put_send_command,
};
use crate::client::signed_result::{
    handle_signed_result_command, handle_signed_result_receive, handle_signed_result_send_ok,
};
use crate::client::state::{ClientView, MeasurementState, TestPhase, TestPlan, MAX_TOKEN_LEN};
use crate::error::ProtocolError;
use crate::event::Progress;
use crate::limits::CHUNK_SIZE;
use crate::wire::{
    get_chunks_command, get_time_command, lemma_short_lines, put_command, put_no_result_command,
    quit_line, signed_result_line, text_bytes, upgrade_request,
};
use vstd::prelude::*;
use vstd::string::*;

verus! {

impl ClientView {
    /// A fresh connection: the upgrade request staged, one chunk of the
    /// default size per pre-download cycle, nothing measured.
    pub open spec fn initial(token: usize, auth_token: Seq<u8>, plan: TestPlan) -> ClientView {
        ClientView {
            token,
            io: ChannelView {
                received: Seq::empty(),
                pending: upgrade_request(),
                chunk: Seq::new(CHUNK_SIZE as nat, |i: int| 0u8),
                chunk_pos: 0,
                read_pos: 0,
                write_pos: 0,
                write_len: upgrade_request().len(),
            },
            phase: TestPhase::GreetingSendUpgrade,
            plan,
            auth_token,
            total_chunks: 1,
            phase_start_time: None,
            bytes_received: 0,
            download_measurements: Seq::empty(),
            download_time: None,
            bytes_sent: 0,
            upload_measurements: Seq::empty(),
            upload_time: None,
            ping_samples: Seq::empty(),
            envelope: None,
        }
    }

    /// The state on leaving the boundary behind a completed command: the
    /// request of the command that the run's fixed order puts next is
    /// staged. The envelope is asked for only where the plan says so.
    pub open spec fn next_command(self) -> ClientView {
        match self.phase {
            TestPhase::PingCompleted => self.sending(
                TestPhase::GetChunksSendChunksCommand,
                self.get_chunks_request(),
            ),
            TestPhase::GetChunksCompleted => self.sending(
                TestPhase::GetTimeSendCommand,
                self.get_time_request(),
            ),
            TestPhase::GetTimeCompleted => self.sending(
                TestPhase::PutSendCommand,
                self.put_request(),
            ),
            TestPhase::PutCompleted => if self.plan.signed_result {
                self.sending(TestPhase::SignedResultSendCommand, signed_result_line())
            } else {
                self.sending(TestPhase::QuitSend, quit_line())
            },
            TestPhase::SignedResultCompleted => self.sending(TestPhase::QuitSend, quit_line()),
            _ => self,
        }
    }

    /// The phase is the boundary behind a completed command.
    pub open spec fn at_boundary(self) -> bool {
        self.phase == TestPhase::PingCompleted || self.phase == TestPhase::GetChunksCompleted
            || self.phase == TestPhase::GetTimeCompleted || self.phase == TestPhase::PutCompleted
            || self.phase == TestPhase::SignedResultCompleted
    }

    /// What a writable event does in each phase, `n` being the bytes that
    /// were written of what the connection had to write and `now` the clock
    /// reading. At a boundary nothing is pending and the next command is
    /// staged; in a phase that receives, and when the run is finished, the
    /// event is refused.
    pub open spec fn on_writable(self, n: nat, now: u64) -> Step {
        match self.phase {
            TestPhase::GreetingSendUpgrade => (
                self.after_sent(n, TestPhase::GreetingReceiveVersion),
                self.sent_result(n),
            ),
            TestPhase::GreetingSendToken => (
                self.after_sent(n, TestPhase::GreetingReceiveChunkSize),
                self.sent_result(n),
            ),
            TestPhase::PingSendPing => (self.ping_send_ping(n, now), self.sent_result(n)),
            TestPhase::PingSendOk => (
                self.after_sent(n, TestPhase::PingReceiveTime),
                self.sent_result(n),
            ),
            TestPhase::GetChunksSendChunksCommand => (
                self.after_sent(n, TestPhase::GetChunksReceiveChunk),
                self.sent_result(n),
            ),
            TestPhase::GetChunksSendOk => (
                self.after_sent(n, TestPhase::GetChunksReceiveTime),
                self.sent_result(n),
            ),
            TestPhase::GetTimeSendCommand => (
                self.get_time_send_command(n, now),
                self.sent_result(n),
            ),
            TestPhase::GetTimeSendOk => (
                self.after_sent(n, TestPhase::GetTimeReceiveTime),
                self.sent_result(n),
            ),
            TestPhase::PutSendCommand => (
                self.after_sent(n, TestPhase::PutReceiveOk),
                self.sent_result(n),
            ),
            TestPhase::PutSendChunk => self.put_send_chunk(n, now),
            TestPhase::SignedResultSendCommand => (
                self.after_sent(n, TestPhase::SignedResultReceive),
                self.sent_result(n),
            ),
            TestPhase::SignedResultSendOk => (
                self.after_sent(n, TestPhase::SignedResultCompleted),
                self.sent_result(n),
            ),
            TestPhase::QuitSend => (self.after_sent(n, TestPhase::Finished), self.sent_result(n)),
            TestPhase::PingCompleted
            | TestPhase::GetChunksCompleted
            | TestPhase::GetTimeCompleted
            | TestPhase::PutCompleted
            | TestPhase::SignedResultCompleted => if n > 0 {
                (self, Err(ProtocolError::Overrun))
            } else {
                (self.next_command(), Ok(Progress::Advanced))
            },
            _ => (self, Err(ProtocolError::WrongPhase)),
        }
    }

    /// What a readable event does in each phase, `data` being the bytes
    /// that were read and `now` the clock reading. An empty read is the end
    /// of the stream, which no phase expects. In a phase that sends, and when
    /// the run is finished, the event is refused.
    pub open spec fn on_readable(self, data: Seq<u8>, now: u64) -> Step {
        if data.len() == 0 {
            (self, Err(ProtocolError::UnexpectedEof))
        } else {
            self.phase_readable(data, now)
        }
    }

    /// What a readable event with data does in each phase.
    pub open spec fn phase_readable(self, data: Seq<u8>, now: u64) -> Step {
        match self.phase {
            TestPhase::GreetingReceiveVersion => self.greeting_receive_version(data),
            TestPhase::GreetingReceiveChunkSize => self.greeting_receive_chunk_size(data),
            TestPhase::PingReceivePong => self.ping_receive_pong(data, now),
            TestPhase::PingReceiveTime => self.ping_receive_time(data),
            TestPhase::GetChunksReceiveChunk => self.get_chunks_receive_chunk(data),
            TestPhase::GetChunksReceiveTime => self.get_chunks_receive_time(data),
            TestPhase::GetTimeReceiveChunk => self.get_time_receive_chunk(data, now),
            TestPhase::GetTimeReceiveTime => self.get_time_receive_time(data),
            TestPhase::PutReceiveOk => self.put_receive_ok(data, now),
            TestPhase::PutReceiveTime => self.put_receive_time(data),
            TestPhase::SignedResultReceive => self.signed_result_receive(data),
            _ => (self, Err(ProtocolError::WrongPhase)),
        }
    }
}

impl MeasurementState {
    /// A fresh connection with the poller identifier `token`, presenting
    /// `auth_token` and running `plan`. A token too long for its line is
    /// refused.
    pub fn new(token: usize, auth_token: Vec<u8>, plan: TestPlan) -> (r: Result<
        MeasurementState,
        ProtocolError,
    >)
        ensures
            match r {
                Ok(state) => auth_token@.len() <= MAX_TOKEN_LEN && state.wf() && state@
                    == ClientView::initial(token, auth_token@, plan),
                Err(e) => auth_token@.len() > MAX_TOKEN_LEN && e == ProtocolError::BadToken,
            },
    {
        if auth_token.len() > MAX_TOKEN_LEN {
            return Err(ProtocolError::BadToken);
        }
        let mut state = MeasurementState {
            token,
            io: Channel::new(),
            phase: TestPhase::GreetingSendUpgrade,
            plan,
            auth_token,
            total_chunks: 1,
            phase_start_time: None,
            bytes_received: 0,
            download_measurements: Vec::new(),
            download_time: None,
            bytes_sent: 0,
            upload_measurements: Vec::new(),
            upload_time: None,
            ping_samples: Vec::new(),
            envelope: None,
        };
        proof {
            crate::limits::lemma_small_pow2(1);
            lemma_short_lines(0, 0, 0);
        }
        let request = text_bytes(
            "GET /rmbt HTTP/1.1 \r\nConnection: Upgrade \r\nUpgrade: RMBT\r\nRMBT-Version: 1.2.0\r\n\r\n",
        );
        state.begin_send(TestPhase::GreetingSendUpgrade, request.as_slice());
        Ok(state)
    }

    /// Leaves the boundary behind a completed command by staging the next
    /// command of the run.
    pub fn advance(&mut self)
        requires
            old(self).wf(),
        ensures
            final(self).wf(),
            final(self)@ == old(self)@.next_command(),
    {
        proof {
            lemma_short_lines(
                self.total_chunks as nat,
                self.io@.chunk.len(),
                self.plan.duration_s as nat,
            );
            lemma_short_lines(self.io@.chunk.len(), 0, 0);
            lemma_short_lines(self.plan.duration_s as nat, self.io@.chunk.len(), 0);
        }
        match self.phase {
            TestPhase::PingCompleted => {
                let line = get_chunks_command(self.total_chunks, self.io.chunk_size());
                self.begin_send(TestPhase::GetChunksSendChunksCommand, line.as_slice());
            },
            TestPhase::GetChunksCompleted => {
                let line = get_time_command(self.plan.duration_s, self.io.chunk_size());
                self.begin_send(TestPhase::GetTimeSendCommand, line.as_slice());
            },
            TestPhase::GetTimeCompleted => {
                let line = if self.plan.sample_upload {
                    put_command(self.io.chunk_size())
                } else {
                    put_no_result_command(self.io.chunk_size())
                };
                self.begin_send(TestPhase::PutSendCommand, line.as_slice());
            },
            TestPhase::PutCompleted => {
                if self.plan.signed_result {
                    let line = text_bytes("SIGNEDRESULT\n");
                    self.begin_send(TestPhase::SignedResultSendCommand, line.as_slice());
                } else {
                    let line = text_bytes("QUIT\n");
                    self.begin_send(TestPhase::QuitSend, line.as_slice());
                }
            },
            TestPhase::SignedResultCompleted => {
                let line = text_bytes("QUIT\n");
                self.begin_send(TestPhase::QuitSend, line.as_slice());
            },
            _ => {},
        }
    }
}

/// Handles the progress of writing `QUIT`; once it is out the run is
/// finished.
pub fn handle_quit_send(state: &mut MeasurementState, written: usize) -> (r: Result<
    Progress,
    ProtocolError,
>)
    requires
        old(state).wf(),
    ensures
        final(state).wf(),
        r == old(state)@.sent_result(written as nat),
        final(state)@ == old(state)@.after_sent(written as nat, TestPhase::Finished),
{
    state.line_sent(written, TestPhase::Finished)
}

/// Handles a writable event: `written` bytes of `state.outgoing()` went out
/// at clock reading `now`.
pub fn handle_writable(state: &mut MeasurementState, written: usize, now: u64) -> (r: Result<
    Progress,
    ProtocolError,
>)
    requires
        old(state).wf(),
    ensures
        final(state).wf(),
        (final(state)@, r) == old(state)@.on_writable(written as nat, now),
{
    match state.phase {
        TestPhase::GreetingSendUpgrade => handle_greeting_send_upgrade(state, written),
        TestPhase::GreetingSendToken => handle_greeting_send_token(state, written),
        TestPhase::PingSendPing => handle_ping_send_ping(state, written, now),
        TestPhase::PingSendOk => handle_ping_send_ok(state, written),
        TestPhase::GetChunksSendChunksCommand => handle_get_chunks_send_chunks_command(
            state,
            written,
        ),
        TestPhase::GetChunksSendOk => handle_get_chunks_send_ok(state, written),
        TestPhase::GetTimeSendCommand => handle_get_time_send_command(state, written, now),
        TestPhase::GetTimeSendOk => handle_get_time_send_ok(state, written),
        TestPhase::PutSendCommand => handle_put_send_command(state, written),
        TestPhase::PutSendChunk => handle_put_send_chunk(state, written, now),
        TestPhase::SignedResultSendCommand => handle_signed_result_command(state, written),
        TestPhase::SignedResultSendOk => handle_signed_result_send_ok(state, written),
        TestPhase::QuitSend => handle_quit_send(state, written),
        TestPhase::PingCompleted
        | TestPhase::GetChunksCompleted
        | TestPhase::GetTimeCompleted
        | TestPhase::PutCompleted
        | TestPhase::SignedResultCompleted => {
            if written > 0 {
                Err(ProtocolError::Overrun)
            } else {
                state.advance();
                Ok(Progress::Advanced)
            }
        },
        _ => Err(ProtocolError::WrongPhase),
    }
}

/// Handles a readable event: `data` was read at clock reading `now`.
pub fn handle_readable(state: &mut MeasurementState, data: &[u8], now: u64) -> (r: Result<
    Progress,
    ProtocolError,
>)
    requires
        old(state).wf(),
    ensures
        final(state).wf(),
        (final(state)@, r) == old(state)@.on_readable(data@, now),
{
    if data.len() == 0 {
        return Err(ProtocolError::UnexpectedEof);
    }
    match state.phase {
        TestPhase::GreetingReceiveVersion => handle_greeting_receive_version(state, data),
        TestPhase::GreetingReceiveChunkSize => handle_greeting_receive_chunk_size(state, data),
        TestPhase::PingReceivePong => handle_ping_receive_pong(state, data, now),
        TestPhase::PingReceiveTime => handle_ping_receive_time(state, data),
        TestPhase::GetChunksReceiveChunk => handle_get_chunks_receive_chunk(state, data),
        TestPhase::GetChunksReceiveTime => handle_get_chunks_receive_time(state, data),
        TestPhase::GetTimeReceiveChunk => handle_get_time_receive_chunk(state, data, now),
        TestPhase::GetTimeReceiveTime => handle_get_time_receive_time(state, data),
        TestPhase::PutReceiveOk => handle_put_receive_ok(state, data, now),
        TestPhase::PutReceiveTime => handle_put_receive_time(state, data),
        TestPhase::SignedResultReceive => handle_signed_result_receive(state, data),
        _ => Err(ProtocolError::WrongPhase),
    }
}

} // verus!
