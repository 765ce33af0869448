//! Creating a server connection and dispatching readiness events to the
//! handler of its phase.

use crate::channel::{Channel, ChannelView};
use crate::error::ProtocolError;
use crate::event::Progress;
use crate::limits::CHUNK_SIZE;
use crate::server::command::{handle_accept_command_receive, handle_accept_command_send};
use crate::server::greeting::{
    greeting, greeting_lines, handle_greeting_receive_token, handle_greeting_send_chunk_size,
    handle_greeting_send_version, lemma_greeting_fits,
};
use crate::server::signed_result::{
    handle_signed_result, handle_signed_result_receive_ok, signed_result_outcome,
};
use crate::server::state::{ServerStep, ServerTestPhase, ServerView, TestState};
use crate::server::transfer::{
    handle_error_send, handle_get_chunks_receive_ok, handle_get_chunks_send_chunk,
    handle_get_time_receive_ok, handle_get_time_send_chunk, handle_ping_receive_ok,
    handle_ping_send_pong, handle_put_receive_chunk, handle_put_send_ok, handle_send_time,
};
use vstd::prelude::*;

verus! {

impl ServerView {
    /// A connection fresh from the greeting upgrade: the greeting staged,
    /// chunks of the default size, nothing measured.
    pub open spec fn initial(
        token: usize,
        now: u64,
        version: Option<u8>,
        client_addr: Seq<u8>,
        sig_key: Option<Seq<u8>>,
    ) -> ServerView {
        ServerView {
            token,
            connection_start: now,
            io: ChannelView {
                received: Seq::empty(),
                pending: greeting_lines(version),
                chunk: Seq::new(CHUNK_SIZE as nat, |i: int| 0u8),
                chunk_pos: 0,
                read_pos: 0,
                write_pos: 0,
                write_len: greeting_lines(version).len(),
            },
            phase: ServerTestPhase::GreetingSendVersion,
            version,
            num_chunks: 0,
            processed_chunks: 0,
            cycle_bytes: 0,
            clock: None,
            duration: 0,
            download_bytes: 0,
            download_time_ns: None,
            upload_bytes: 0,
            upload_time_ns: None,
            sample_upload: false,
            bytes_received: Seq::empty(),
            client_addr,
            sig_key,
            loop_iteration_count: 0,
            failure: None,
        }
    }

    /// What a writable event does in each phase, `n` being the bytes that
    /// were written of what the connection had to write and `now` the clock
    /// reading. The envelope phase is not covered: its key may be generated
    /// on the spot. In a phase that receives, and on a closed connection, the
    /// event is refused.
    pub open spec fn on_writable(self, n: nat, now: u64) -> ServerStep {
        match self.phase {
            ServerTestPhase::GreetingSendVersion => (
                self.after_sent(n, ServerTestPhase::GreetingReceiveToken),
                self.sent_result(n),
            ),
            ServerTestPhase::GreetingSendChunkSize
            | ServerTestPhase::PingSendTime
            | ServerTestPhase::GetChunksSendTime
            | ServerTestPhase::GetTimeSendTime
            | ServerTestPhase::PutSendTime => (self.after_sent_accept(n), self.sent_result(n)),
            ServerTestPhase::AcceptCommandSend => (
                self.after_sent(n, ServerTestPhase::AcceptCommandReceive),
                self.sent_result(n),
            ),
            ServerTestPhase::PingSendPong => (
                self.after_sent(n, ServerTestPhase::PingReceiveOk),
                self.sent_result(n),
            ),
            ServerTestPhase::GetChunksSendChunk => self.get_chunks_send_chunk(n),
            ServerTestPhase::GetTimeSendChunk => self.get_time_send_chunk(n, now),
            ServerTestPhase::PutSendOk => (self.put_send_ok(n, now), self.sent_result(n)),
            ServerTestPhase::ErrorSend => (
                self.after_sent(n, ServerTestPhase::Closed),
                self.sent_result(n),
            ),
            _ => (self, Err(ProtocolError::WrongPhase)),
        }
    }

    /// What a readable event does in each phase, `data` being the bytes
    /// that were read and `now` the clock reading. An empty read is the end
    /// of the stream, which no phase expects. In a phase that sends, and on a
    /// closed connection, the event is refused.
    pub open spec fn on_readable(self, data: Seq<u8>, now: u64) -> ServerStep {
        if data.len() == 0 {
            (self, Err(ProtocolError::UnexpectedEof))
        } else {
            match self.phase {
                ServerTestPhase::GreetingReceiveToken => self.greeting_receive_token(data),
                ServerTestPhase::AcceptCommandReceive => self.accept_command_receive(data, now),
                ServerTestPhase::PingReceiveOk => self.acknowledged(
                    data,
                    now,
                    ServerTestPhase::PingSendTime,
                ),
                ServerTestPhase::GetChunksReceiveOk => self.acknowledged(
                    data,
                    now,
                    ServerTestPhase::GetChunksSendTime,
                ),
                ServerTestPhase::GetTimeReceiveOk => self.get_time_receive_ok(data, now),
                ServerTestPhase::PutReceiveChunk => self.put_receive_chunk(data, now),
                ServerTestPhase::SignedResultReceiveOk => self.signed_result_receive_ok(data),
                _ => (self, Err(ProtocolError::WrongPhase)),
            }
        }
    }
}

impl TestState {
    /// A connection fresh from the greeting upgrade, taken up at clock
    /// reading `now` under the poller identifier `token`.
    pub fn new(
        token: usize,
        now: u64,
        version: Option<u8>,
        client_addr: Vec<u8>,
        sig_key: Option<Vec<u8>>,
    ) -> (r: TestState)
        ensures
            r.wf(),
            r@ == ServerView::initial(
                token,
                now,
                version,
                client_addr@,
                match sig_key {
                    Some(k) => Some(k@),
                    None => None,
                },
            ),
    {
        let mut state = TestState {
            token,
            connection_start: now,
            io: Channel::new(),
            measurement_state: ServerTestPhase::GreetingSendVersion,
            version,
            num_chunks: 0,
            processed_chunks: 0,
            cycle_bytes: 0,
            clock: None,
            duration: 0,
            download_bytes: 0,
            download_time_ns: None,
            upload_bytes: 0,
            upload_time_ns: None,
            sample_upload: false,
            bytes_received: Vec::new(),
            client_addr,
            sig_key,
            loop_iteration_count: 0,
            failure: None,
        };
        let banner = greeting(version);
        proof {
            lemma_greeting_fits(version);
            assert(state.processed_chunks * state.io@.chunk.len() == 0) by (nonlinear_arith)
                requires
                    state.processed_chunks == 0,
            ;
        }
        state.begin_send(ServerTestPhase::GreetingSendVersion, banner.as_slice());
        state
    }
}

/// Handles a writable event: `written` bytes of `state.outgoing()` went out
/// at clock reading `now`.
pub fn handle_client_writable_data(state: &mut TestState, written: usize, now: u64) -> (r: Result<
    Progress,
    ProtocolError,
>)
    requires
        old(state).wf(),
    ensures
        final(state).wf(),
        old(state).measurement_state != ServerTestPhase::SignedResultSend ==> (final(state)@, r)
            == old(state)@.on_writable(written as nat, now),
        old(state).measurement_state == ServerTestPhase::SignedResultSend
            ==> signed_result_outcome(old(state)@, written as nat, now, final(state)@, r),
{
    match state.measurement_state {
        ServerTestPhase::GreetingSendVersion => handle_greeting_send_version(state, written),
        ServerTestPhase::GreetingSendChunkSize => handle_greeting_send_chunk_size(state, written),
        ServerTestPhase::PingSendTime
        | ServerTestPhase::GetChunksSendTime
        | ServerTestPhase::GetTimeSendTime
        | ServerTestPhase::PutSendTime => handle_send_time(state, written),
        ServerTestPhase::AcceptCommandSend => handle_accept_command_send(state, written),
        ServerTestPhase::PingSendPong => handle_ping_send_pong(state, written),
        ServerTestPhase::GetChunksSendChunk => handle_get_chunks_send_chunk(state, written),
        ServerTestPhase::GetTimeSendChunk => handle_get_time_send_chunk(state, written, now),
        ServerTestPhase::PutSendOk => handle_put_send_ok(state, written, now),
        ServerTestPhase::SignedResultSend => handle_signed_result(state, written, now),
        ServerTestPhase::ErrorSend => handle_error_send(state, written),
        _ => Err(ProtocolError::WrongPhase),
    }
}

/// Handles a readable event: `data` was read at clock reading `now`.
pub fn handle_client_readable_data(state: &mut TestState, data: &[u8], now: u64) -> (r: Result<
    Progress,
    ProtocolError,
>)
    requires
        old(state).wf(),
    ensures
        final(state).wf(),
        (final(state)@, r) == old(state)@.on_readable(data@, now),
{
    if data.len() == 0 {
        return Err(ProtocolError::UnexpectedEof);
    }
    match state.measurement_state {
        ServerTestPhase::GreetingReceiveToken => handle_greeting_receive_token(state, data),
        ServerTestPhase::AcceptCommandReceive => handle_accept_command_receive(state, data, now),
        ServerTestPhase::PingReceiveOk => handle_ping_receive_ok(state, data, now),
        ServerTestPhase::GetChunksReceiveOk => handle_get_chunks_receive_ok(state, data, now),
        ServerTestPhase::GetTimeReceiveOk => handle_get_time_receive_ok(state, data, now),
        ServerTestPhase::PutReceiveChunk => handle_put_receive_chunk(state, data, now),
        ServerTestPhase::SignedResultReceiveOk => handle_signed_result_receive_ok(state, data),
        _ => Err(ProtocolError::WrongPhase),
    }
}

} // verus!
