//! What holds of every server connection, whatever the client and the
//! clock do.

use crate::channel::BUFFER_SIZE;
use crate::chunk::{flag_of, timed_terminator, CONTINUE_FLAG, LAST_FLAG};
use crate::client::signed_result::is_line;
use crate::error::ProtocolError;
use crate::event::{Progress, NANOS_PER_SECOND};
use crate::limits::{valid_chunk_size, MAX_CHUNK_SIZE, MIN_CHUNK_SIZE};
use crate::server::state::{echo_of, sends_chunks, ServerTestPhase, ServerView};
use crate::wire::{
    command_of, err_line, get_chunks_line, lemma_get_chunks_round_trip, lemma_short_lines,
    lemma_size_out_of_bounds, ok_line, time_line, Command,
};
use vstd::prelude::*;
use vstd::string::*;

verus! {

/// `OK` is a complete line.
pub proof fn lemma_ok_is_line()
    ensures
        is_line(ok_line()),
        ok_line().len() == 3,
{
    broadcast use is_ascii_spec_bytes;

    reveal_strlit("OK\n");
    assert(is_ascii("OK\n"));
}

/// Every chunk that a server connection sends ends in 0x00 or in 0xFF,
/// in the counted cycle and in the timed one.
pub proof fn lemma_chunks_are_sealed(state: ServerView)
    requires
        state.cycle_ok(),
        sends_chunks(state.phase),
    ensures
        state.io.chunk.last() == CONTINUE_FLAG || state.io.chunk.last() == LAST_FLAG,
        (state.io.chunk.last() == CONTINUE_FLAG) != (state.io.chunk.last() == LAST_FLAG),
{
}

/// A request whose chunk size lies outside the bounds is answered with
/// `ERR`, echoing the request, and the connection is on its way to being
/// closed.
pub proof fn lemma_bad_size_refused(before: ServerView, line: Seq<u8>, now: u64)
    requires
        before.io.received.len() == 0,
        is_line(line),
        line.len() <= BUFFER_SIZE,
        command_of(line.drop_last()) == Err::<Command, ProtocolError>(ProtocolError::ChunkSize),
    ensures
        before.accept_command_receive(line, now).1 == Ok::<Progress, ProtocolError>(
            Progress::Advanced,
        ),
        before.accept_command_receive(line, now).0.phase == ServerTestPhase::ErrorSend,
        before.accept_command_receive(line, now).0.io.pending == err_line(echo_of(line)),
        before.accept_command_receive(line, now).0.failure == Some(ProtocolError::ChunkSize),
        before.accept_command_receive(line, now).0.on_writable(
            err_line(echo_of(line)).len(),
            now,
        ).0.phase == ServerTestPhase::Closed,
{
    assert(before.io.received + line =~= line);
}

/// A `GETCHUNKS` request as a client writes it, for chunks smaller than
/// the smallest or larger than the largest, is answered with `ERR`.
pub proof fn lemma_get_chunks_out_of_bounds(
    before: ServerView,
    chunks: u32,
    size: u64,
    now: u64,
)
    requires
        before.io.received.len() == 0,
        chunks >= 1,
        size < MIN_CHUNK_SIZE || size > MAX_CHUNK_SIZE,
    ensures
        before.accept_command_receive(get_chunks_line(chunks as nat, size as nat), now).0.phase
            == ServerTestPhase::ErrorSend,
        before.accept_command_receive(
            get_chunks_line(chunks as nat, size as nat),
            now,
        ).0.failure == Some(ProtocolError::ChunkSize),
{
    let line = get_chunks_line(chunks as nat, size as nat);
    lemma_get_chunks_round_trip(chunks as u64, size);
    lemma_size_out_of_bounds(size);
    lemma_short_lines(chunks as nat, size as nat, 0);
    assert(is_line(line));
    lemma_bad_size_refused(before, line, now);
}

/// An upload request is answered with `OK`, and no chunk is taken before
/// the `OK` is out: a readable event is refused until then, and the phase
/// that receives chunks is entered by the write that completes the `OK`.
pub proof fn lemma_put_answered_first(
    before: ServerView,
    line: Seq<u8>,
    now: u64,
    data: Seq<u8>,
    written: nat,
    later: u64,
)
    requires
        before.io.received.len() == 0,
        is_line(line),
        line.len() <= BUFFER_SIZE,
        command_of(line.drop_last()) matches Ok(c) && (c matches Command::Put { .. } || c matches Command::PutNoResult {
            ..
        }),
        data.len() > 0,
    ensures
        ({
            let answering = before.accept_command_receive(line, now).0;
            &&& before.accept_command_receive(line, now).1 == Ok::<Progress, ProtocolError>(
                Progress::Advanced,
            )
            &&& answering.phase == ServerTestPhase::PutSendOk
            &&& answering.io.pending == ok_line()
            &&& answering.on_readable(data, later) == (
                answering,
                Err::<Progress, ProtocolError>(ProtocolError::WrongPhase),
            )
            &&& written < ok_line().len() ==> answering.on_writable(written, later).0.phase
                == ServerTestPhase::PutSendOk
            &&& written == ok_line().len() ==> answering.on_writable(written, later).0.phase
                == ServerTestPhase::PutReceiveChunk
        }),
{
    assert(before.io.received + line =~= line);
    lemma_ok_is_line();
}

/// When a pre-download cycle is acknowledged, exactly the requested number
/// of chunks of the requested size has been delivered, and the `OK` is
/// answered with the time since the request; on a clock that has advanced
/// since, that time is positive.
pub proof fn lemma_get_chunks_delivered(state: ServerView, start: u64, now: u64)
    requires
        state.cycle_ok(),
        state.phase == ServerTestPhase::GetChunksReceiveOk,
        state.io.received.len() == 0,
        state.clock == Some(start),
        now > start,
    ensures
        state.cycle_bytes == state.num_chunks * state.io.chunk.len(),
        state.acknowledged(ok_line(), now, ServerTestPhase::GetChunksSendTime).1 == Ok::<
            Progress,
            ProtocolError,
        >(Progress::Advanced),
        state.acknowledged(ok_line(), now, ServerTestPhase::GetChunksSendTime).0.io.pending
            == time_line((now - start) as nat),
        now - start > 0,
{
    lemma_ok_is_line();
    assert(state.io.received + ok_line() =~= ok_line());
}

/// Taking up a `GETCHUNKS` request starts a cycle of the requested number
/// of chunks of the requested size with nothing delivered yet, and every
/// chunk written out whole is counted once, until the last one turns the
/// connection round.
pub proof fn lemma_get_chunks_counts(state: ServerView, chunks: u32, chunk_size: usize, now: u64)
    requires
        chunks >= 1,
        valid_chunk_size(chunk_size as int),
    ensures
        ({
            let begun = state.starting(Command::GetChunks { chunks, chunk_size }, now);
            &&& begun.phase == ServerTestPhase::GetChunksSendChunk
            &&& begun.num_chunks == chunks
            &&& begun.io.chunk.len() == chunk_size
            &&& begun.processed_chunks == 0
            &&& begun.cycle_bytes == 0
            &&& begun.cycle_ok()
        }),
        forall|s: ServerView|
            #![trigger s.get_chunks_send_chunk(s.io.chunk_pending().len())]
            s.cycle_ok() && s.phase == ServerTestPhase::GetChunksSendChunk && valid_chunk_size(
                s.io.chunk.len() as int,
            ) && s.io.chunk_pos < s.io.chunk.len() ==> {
                let next = s.get_chunks_send_chunk(s.io.chunk_pending().len()).0;
                &&& next.cycle_ok()
                &&& next.num_chunks == s.num_chunks
                &&& next.io.chunk.len() == s.io.chunk.len()
                &&& next.processed_chunks == s.processed_chunks + 1
                &&& next.phase == if s.processed_chunks + 1 == s.num_chunks {
                    ServerTestPhase::GetChunksReceiveOk
                } else {
                    ServerTestPhase::GetChunksSendChunk
                }
            },
{
    assert forall|s: ServerView|
        #![trigger s.get_chunks_send_chunk(s.io.chunk_pending().len())]
        s.cycle_ok() && s.phase == ServerTestPhase::GetChunksSendChunk && valid_chunk_size(
            s.io.chunk.len() as int,
        ) && s.io.chunk_pos < s.io.chunk.len() implies {
        let next = s.get_chunks_send_chunk(s.io.chunk_pending().len()).0;
        &&& next.cycle_ok()
        &&& next.num_chunks == s.num_chunks
        &&& next.io.chunk.len() == s.io.chunk.len()
        &&& next.processed_chunks == s.processed_chunks + 1
        &&& next.phase == if s.processed_chunks + 1 == s.num_chunks {
            ServerTestPhase::GetChunksReceiveOk
        } else {
            ServerTestPhase::GetChunksSendChunk
        }
    } by {
        let size = s.io.chunk.len();
        crate::limits::lemma_valid_chunk_sizes(size as int);
        assert((s.processed_chunks + 1) * size == s.processed_chunks * size + size) by (nonlinear_arith);
        assert((s.processed_chunks + 1) * size <= 0x1_0000_0000 * 4194304) by (nonlinear_arith)
            requires
                s.processed_chunks + 1 <= 0x1_0000_0000,
                size <= 4194304,
        ;
    }
    let begun = state.starting(Command::GetChunks { chunks, chunk_size }, now);
    assert(begun.processed_chunks * begun.io.chunk.len() == 0) by (nonlinear_arith)
        requires
            begun.processed_chunks == 0,
    ;
}

/// The state after the current and the following chunks of a timed
/// download were each written out whole, at the clock readings `times`.
pub open spec fn after_chunks(state: ServerView, times: Seq<u64>) -> ServerView
    decreases times.len(),
{
    if times.len() == 0 {
        state
    } else {
        let before = after_chunks(state, times.drop_last());
        if before.phase == ServerTestPhase::GetTimeSendChunk {
            before.get_time_send_chunk(before.io.chunk_pending().len(), times.last()).0
        } else {
            before
        }
    }
}

/// The transport does not stall: each chunk is out less than a second
/// after the one before, the first less than a second after the request.
pub open spec fn steady(start: u64, times: Seq<u64>) -> bool {
    forall|i: int|
        0 <= i < times.len() ==> {
            let previous = if i == 0 {
                start
            } else {
                times[i - 1]
            };
            previous <= #[trigger] times[i] && times[i] - previous < NANOS_PER_SECOND
        }
}

/// On a transport that does not stall, the chunk at position `i` is out
/// less than `i + 1` seconds after the request.
pub proof fn lemma_steady(start: u64, times: Seq<u64>, i: int)
    requires
        steady(start, times),
        0 <= i < times.len(),
    ensures
        start <= times[i],
        times[i] - start < (i + 1) * NANOS_PER_SECOND,
    decreases i,
{
    if i > 0 {
        lemma_steady(start, times, i - 1);
    }
}

/// What holds of a timed download after some of its chunks are out: while
/// it streams, every chunk so far was counted and the sealed chunk carries
/// the flag for the moment it was sealed; once it is over, more bytes are
/// delivered than the requested number of seconds times the chunk size.
pub open spec fn streaming(
    state: ServerView,
    seconds: u64,
    chunk_size: usize,
    start: u64,
    times: Seq<u64>,
) -> bool {
    let sealed_after: nat = if times.len() == 0 {
        0
    } else {
        (times.last() - start) as nat
    };
    &&& state.io.chunk.len() == chunk_size
    &&& state.io.chunk_pos == 0
    &&& state.clock == Some(start)
    &&& state.duration == seconds * NANOS_PER_SECOND
    &&& state.phase == ServerTestPhase::GetTimeSendChunk || state.phase
        == ServerTestPhase::GetTimeReceiveOk
    &&& state.phase == ServerTestPhase::GetTimeSendChunk ==> {
        &&& state.download_bytes == times.len() * chunk_size
        &&& state.io.chunk.last() == flag_of(
            timed_terminator(sealed_after, state.duration as nat),
        )
    }
    &&& state.phase == ServerTestPhase::GetTimeReceiveOk ==> state.download_bytes > seconds
        * chunk_size
}

/// The invariant of a timed download on a transport that does not stall.
pub proof fn lemma_streaming(
    state: ServerView,
    seconds: u64,
    chunk_size: usize,
    start: u64,
    times: Seq<u64>,
)
    requires
        valid_chunk_size(chunk_size as int),
        seconds * NANOS_PER_SECOND <= u64::MAX,
        steady(start, times),
        times.len() * chunk_size <= u64::MAX,
    ensures
        streaming(
            after_chunks(state.starting(Command::GetTime { seconds, chunk_size }, start), times),
            seconds,
            chunk_size,
            start,
            times,
        ),
    decreases times.len(),
{
    let begun = state.starting(Command::GetTime { seconds, chunk_size }, start);
    crate::limits::lemma_valid_chunk_sizes(chunk_size as int);
    if times.len() == 0 {
        assert(0 * chunk_size == 0) by (nonlinear_arith);
    } else {
        let earlier = times.drop_last();
        let k = earlier.len();
        assert forall|i: int| 0 <= i < earlier.len() implies {
            let previous = if i == 0 {
                start
            } else {
                earlier[i - 1]
            };
            previous <= #[trigger] earlier[i] && earlier[i] - previous < NANOS_PER_SECOND
        } by {
            assert(earlier[i] == times[i]);
            if i > 0 {
                assert(earlier[i - 1] == times[i - 1]);
            }
        }
        assert(k * chunk_size <= times.len() * chunk_size) by (nonlinear_arith)
            requires
                k <= times.len(),
        ;
        lemma_streaming(state, seconds, chunk_size, start, earlier);
        let before = after_chunks(begun, earlier);
        let now = times.last();
        lemma_steady(start, times, k as int);
        assert((k + 1) * chunk_size == k * chunk_size + chunk_size) by (nonlinear_arith);
        if before.phase == ServerTestPhase::GetTimeSendChunk {
            assert(before.io.chunk_pending().len() == chunk_size);
            if before.io.chunk.last() == LAST_FLAG {
                if k > 0 {
                    lemma_steady(start, times, k - 1);
                    assert(earlier.last() == times[k - 1]);
                    assert(seconds < k) by (nonlinear_arith)
                        requires
                            seconds * NANOS_PER_SECOND <= times[k - 1] - start,
                            times[k - 1] - start < k * NANOS_PER_SECOND,
                    ;
                }
                assert((k + 1) * chunk_size > seconds * chunk_size) by (nonlinear_arith)
                    requires
                        k + 1 > seconds,
                        chunk_size > 0,
                ;
            }
        }
    }
}

/// A timed download of `seconds` seconds in chunks of `chunk_size` bytes
/// delivers, on a transport that does not stall, more than `seconds` times
/// `chunk_size` bytes before the client is asked to acknowledge.
pub proof fn lemma_get_time_delivers(
    state: ServerView,
    seconds: u64,
    chunk_size: usize,
    start: u64,
    times: Seq<u64>,
)
    requires
        valid_chunk_size(chunk_size as int),
        seconds * NANOS_PER_SECOND <= u64::MAX,
        steady(start, times),
        times.len() * chunk_size <= u64::MAX,
        after_chunks(
            state.starting(Command::GetTime { seconds, chunk_size }, start),
            times,
        ).phase == ServerTestPhase::GetTimeReceiveOk,
    ensures
        after_chunks(
            state.starting(Command::GetTime { seconds, chunk_size }, start),
            times,
        ).download_bytes > seconds * chunk_size,
{
    lemma_streaming(state, seconds, chunk_size, start, times);
}

} // verus!
