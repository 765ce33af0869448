use nettest::channel::{copy_into, Channel, BUFFER_SIZE};
use nettest::chunk::Terminator;
use nettest::client::driver::{handle_readable, handle_writable};
use nettest::client::get_chunks::increase_chunk_size;
use nettest::client::put::planned_duration_ns;
use nettest::client::state::{
    MeasurementState, TestPhase, TestPlan, MAX_CHUNKS_BEFORE_SIZE_INCREASE, MAX_TOKEN_LEN,
    PRE_DOWNLOAD_DURATION_NS,
};
use nettest::error::ProtocolError;
use nettest::event::{elapsed, nanos_of_seconds, Interest, Progress};

const ACCEPT: &[u8] = b"ACCEPT GETCHUNKS GETTIME PUT PUTNORESULT PING QUIT\n";

fn plan() -> TestPlan {
    TestPlan { pings: 1, duration_s: 1, sample_upload: true, signed_result: true }
}

fn fresh() -> MeasurementState {
    MeasurementState::new(9, b"tok".to_vec(), plan()).unwrap()
}

fn send(state: &mut MeasurementState, now: u64) -> Vec<u8> {
    let out = state.outgoing().to_vec();
    assert_eq!(handle_writable(state, out.len(), now), Ok(Progress::Advanced));
    out
}

#[test]
fn a_fresh_connection() {
    let state = fresh();
    assert_eq!(state.token, 9);
    assert_eq!(state.phase, TestPhase::GreetingSendUpgrade);
    assert_eq!(state.interest(), Interest::Writable);
    assert_eq!(
        state.outgoing(),
        &b"GET /rmbt HTTP/1.1 \r\nConnection: Upgrade \r\nUpgrade: RMBT\r\nRMBT-Version: 1.2.0\r\n\r\n"[..]
    );
    assert_eq!(state.total_chunks, 1);
    assert_eq!(state.chunk_size(), 4096);
    assert_eq!(state.read_room(), BUFFER_SIZE);
    assert_eq!(PRE_DOWNLOAD_DURATION_NS, 2_000_000_000);
    assert_eq!(MAX_CHUNKS_BEFORE_SIZE_INCREASE, 8);
}

#[test]
fn a_token_must_fit_its_line() {
    assert!(MeasurementState::new(1, vec![b'a'; MAX_TOKEN_LEN], plan()).is_ok());
    assert_eq!(
        MeasurementState::new(1, vec![b'a'; MAX_TOKEN_LEN + 1], plan()).err(),
        Some(ProtocolError::BadToken)
    );
}

#[test]
fn the_run_passes_its_phases_in_order() {
    let mut s = fresh();
    let mut seen = vec![s.phase];
    let mut now = 10u64;
    let mut step = |s: &mut MeasurementState, seen: &mut Vec<TestPhase>| {
        now += 10;
        match s.interest() {
            Interest::Writable => {
                let n = s.outgoing().len();
                handle_writable(s, n, now).unwrap();
            }
            Interest::Readable => {
                let reply: Vec<u8> = match s.phase {
                    TestPhase::GreetingReceiveVersion => {
                        b"HTTP/1.1 101\r\n\r\nRMBTv1.5.0\nACCEPT TOKEN QUIT\n".to_vec()
                    }
                    TestPhase::GreetingReceiveChunkSize => {
                        [&b"OK\nCHUNKSIZE 4096 4096 4194304\n"[..], ACCEPT].concat()
                    }
                    TestPhase::PingReceivePong => b"PONG\n".to_vec(),
                    TestPhase::PutReceiveOk => b"OK\n".to_vec(),
                    TestPhase::GetChunksReceiveChunk | TestPhase::GetTimeReceiveChunk => {
                        let mut c = vec![0u8; s.chunk_size()];
                        *c.last_mut().unwrap() = 0xFF;
                        c
                    }
                    TestPhase::SignedResultReceive => b"GETTIME:(1 2);:c2ln\n".to_vec(),
                    _ => [&b"TIME 3000000000\n"[..], ACCEPT].concat(),
                };
                handle_readable(s, &reply, now).unwrap();
            }
            Interest::Closed => panic!("finished"),
        }
        if *seen.last().unwrap() != s.phase {
            seen.push(s.phase);
        }
    };
    while s.phase != TestPhase::Finished {
        step(&mut s, &mut seen);
    }
    assert_eq!(
        seen,
        vec![
            TestPhase::GreetingSendUpgrade,
            TestPhase::GreetingReceiveVersion,
            TestPhase::GreetingSendToken,
            TestPhase::GreetingReceiveChunkSize,
            TestPhase::PingSendPing,
            TestPhase::PingReceivePong,
            TestPhase::PingSendOk,
            TestPhase::PingReceiveTime,
            TestPhase::PingCompleted,
            TestPhase::GetChunksSendChunksCommand,
            TestPhase::GetChunksReceiveChunk,
            TestPhase::GetChunksSendOk,
            TestPhase::GetChunksReceiveTime,
            TestPhase::GetChunksCompleted,
            TestPhase::GetTimeSendCommand,
            TestPhase::GetTimeReceiveChunk,
            TestPhase::GetTimeSendOk,
            TestPhase::GetTimeReceiveTime,
            TestPhase::GetTimeCompleted,
            TestPhase::PutSendCommand,
            TestPhase::PutReceiveOk,
            TestPhase::PutSendChunk,
            TestPhase::PutReceiveTime,
            TestPhase::PutCompleted,
            TestPhase::SignedResultSendCommand,
            TestPhase::SignedResultReceive,
            TestPhase::SignedResultSendOk,
            TestPhase::SignedResultCompleted,
            TestPhase::QuitSend,
            TestPhase::Finished,
        ]
    );
    assert_eq!(s.ping_samples, vec![10]);
    assert_eq!(s.download_time, Some(3_000_000_000));
    assert_eq!(s.upload_time, Some(3_000_000_000));
    assert_eq!(s.bytes_received, 4096);
    assert_eq!(s.download_measurements.len(), 1);
    assert_eq!(s.envelope, Some(b"GETTIME:(1 2);:c2ln\n".to_vec()));
    assert_eq!(handle_writable(&mut s, 0, 0), Err(ProtocolError::WrongPhase));
    assert_eq!(handle_readable(&mut s, b"x", 0), Err(ProtocolError::WrongPhase));
}

#[test]
fn partial_writes_are_retried_from_where_they_stopped() {
    let mut s = fresh();
    let whole = s.outgoing().to_vec();
    assert_eq!(handle_writable(&mut s, 10, 1), Ok(Progress::Pending));
    assert_eq!(s.outgoing(), &whole[10..]);
    assert_eq!(handle_writable(&mut s, 0, 1), Ok(Progress::Pending));
    assert_eq!(s.outgoing(), &whole[10..]);
    assert_eq!(handle_writable(&mut s, whole.len(), 1), Err(ProtocolError::Overrun));
    assert_eq!(s.outgoing(), &whole[10..]);
    assert_eq!(handle_writable(&mut s, whole.len() - 10, 1), Ok(Progress::Advanced));
    assert_eq!(s.phase, TestPhase::GreetingReceiveVersion);
    assert!(s.outgoing().is_empty());
    assert_eq!(handle_writable(&mut s, 0, 1), Err(ProtocolError::WrongPhase));
}

#[test]
fn upload_flags_the_chunk_begun_after_the_duration() {
    let second = 1_000_000_000u64;
    let mut s = fresh();
    s.phase = TestPhase::PutReceiveOk;
    assert_eq!(handle_readable(&mut s, b"OK", 0), Ok(Progress::Pending));
    assert_eq!(handle_readable(&mut s, b"\n", 5), Ok(Progress::Advanced));
    assert_eq!(s.phase, TestPhase::PutSendChunk);
    assert_eq!(s.phase_start_time, Some(5));
    let mut flags = Vec::new();
    let mut now = 5;
    while s.phase == TestPhase::PutSendChunk {
        let out = s.outgoing().to_vec();
        assert_eq!(out.len(), 4096);
        flags.push(*out.last().unwrap());
        assert_eq!(handle_writable(&mut s, 4000, now), Ok(Progress::Pending));
        assert_eq!(s.outgoing().len(), 96);
        now += second / 2;
        handle_writable(&mut s, 96, now).unwrap();
    }
    assert_eq!(flags, vec![0x00, 0x00, 0xFF]);
    assert_eq!(s.bytes_sent, 3 * 4096);
    assert_eq!(
        s.upload_measurements,
        vec![(second / 2, 4096), (second, 8192), (3 * second / 2, 12288)]
    );
    assert_eq!(s.phase, TestPhase::PutReceiveTime);
}

#[test]
fn no_chunk_goes_out_unless_the_upload_is_answered_with_ok() {
    let mut s = fresh();
    s.phase = TestPhase::PutReceiveOk;
    assert_eq!(handle_readable(&mut s, b"ERR PUT 4096\n", 0), Err(ProtocolError::UnexpectedReply));
    assert_eq!(s.phase, TestPhase::PutReceiveOk);
    assert_eq!(s.interest(), Interest::Readable);
    assert_eq!(s.bytes_sent, 0);
}

#[test]
fn growth_of_the_pre_download_cycle() {
    let mut s = fresh();
    increase_chunk_size(&mut s);
    assert_eq!((s.total_chunks, s.chunk_size()), (2, 4096));
    s.total_chunks = 8;
    increase_chunk_size(&mut s);
    assert_eq!((s.total_chunks, s.chunk_size()), (8, 8192));
    assert_eq!(s.io.chunk_buffer.len(), 8192);
    s.io.set_chunk_size(4194304).unwrap();
    increase_chunk_size(&mut s);
    assert_eq!((s.total_chunks, s.chunk_size()), (8, 4194304));
}

#[test]
fn channel_buffers() {
    let mut c = Channel::new();
    assert_eq!(c.chunk_size(), 4096);
    assert_eq!(c.line_room(), 8192);
    assert_eq!(c.stage(&vec![1u8; 8193]), Err(ProtocolError::LineTooLong));
    assert_eq!(c.stage(b"hello"), Ok(()));
    assert_eq!(c.outgoing(), b"hello");
    assert_eq!(c.sent(2), Ok(false));
    assert_eq!(c.outgoing(), b"llo");
    assert_eq!(c.sent(4), Err(ProtocolError::Overrun));
    assert_eq!(c.sent(3), Ok(true));
    assert_eq!(c.receive(b"ab"), Ok(()));
    assert_eq!(c.receive(b"c"), Ok(()));
    assert_eq!(c.line(), b"abc");
    assert_eq!(c.receive(&vec![0u8; 8190]), Err(ProtocolError::LineTooLong));
    assert_eq!(c.line(), b"abc");
    c.reset();
    assert!(c.line().is_empty());
    assert_eq!(c.set_chunk_size(5000), Err(ProtocolError::ChunkSize));
    assert_eq!(c.set_chunk_size(8192), Ok(()));
    assert_eq!(c.chunk_room(), 8192);
    assert_eq!(c.receive_chunk(&vec![0u8; 8193]), Err(ProtocolError::Overrun));
    assert_eq!(c.receive_chunk(&vec![3u8; 8000]), Ok(None));
    assert_eq!(c.chunk_room(), 192);
    let mut tail = vec![3u8; 192];
    tail[191] = 0xFF;
    assert_eq!(c.receive_chunk(&tail), Ok(Some(Terminator::Last)));
    assert_eq!(c.chunk_room(), 8192);
    c.seal_chunk(Terminator::Continue);
    assert_eq!(*c.chunk_outgoing().last().unwrap(), 0x00);
    assert_eq!(c.chunk_outgoing()[0], 3);
    assert_eq!(c.chunk_sent(8000), Ok(false));
    assert_eq!(c.chunk_outgoing().len(), 192);
    assert_eq!(c.chunk_sent(193), Err(ProtocolError::Overrun));
    assert_eq!(c.chunk_sent(192), Ok(true));
    assert_eq!(c.chunk_outgoing().len(), 8192);

    let mut v = vec![1u8, 2, 3, 4, 5];
    copy_into(&mut v, 1, &[9, 8]);
    assert_eq!(v, vec![1, 9, 8, 4, 5]);
}

#[test]
fn clock_arithmetic() {
    assert_eq!(elapsed(Some(5), 12), 7);
    assert_eq!(elapsed(Some(12), 5), 0);
    assert_eq!(elapsed(None, 5), 0);
    assert_eq!(nanos_of_seconds(2), 2_000_000_000);
    assert_eq!(nanos_of_seconds(u64::MAX), u64::MAX);
    assert_eq!(planned_duration_ns(&plan()), 1_000_000_000);
}

#[test]
fn cursors_are_back_at_the_start_when_a_request_is_out() {
    let mut s = fresh();
    s.phase = TestPhase::PingCompleted;
    assert_eq!(handle_writable(&mut s, 0, 1), Ok(Progress::Advanced));
    assert_eq!(s.phase, TestPhase::GetChunksSendChunksCommand);
    assert_eq!(s.outgoing(), b"GETCHUNKS 1 4096\n");
    assert_eq!((s.io.read_pos, s.io.write_pos, s.io.write_len), (0, 0, 17));
    assert_eq!(handle_writable(&mut s, 5, 1), Ok(Progress::Pending));
    assert_eq!(s.io.write_pos, 5);
    assert_eq!(handle_writable(&mut s, 12, 1), Ok(Progress::Advanced));
    assert_eq!(s.phase, TestPhase::GetChunksReceiveChunk);
    assert_eq!((s.io.read_pos, s.io.write_pos, s.io.write_len), (0, 0, 0));
    assert_eq!(s.io.chunk_buffer.len(), s.chunk_size());

    s.phase = TestPhase::SignedResultReceive;
    assert_eq!(handle_readable(&mut s, b"GETTIME:(1 2);", 1), Ok(Progress::Pending));
    assert_eq!(s.envelope, None);
    assert_eq!(s.io.read_pos, 14);
    assert_eq!(handle_readable(&mut s, b":c2ln\n", 1), Ok(Progress::Advanced));
    assert_eq!(s.envelope, Some(b"GETTIME:(1 2);:c2ln\n".to_vec()));
    assert_eq!(s.phase, TestPhase::SignedResultSendOk);
    assert_eq!((s.io.read_pos, s.io.write_pos, s.io.write_len), (0, 0, 3));
}

#[test]
fn every_chunk_of_an_upload_ends_in_a_flag() {
    let mut s = fresh();
    s.phase = TestPhase::PutReceiveOk;
    s.io.reset();
    handle_readable(&mut s, b"OK\n", 0).unwrap();
    let mut now = 0u64;
    let mut sent = 0;
    while s.phase == TestPhase::PutSendChunk {
        let last = *s.io.chunk_buffer.last().unwrap();
        assert!(last == 0x00 || last == 0xFF);
        now += 400_000_000;
        handle_writable(&mut s, 4096, now).unwrap();
        sent += 1;
    }
    assert_eq!(sent, 4);
}
