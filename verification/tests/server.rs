use nettest::error::ProtocolError;
use nettest::event::{Interest, Progress};
use nettest::server::driver::{handle_client_readable_data, handle_client_writable_data};
use nettest::server::greeting::{check_token, check_token_line, greeting};
use nettest::server::signed_result::{
    compose_message, generate_secret_key, handle_signed_result, secret_key_from, secret_key_of,
    sign_message, stage_envelope,
};
use nettest::server::state::{ServerTestPhase, TestState};
use nettest::server::timeout_utils::{
    check_timeout_periodic, is_timed_out, CONNECTION_TIMEOUT_SECS, TIMEOUT_CHECK_INTERVAL,
};
use nettest::server::upgrade::{
    decide_upgrade, handle_greeting_receive_connection_type, is_websocket_request,
    plain_upgrade_response, UpgradeDecision, UPGRADE_TIMEOUT_NS,
};
use nettest::server::worker::{
    count_down, count_up, direction, disposition, serve_readable, serve_writable, Direction,
    Disposition, Transport, Worker,
};
use nettest::tokio_server::{
    ConnectionHandler, Ending, ReadFailure, Server, ServerError, Turn,
};
use nettest::config::{ListenAddress, ListenHost, RmbtServerConfig};

const TOKEN_LINE: &[u8] =
    b"TOKEN 123e4567-e89b-12d3-a456-426614174000_1700000000_c2lnbmF0dXJl\n";
const ACCEPT: &[u8] = b"ACCEPT GETCHUNKS GETTIME PUT PUTNORESULT PING QUIT\n";

fn write_all(state: &mut TestState, now: u64) -> Vec<u8> {
    let out = state.outgoing().to_vec();
    assert_eq!(handle_client_writable_data(state, out.len(), now), Ok(Progress::Advanced));
    out
}

fn accepting(now: u64) -> TestState {
    let mut state = TestState::new(7, now, None, b"10.0.0.1:999".to_vec(), None);
    assert_eq!(write_all(&mut state, now), b"RMBTv1.5.0\nACCEPT TOKEN QUIT\n".to_vec());
    assert_eq!(handle_client_readable_data(&mut state, TOKEN_LINE, now), Ok(Progress::Advanced));
    assert_eq!(write_all(&mut state, now), b"OK\nCHUNKSIZE 4096 4096 4194304\n".to_vec());
    assert_eq!(write_all(&mut state, now), ACCEPT.to_vec());
    assert_eq!(state.measurement_state, ServerTestPhase::AcceptCommandReceive);
    state
}

#[test]
fn version_banners() {
    assert_eq!(greeting(None), b"RMBTv1.5.0\nACCEPT TOKEN QUIT\n".to_vec());
    assert_eq!(greeting(Some(3)), b"RMBTv0.3\nACCEPT TOKEN QUIT\n".to_vec());
    assert_eq!(greeting(Some(1)), b"RMBTv1.3.3\nACCEPT TOKEN QUIT\n".to_vec());
    assert_eq!(greeting(Some(2)), b"RMBTv1.3.3\nACCEPT TOKEN QUIT\n".to_vec());
}

#[test]
fn token_forms() {
    assert!(check_token(b"123e4567-e89b-12d3-a456-426614174000_1700000000_c2lnbmF0dXJl"));
    assert!(check_token(b"123E4567-E89B-12D3-A456-426614174000_0_a+b/c="));
    assert!(!check_token(b"123e4567-e89b-12d3-a456-42661417400_1700000000_c2ln"));
    assert!(!check_token(b"123e4567-e89b-12d3-a456-42661417400g_1700000000_c2ln"));
    assert!(!check_token(b"123e4567-e89b-12d3-a456-426614174000_17x_c2ln"));
    assert!(!check_token(b"123e4567-e89b-12d3-a456-426614174000_17_c2_ln"));
    assert!(!check_token(b"123e4567-e89b-12d3-a456-426614174000_17"));
    assert!(!check_token(b""));
    assert!(check_token_line(TOKEN_LINE));
    assert!(!check_token_line(&TOKEN_LINE[..TOKEN_LINE.len() - 1]));
    assert!(!check_token_line(b"token 123e4567-e89b-12d3-a456-426614174000_1_a\n"));
}

#[test]
fn bad_token_is_answered_with_err_and_closed() {
    let mut state = TestState::new(1, 0, None, Vec::new(), None);
    write_all(&mut state, 0);
    assert_eq!(state.interest(), Interest::Readable);
    assert_eq!(handle_client_readable_data(&mut state, b"TOKEN ", 0), Ok(Progress::Pending));
    assert_eq!(handle_client_readable_data(&mut state, b"nothing\n", 0), Ok(Progress::Advanced));
    assert_eq!(state.measurement_state, ServerTestPhase::ErrorSend);
    assert_eq!(state.failure, Some(ProtocolError::BadToken));
    assert_eq!(state.outgoing(), b"ERR TOKEN nothing\n");
    assert_eq!(handle_client_writable_data(&mut state, 4, 0), Ok(Progress::Pending));
    assert_eq!(state.outgoing(), b"TOKEN nothing\n");
    assert_eq!(handle_client_writable_data(&mut state, 14, 0), Ok(Progress::Advanced));
    assert_eq!(state.measurement_state, ServerTestPhase::Closed);
    assert_eq!(state.interest(), Interest::Closed);
    assert_eq!(
        disposition(&Ok(Progress::Advanced), &state),
        Disposition::Remove
    );
}

#[test]
fn requests_outside_the_chunk_size_bounds_get_err() {
    for line in [
        &b"GETCHUNKS 4 4095\n"[..],
        b"GETCHUNKS 4 4194305\n",
        b"GETTIME 2 1\n",
        b"PUT 8388608\n",
        b"PUTNORESULT 0\n",
    ] {
        let mut state = accepting(5);
        assert_eq!(handle_client_readable_data(&mut state, line, 6), Ok(Progress::Advanced));
        assert_eq!(state.measurement_state, ServerTestPhase::ErrorSend);
        assert_eq!(state.failure, Some(ProtocolError::ChunkSize));
        let mut expected = b"ERR ".to_vec();
        expected.extend_from_slice(line);
        assert_eq!(state.outgoing(), &expected[..]);
        write_all(&mut state, 7);
        assert_eq!(state.measurement_state, ServerTestPhase::Closed);
    }
}

#[test]
fn unknown_command_gets_err() {
    let mut state = accepting(5);
    assert_eq!(handle_client_readable_data(&mut state, b"HELLO\n", 6), Ok(Progress::Advanced));
    assert_eq!(state.failure, Some(ProtocolError::UnknownCommand));
    assert_eq!(state.outgoing(), b"ERR HELLO\n");
}

#[test]
fn put_is_answered_by_ok_before_any_chunk() {
    for (line, sampled) in [(&b"PUT 8192\n"[..], true), (b"PUTNORESULT 8192\n", false)] {
        let mut state = accepting(5);
        assert_eq!(handle_client_readable_data(&mut state, line, 6), Ok(Progress::Advanced));
        assert_eq!(state.measurement_state, ServerTestPhase::PutSendOk);
        assert_eq!(state.interest(), Interest::Writable);
        assert_eq!(state.outgoing(), b"OK\n");
        assert_eq!(state.sample_upload, sampled);
        assert_eq!(
            handle_client_readable_data(&mut state, &[0u8; 16], 7),
            Err(ProtocolError::WrongPhase)
        );
        assert_eq!(handle_client_writable_data(&mut state, 2, 8), Ok(Progress::Pending));
        assert_eq!(state.measurement_state, ServerTestPhase::PutSendOk);
        assert_eq!(handle_client_writable_data(&mut state, 1, 9), Ok(Progress::Advanced));
        assert_eq!(state.measurement_state, ServerTestPhase::PutReceiveChunk);
        assert_eq!(state.read_room(), 8192);

        let mut chunk = vec![1u8; 8192];
        chunk[8191] = 0x00;
        assert_eq!(handle_client_readable_data(&mut state, &chunk[..100], 10), Ok(Progress::Pending));
        assert_eq!(state.read_room(), 8092);
        assert_eq!(handle_client_readable_data(&mut state, &chunk[100..], 11), Ok(Progress::Pending));
        assert_eq!(state.upload_bytes, 8192);
        chunk[8191] = 0xFF;
        assert_eq!(handle_client_readable_data(&mut state, &chunk, 29), Ok(Progress::Advanced));
        assert_eq!(state.upload_bytes, 16384);
        assert_eq!(state.upload_time_ns, Some(20));
        assert_eq!(state.outgoing(), b"TIME 20\n");
        assert_eq!(state.bytes_received, if sampled { vec![(2, 8192), (20, 16384)] } else { vec![] });
        write_all(&mut state, 30);
        assert_eq!(write_all(&mut state, 30), ACCEPT.to_vec());
        assert_eq!(state.measurement_state, ServerTestPhase::AcceptCommandReceive);
    }
}

#[test]
fn upload_chunk_with_a_wrong_last_byte_gets_err() {
    let mut state = accepting(5);
    handle_client_readable_data(&mut state, b"PUT 4096\n", 6).unwrap();
    write_all(&mut state, 6);
    let mut chunk = vec![1u8; 4096];
    chunk[4095] = 0x42;
    assert_eq!(handle_client_readable_data(&mut state, &chunk, 7), Ok(Progress::Advanced));
    assert_eq!(state.failure, Some(ProtocolError::BadTerminator));
    assert_eq!(state.outgoing(), b"ERR \n");
    assert_eq!(state.upload_bytes, 0);
}

#[test]
fn get_chunks_sends_count_chunks_flagged_by_place() {
    let mut state = accepting(100);
    handle_client_readable_data(&mut state, b"GETCHUNKS 3 4096\n", 100).unwrap();
    assert_eq!(state.measurement_state, ServerTestPhase::GetChunksSendChunk);
    let mut flags = Vec::new();
    let mut total = 0usize;
    while state.measurement_state == ServerTestPhase::GetChunksSendChunk {
        let out = state.outgoing().to_vec();
        assert_eq!(out.len(), 4096);
        flags.push(*out.last().unwrap());
        total += out.len();
        assert_eq!(handle_client_writable_data(&mut state, 1000, 101), Ok(Progress::Pending));
        assert_eq!(state.outgoing().len(), 3096);
        handle_client_writable_data(&mut state, 3096, 102).unwrap();
    }
    assert_eq!(flags, vec![0x00, 0x00, 0xFF]);
    assert_eq!(total, 3 * 4096);
    assert_eq!(state.cycle_bytes, 3 * 4096);
    assert_eq!(state.measurement_state, ServerTestPhase::GetChunksReceiveOk);
    assert_eq!(handle_client_readable_data(&mut state, b"OK\n", 350), Ok(Progress::Advanced));
    assert_eq!(state.outgoing(), b"TIME 250\n");
    write_all(&mut state, 351);
    assert_eq!(state.outgoing(), ACCEPT);
}

#[test]
fn get_time_streams_until_the_duration_has_passed() {
    let second = 1_000_000_000u64;
    let mut state = accepting(0);
    handle_client_readable_data(&mut state, b"GETTIME 2 4096\n", second).unwrap();
    assert_eq!(state.duration, 2 * second);
    let mut flags = Vec::new();
    let mut now = second;
    while state.measurement_state == ServerTestPhase::GetTimeSendChunk {
        flags.push(*state.outgoing().last().unwrap());
        now += second / 2;
        handle_client_writable_data(&mut state, 4096, now).unwrap();
    }
    assert_eq!(flags, vec![0x00, 0x00, 0x00, 0x00, 0xFF]);
    assert_eq!(state.download_bytes, 5 * 4096);
    assert!(state.download_bytes > 2 * 4096);
    assert_eq!(handle_client_readable_data(&mut state, b"OK\n", now + 5), Ok(Progress::Advanced));
    assert_eq!(state.download_time_ns, Some(5 * second / 2 + 5));
    assert_eq!(state.outgoing(), b"TIME 2500000005\n");
}

#[test]
fn ping_is_timed_by_the_server_too() {
    let mut state = accepting(0);
    handle_client_readable_data(&mut state, b"PING\n", 1000).unwrap();
    assert_eq!(write_all(&mut state, 1001), b"PONG\n".to_vec());
    assert_eq!(handle_client_readable_data(&mut state, b"O", 1500), Ok(Progress::Pending));
    assert_eq!(handle_client_readable_data(&mut state, b"K\n", 1600), Ok(Progress::Advanced));
    assert_eq!(state.outgoing(), b"TIME 600\n");
}

#[test]
fn anything_but_ok_is_refused_as_acknowledgement() {
    let mut state = accepting(0);
    handle_client_readable_data(&mut state, b"PING\n", 1000).unwrap();
    write_all(&mut state, 1001);
    assert_eq!(handle_client_readable_data(&mut state, b"NO\n", 1600), Ok(Progress::Advanced));
    assert_eq!(state.failure, Some(ProtocolError::UnexpectedReply));
    assert_eq!(state.outgoing(), b"ERR NO\n");
}

#[test]
fn transport_conditions_are_errors_of_the_connection() {
    let mut state = accepting(0);
    assert_eq!(handle_client_readable_data(&mut state, b"", 1), Err(ProtocolError::UnexpectedEof));
    assert_eq!(handle_client_writable_data(&mut state, 0, 1), Err(ProtocolError::WrongPhase));
    let long = vec![b'A'; 8193];
    assert_eq!(handle_client_readable_data(&mut state, &long, 1), Err(ProtocolError::LineTooLong));
    assert_eq!(state.read_room(), 8192);
    let mut fresh = TestState::new(1, 0, None, Vec::new(), None);
    assert_eq!(handle_client_writable_data(&mut fresh, 1000, 1), Err(ProtocolError::Overrun));
    assert_eq!(fresh.outgoing().len(), 29);
}

#[test]
fn quit_closes_the_connection() {
    let mut state = accepting(0);
    assert_eq!(handle_client_readable_data(&mut state, b"QUIT\n", 1), Ok(Progress::Advanced));
    assert_eq!(state.measurement_state, ServerTestPhase::Closed);
    assert_eq!(state.failure, None);
    assert_eq!(handle_client_readable_data(&mut state, b"PING\n", 2), Err(ProtocolError::WrongPhase));
}

#[test]
fn signing_matches_the_reference_code() {
    let signature = sign_message(b"what do ya want for nothing?", b"SmVmZQ==").unwrap();
    assert_eq!(signature.len(), 44);
    assert_eq!(signature, b"W9zBRr9gdU5qBCQmCJV1x1oAPwidJzmDnexYuWTsOEM=".to_vec());
    assert_eq!(
        sign_message(b"what do ya want for nothing?", b"not base64!"),
        Err(ProtocolError::BadKey)
    );
    let other = sign_message(b"what do ya want for nothing!", b"SmVmZQ==").unwrap();
    assert_ne!(other, signature);
}

#[test]
fn envelope_has_the_exact_form() {
    let message = compose_message(1, 2, 3, 4, b"127.0.0.1:5000", 9);
    assert_eq!(
        message,
        b"GETTIME:(1 2); PUTTIMERESULT:(3 4); CLIENT_IP:127.0.0.1:5000; TIMESTAMP:9;".to_vec()
    );
    let key = secret_key_from(&(0u8..32).collect::<Vec<u8>>());
    assert_eq!(key, b"AAECAwQFBgcICQoLDA0ODxAREhMUFRYXGBkaGxwdHh8=".to_vec());

    let mut state = TestState::new(1, 0, None, b"127.0.0.1:5000".to_vec(), None);
    state.download_bytes = 1;
    state.download_time_ns = Some(2);
    state.upload_bytes = 3;
    state.upload_time_ns = Some(4);
    assert_eq!(stage_envelope(&mut state, key.clone(), 9), Ok(Progress::Pending));
    assert_eq!(state.measurement_state, ServerTestPhase::SignedResultSend);
    assert_eq!(
        state.outgoing(),
        &b"GETTIME:(1 2); PUTTIMERESULT:(3 4); CLIENT_IP:127.0.0.1:5000; TIMESTAMP:9;:2URul8Zk9f8RSDkkPZT5fH8AD//UxLF6tsLPqfU8cgY=\n"[..]
    );
    assert_eq!(state.sig_key, Some(key));
    let n = state.outgoing().len();
    assert_eq!(handle_signed_result(&mut state, n, 10), Ok(Progress::Advanced));
    assert_eq!(state.measurement_state, ServerTestPhase::SignedResultReceiveOk);
    assert_eq!(handle_client_readable_data(&mut state, b"OK\n", 11), Ok(Progress::Advanced));
    assert_eq!(state.outgoing(), ACCEPT);
}

#[test]
fn envelope_refusals() {
    let mut state = TestState::new(1, 0, None, Vec::new(), None);
    assert_eq!(
        stage_envelope(&mut state, b"AAAA".to_vec(), 9),
        Err(ProtocolError::NotMeasured)
    );
    state.download_time_ns = Some(2);
    state.upload_time_ns = Some(4);
    assert_eq!(stage_envelope(&mut state, b"***".to_vec(), 9), Err(ProtocolError::BadKey));
    state.client_addr = vec![b'x'; 9000];
    assert_eq!(stage_envelope(&mut state, b"AAAA".to_vec(), 9), Err(ProtocolError::LineTooLong));
    assert_eq!(state.measurement_state, ServerTestPhase::GreetingSendVersion);
}

#[test]
fn a_key_is_generated_on_first_need() {
    let key = generate_secret_key().unwrap();
    assert_eq!(key.len(), 44);
    let bytes = base64::Engine::decode(&base64::engine::general_purpose::STANDARD, &key).unwrap();
    assert_eq!(bytes.len(), 32);
    assert_ne!(generate_secret_key().unwrap(), key);

    let mut state = TestState::new(1, 0, None, b"c".to_vec(), None);
    state.download_time_ns = Some(2);
    state.upload_time_ns = Some(4);
    state.measurement_state = ServerTestPhase::SignedResultSend;
    state.io.write_len = 0;
    state.io.write_pos = 0;
    assert_eq!(handle_signed_result(&mut state, 1, 5), Err(ProtocolError::Overrun));
    assert_eq!(handle_signed_result(&mut state, 0, 5), Ok(Progress::Pending));
    let generated = state.sig_key.clone().unwrap();
    assert_eq!(generated.len(), 44);
    let line = state.outgoing().to_vec();
    let expected = sign_message(b"GETTIME:(0 2); PUTTIMERESULT:(0 4); CLIENT_IP:c; TIMESTAMP:5;", &generated).unwrap();
    assert!(line.ends_with(&[&b":"[..], &expected[..], &b"\n"[..]].concat()));
}

#[test]
fn lifetime_cap_is_checked_every_ten_thousandth_time() {
    assert_eq!(CONNECTION_TIMEOUT_SECS, 60);
    assert_eq!(TIMEOUT_CHECK_INTERVAL, 10000);
    let second = 1_000_000_000u64;
    assert!(!is_timed_out(5, 5 + 60 * second));
    assert!(is_timed_out(5, 6 + 60 * second));
    assert!(!is_timed_out(100, 5));

    let mut state = TestState::new(1, 0, None, Vec::new(), None);
    for i in 1..10000u32 {
        assert_eq!(check_timeout_periodic(&mut state, 61 * second), Ok(0));
        assert_eq!(state.loop_iteration_count, i);
    }
    assert_eq!(check_timeout_periodic(&mut state, 61 * second), Err(ProtocolError::Timeout));
    assert_eq!(state.loop_iteration_count, 10000);
    state.loop_iteration_count = 19999;
    assert_eq!(check_timeout_periodic(&mut state, 60 * second), Ok(0));
    state.loop_iteration_count = u32::MAX;
    assert_eq!(check_timeout_periodic(&mut state, 61 * second), Err(ProtocolError::Timeout));
    assert_eq!(state.loop_iteration_count, 0);
}

#[test]
fn upgrade_decisions() {
    assert_eq!(UPGRADE_TIMEOUT_NS, 3_000_000_000);
    assert_eq!(decide_upgrade(false, false, 3_000_000_000), UpgradeDecision::Wait);
    assert_eq!(decide_upgrade(false, true, 3_000_000_001), UpgradeDecision::TimedOut);
    assert_eq!(decide_upgrade(true, true, 9_000_000_000), UpgradeDecision::WebSocket);
    assert_eq!(decide_upgrade(true, false, 0), UpgradeDecision::Plain);

    let partial = b"GET /rmbt HTTP/1.1 \r\nConnection: Upgrade \r\nUpgrade: RMBT\r\n";
    assert_eq!(handle_greeting_receive_connection_type(partial, 10), UpgradeDecision::Wait);
    assert_eq!(
        handle_greeting_receive_connection_type(partial, 3_000_000_001),
        UpgradeDecision::TimedOut
    );
    assert_eq!(handle_greeting_receive_connection_type(b"", 3_000_000_001), UpgradeDecision::TimedOut);
    let plain = b"GET /rmbt HTTP/1.1 \r\nConnection: Upgrade \r\nUpgrade: RMBT\r\n\r\n";
    assert_eq!(handle_greeting_receive_connection_type(plain, 10), UpgradeDecision::Plain);
    assert_eq!(
        plain_upgrade_response(),
        b"HTTP/1.1 101 Switching Protocols\r\nConnection: Upgrade\r\nUpgrade: RMBT\r\n\r\n".to_vec()
    );
}

#[test]
fn websocket_requests_are_recognised_in_any_case() {
    assert!(is_websocket_request(b"GET / HTTP/1.1\r\nUpgrade: websocket\r\n\r\n"));
    assert!(is_websocket_request(b"GET / HTTP/1.1\r\nUPGRADE:WebSocket\r\n\r\n"));
    assert!(is_websocket_request(b"upgrade: \t websocket"));
    assert!(is_websocket_request(b"\xff\xfeUpgrade: websocket"));
    assert!(!is_websocket_request(b"GET / HTTP/1.1\r\nUpgrade: RMBT\r\n\r\n"));
    assert!(!is_websocket_request(b"Upgrade websocket"));
    assert!(!is_websocket_request(b"Upgrade: web socket"));
    assert!(!is_websocket_request(b""));
}

#[test]
fn events_go_to_the_readable_handler_first() {
    assert_eq!(direction(true, true), Some(Direction::Readable));
    assert_eq!(direction(true, false), Some(Direction::Readable));
    assert_eq!(direction(false, true), Some(Direction::Writable));
    assert_eq!(direction(false, false), None);
}

#[test]
fn what_the_worker_does_with_a_connection() {
    let mut state = accepting(0);
    assert_eq!(serve_readable(&mut state, Transport::WouldBlock, b"PING\n", 1), Disposition::Keep);
    assert_eq!(state.measurement_state, ServerTestPhase::AcceptCommandReceive);
    assert_eq!(serve_readable(&mut state, Transport::Failed, b"PING\n", 1), Disposition::CloseAndRemove);
    assert_eq!(serve_readable(&mut state, Transport::Moved(9), b"PING\n", 1), Disposition::CloseAndRemove);
    assert_eq!(serve_readable(&mut state, Transport::Moved(0), b"PING\n", 1), Disposition::CloseAndRemove);
    assert_eq!(state.measurement_state, ServerTestPhase::AcceptCommandReceive);
    assert_eq!(serve_readable(&mut state, Transport::Moved(5), b"PING\n....", 1), Disposition::Keep);
    assert_eq!(state.measurement_state, ServerTestPhase::PingSendPong);
    assert_eq!(serve_writable(&mut state, Transport::WouldBlock, 2), Disposition::Keep);
    assert_eq!(serve_writable(&mut state, Transport::Moved(5), 2), Disposition::Keep);
    assert_eq!(state.measurement_state, ServerTestPhase::PingReceiveOk);
    assert_eq!(serve_writable(&mut state, Transport::Moved(1), 2), Disposition::CloseAndRemove);
    assert_eq!(serve_writable(&mut state, Transport::Failed, 2), Disposition::CloseAndRemove);

    let mut state = accepting(0);
    assert_eq!(serve_readable(&mut state, Transport::Moved(5), b"QUIT\n", 1), Disposition::Remove);
    assert_eq!(disposition(&Err(ProtocolError::Timeout), &state), Disposition::CloseAndRemove);
}

#[test]
fn worker_tokens_and_counts() {
    let mut worker = Worker::new(3, 10);
    assert_eq!((worker.id, worker.next_token, worker.last_queue_check), (3, 1, 10));
    assert_eq!(worker.take_up(11, Some(3), b"a".to_vec(), Some(b"k".to_vec())), 1);
    assert_eq!(worker.connections.len(), 1);
    assert_eq!(worker.connections[&1].token, 1);
    assert_eq!(worker.connections[&1].connection_start, 11);
    assert_eq!(worker.connections[&1].outgoing(), b"RMBTv0.3\nACCEPT TOKEN QUIT\n");
    assert_eq!(worker.connections[&1].sig_key, Some(b"k".to_vec()));
    assert!(worker.find(1));
    assert!(!worker.find(2));
    assert!(worker.remove(1));
    worker.next_token = usize::MAX;
    assert_eq!(worker.take_up(12, None, Vec::new(), None), usize::MAX);
    assert_eq!(worker.next_token, 1);

    let second = 1_000_000_000u64;
    assert!(!worker.queue_check_due(10 + 10 * second));
    assert_eq!(worker.last_queue_check, 10);
    assert!(worker.queue_check_due(11 + 10 * second));
    assert_eq!(worker.last_queue_check, 11 + 10 * second);
    assert!(!worker.queue_check_due(5));

    let mut counts = vec![0usize, 5, usize::MAX];
    count_up(&mut counts, 0);
    count_up(&mut counts, 2);
    count_up(&mut counts, 9);
    assert_eq!(counts, vec![1, 5, usize::MAX]);
    count_down(&mut counts, 0);
    count_down(&mut counts, 0);
    count_down(&mut counts, 1);
    count_down(&mut counts, 9);
    assert_eq!(counts, vec![0, 4, usize::MAX]);
}

#[test]
fn listeners_are_bound_plain_first() {
    let mut config = RmbtServerConfig::default();
    config.ssl_listen_addresses.push(ListenAddress { host: ListenHost::Unspecified, port: 443 });
    config.listen_addresses.push(ListenAddress { host: ListenHost::V6([0, 0, 0, 0, 0, 0, 0, 1]), port: 81 });
    let (server, tls) = Server::new(config);
    assert!(tls);
    let listeners = server.run().unwrap();
    let seen: Vec<(u16, bool)> = listeners.iter().map(|l| (l.address.port, l.is_ssl)).collect();
    assert_eq!(seen, vec![(8080, false), (81, false), (443, true)]);
    assert_eq!(listeners[1].address.host, ListenHost::V6([0, 0, 0, 0, 0, 0, 0, 1]));

    let mut empty = RmbtServerConfig::default();
    empty.listen_addresses.clear();
    let (server, tls) = Server::new(empty);
    assert!(!tls);
    assert_eq!(server.run().err(), Some(ServerError::NoListeners));
}

#[test]
fn how_a_connection_of_the_task_driven_server_ends() {
    assert_eq!(nettest::tokio_server::handle_connection("peer: connection closed"), Ending::Quiet);
    assert_eq!(nettest::tokio_server::handle_connection("broken pipe"), Ending::Quiet);
    assert_eq!(nettest::tokio_server::handle_connection("Connection reset by peer (os error 104)"), Ending::Quiet);
    assert_eq!(nettest::tokio_server::handle_connection("connection reset by peer"), Ending::Failed);
    assert_eq!(nettest::tokio_server::handle_connection(""), Ending::Failed);
    assert_eq!(ConnectionHandler::read_failed(ReadFailure::ConnectionReset), Ending::Quiet);
    assert_eq!(ConnectionHandler::read_failed(ReadFailure::ConnectionAborted), Ending::Quiet);
    assert_eq!(ConnectionHandler::read_failed(ReadFailure::BrokenPipe), Ending::Quiet);
    assert_eq!(ConnectionHandler::read_failed(ReadFailure::Other), Ending::Failed);

    let mut handler =
        ConnectionHandler::new(&RmbtServerConfig::default(), b"peer:1".to_vec(), None, 5);
    assert_eq!(handler.state.version, Some(1));
    assert_eq!(handler.state.connection_start, 5);
    assert_eq!(handler.state.client_addr, b"peer:1".to_vec());
    assert_eq!(handler.state.outgoing(), b"RMBTv1.3.3\nACCEPT TOKEN QUIT\n");
    assert_eq!(handler.handle(Turn::Read(b"x"), 6), Err(ProtocolError::WrongPhase));
    assert_eq!(handler.handle(Turn::Written(10), 6), Ok(Progress::Pending));
    assert_eq!(handler.state.outgoing(), b"\nACCEPT TOKEN QUIT\n");
    assert_eq!(handler.handle(Turn::Written(19), 7), Ok(Progress::Advanced));
    assert_eq!(handler.state.measurement_state, ServerTestPhase::GreetingReceiveToken);
    assert_eq!(handler.handle(Turn::Read(TOKEN_LINE), 8), Ok(Progress::Advanced));
    assert_eq!(handler.state.outgoing(), b"OK\nCHUNKSIZE 4096 4096 4194304\n");
    assert_eq!(handler.handle(Turn::Written(31), 9), Ok(Progress::Advanced));
    assert_eq!(handler.handle(Turn::Written(51), 9), Ok(Progress::Advanced));
    assert_eq!(handler.handle(Turn::Read(b"PING\n"), 10), Ok(Progress::Advanced));
    assert_eq!(handler.state.outgoing(), b"PONG\n");
    assert_eq!(handler.handle(Turn::Read(b""), 10), Err(ProtocolError::UnexpectedEof));
}

#[test]
fn a_key_is_made_from_what_the_generator_gave() {
    let material: Vec<u8> = (0u8..32).collect();
    assert_eq!(
        secret_key_of(Some(material.clone())),
        Some(b"AAECAwQFBgcICQoLDA0ODxAREhMUFRYXGBkaGxwdHh8=".to_vec())
    );
    assert_eq!(secret_key_of(None), None);
    assert_eq!(secret_key_of(Some(material[..31].to_vec())), None);
    assert_eq!(secret_key_of(Some(Vec::new())), None);
    let mut longer = material;
    longer.push(32);
    assert_eq!(secret_key_of(Some(longer)), None);
}

#[test]
fn cursors_return_to_the_start_at_a_phase_boundary() {
    let mut state = accepting(0);
    assert_eq!((state.io.read_pos, state.io.write_pos, state.io.write_len), (0, 0, 0));
    handle_client_readable_data(&mut state, b"PI", 1).unwrap();
    assert_eq!(state.io.read_pos, 2);
    handle_client_readable_data(&mut state, b"NG\n", 1).unwrap();
    assert_eq!((state.io.read_pos, state.io.write_pos, state.io.write_len), (0, 0, 5));
    handle_client_writable_data(&mut state, 2, 2).unwrap();
    assert_eq!((state.io.read_pos, state.io.write_pos, state.io.write_len), (0, 2, 5));
    handle_client_writable_data(&mut state, 3, 2).unwrap();
    assert_eq!((state.io.read_pos, state.io.write_pos, state.io.write_len), (0, 0, 0));
}

#[test]
fn every_chunk_of_a_timed_download_ends_in_a_flag() {
    let mut state = accepting(0);
    handle_client_readable_data(&mut state, b"GETTIME 1 8192\n", 0).unwrap();
    let mut now = 0u64;
    let mut sent = 0;
    while state.measurement_state == ServerTestPhase::GetTimeSendChunk {
        let last = *state.io.chunk_buffer.last().unwrap();
        assert!(last == 0x00 || last == 0xFF);
        assert_eq!(state.outgoing().len(), 8192);
        now += 300_000_000;
        handle_client_writable_data(&mut state, 8192, now).unwrap();
        sent += 1;
    }
    assert_eq!(sent, 5);
    assert_eq!(state.download_bytes, 5 * 8192);
}
