use nettest::privileges::{
    daemonize, DaemonRole, Forked, PrivilegeError, PrivilegeStep, UserPrivileges,
};
use nettest::report::{
    add_client_uuid, contains_client_uuid, is_ip_address, is_success, ClientConfig,
    ConnectionType, MeasurementSaver,
};
use nettest::stats::{
    aggregate, median, middle_speed, received_by, sort_samples, speed, RunResult, StreamResult,
};
use nettest::stream::rustls::{AfterDrain, AfterPull, Pulled, ReadStart, RustlsStream};
use nettest::stream::stream::Stream;
use nettest::stream::tokio::{FrameAction, FrameKind, Stream as TaskStream, UpgradeError};
use nettest::stream::websocket::{sec_websocket_key, server_handshake_response, HandshakeError};

const REQUEST: &[u8] = b"GET / HTTP/1.1\r\nHost: localhost\r\nConnection: Upgrade\r\nUpgrade: websocket\r\nSec-WebSocket-Version: 13\r\nSec-WebSocket-Key: dGhlIHNhbXBsZSBub25jZQ==\r\n\r\n";

fn config(server: Option<&str>) -> ClientConfig {
    ClientConfig {
        use_tls: false,
        use_websocket: false,
        thread_count: 1,
        server: server.map(|s| s.to_string()),
        control_server: "https://control.example".to_string(),
        client_uuid: None,
        git_hash: None,
        signed_result: false,
    }
}

#[test]
fn connection_types() {
    let names: Vec<&str> = [
        ConnectionType::TCP,
        ConnectionType::TLS,
        ConnectionType::WS,
        ConnectionType::WSS,
    ]
    .iter()
    .map(|t| t.as_str())
    .collect();
    assert_eq!(names, vec!["TCP", "TLS", "WS", "WSS"]);
    for (tls, ws, expected) in [
        (false, false, ConnectionType::TCP),
        (true, false, ConnectionType::TLS),
        (false, true, ConnectionType::WS),
        (true, true, ConnectionType::WSS),
    ] {
        let mut c = config(None);
        c.use_tls = tls;
        c.use_websocket = ws;
        c.thread_count = 3;
        c.git_hash = Some("abc".to_string());
        c.client_uuid = Some("id".to_string());
        let saver = MeasurementSaver::new(&c);
        assert_eq!(saver.connection_type, expected);
        assert_eq!(saver.threads_number, 3);
        assert_eq!(saver.git_hash.as_deref(), Some("abc"));
        assert_eq!(saver.client_uuid.as_deref(), Some("id"));
        assert_eq!(saver.client_config.control_server, "https://control.example");
    }
}

#[test]
fn single_stream_yields_all_three_numbers() {
    let streams = vec![StreamResult {
        pings: vec![300, 100, 200],
        download_samples: vec![],
        download_bytes: 250_000_000,
        download_time: Some(2_000_000_000),
        upload_bytes: 125_000_000,
        upload_time: Some(2_000_000_000),
    }];
    assert_eq!(
        aggregate(&streams),
        RunResult { ping_median: Some(200), download_speed: Some(100), upload_speed: Some(50) }
    );
}

#[test]
fn streams_are_aggregated() {
    let streams = vec![
        StreamResult {
            pings: vec![40, 10],
            download_samples: vec![],
            download_bytes: 1_000_000,
            download_time: Some(1_000_000_000),
            upload_bytes: 0,
            upload_time: None,
        },
        StreamResult {
            pings: vec![30, 20],
            download_samples: vec![],
            download_bytes: 3_000_000,
            download_time: Some(2_000_000_000),
            upload_bytes: 10,
            upload_time: None,
        },
    ];
    let r = aggregate(&streams);
    assert_eq!(r.ping_median, Some(25));
    assert_eq!(r.download_speed, Some(2));
    assert_eq!(r.upload_speed, None);
    assert_eq!(
        aggregate(&Vec::new()),
        RunResult { ping_median: None, download_speed: None, upload_speed: None }
    );
}

#[test]
fn medians_and_sorting() {
    assert_eq!(median(&vec![]), None);
    assert_eq!(median(&vec![7]), Some(7));
    assert_eq!(median(&vec![9, 1]), Some(5));
    assert_eq!(median(&vec![2, 1]), Some(1));
    assert_eq!(median(&vec![5, 3, 1, 4, 2]), Some(3));
    assert_eq!(median(&vec![u64::MAX, u64::MAX]), Some(u64::MAX));
    assert_eq!(sort_samples(&vec![3, 1, 2, 3, 0]), vec![0, 1, 2, 3, 3]);
}

#[test]
fn speeds_as_reported() {
    assert_eq!(speed(1, 0), None);
    assert_eq!(speed(0, 1), Some(0));
    assert_eq!(speed(125_000_000, 1_000_000_000), Some(100));
    assert_eq!(speed(7_162_500_000, 1_000_000_000), Some(5730));
    assert_eq!(speed(624_999, 1_000_000_000), Some(0));
    assert_eq!(speed(625_000, 1_000_000_000), Some(1));
    assert_eq!(speed(u64::MAX, 1), Some(i32::MAX));
}

#[test]
fn server_address_for_the_report() {
    let saver = MeasurementSaver::new(&config(None));
    assert!(!saver.needs_lookup());
    assert_eq!(saver.resolve_server_ip(Some("1.1.1.1".to_string())), None);

    let saver = MeasurementSaver::new(&config(Some("10.1.2.3")));
    assert!(!saver.needs_lookup());
    assert_eq!(saver.resolve_server_ip(Some("9.9.9.9".to_string())).as_deref(), Some("10.1.2.3"));

    let saver = MeasurementSaver::new(&config(Some("server.example")));
    assert!(saver.needs_lookup());
    assert_eq!(saver.resolve_server_ip(Some("9.9.9.9".to_string())).as_deref(), Some("9.9.9.9"));
    assert_eq!(saver.resolve_server_ip(None).as_deref(), Some("server.example"));

    assert!(is_ip_address("2001:db8::1"));
    assert!(is_ip_address("127.0.0.1"));
    assert!(!is_ip_address("localhost"));
    assert!(!is_ip_address("1.2.3"));
    assert!(!is_ip_address("12:34"));
    assert!(is_ip_address("::ffff:10.0.0.1"));
}

#[test]
fn commit_and_envelopes_in_the_report() {
    let mut c = config(Some("10.0.0.1"));
    c.git_hash = Some("cafe".to_string());
    let saver = MeasurementSaver::new(&c);
    assert_eq!(saver.commit_hash(Some("env".to_string())).as_deref(), Some("cafe"));
    let m = saver.save_measurement_with_speeds(
        "client".to_string(),
        "open".to_string(),
        1700000000,
        Some(5),
        Some(5730),
        None,
        vec![Some("envelope".to_string())],
        None,
        Some("env".to_string()),
    );
    assert_eq!(m.client_uuid, "client");
    assert_eq!(m.open_test_uuid, "open");
    assert_eq!(m.time, 1700000000);
    assert_eq!(m.ping_median, Some(5));
    assert_eq!(m.speed_download, Some(5730));
    assert_eq!(m.speed_upload, None);
    assert_eq!(m.client_version, "2.0.0");
    assert_eq!(m.connection_type, ConnectionType::TCP);
    assert_eq!(m.threads_number, 1);
    assert_eq!(m.signed_data, None);
    assert_eq!(m.measurement_server_ip.as_deref(), Some("10.0.0.1"));
    assert_eq!(m.commit_hash.as_deref(), Some("cafe"));

    let saver = MeasurementSaver::new(&config(None));
    assert_eq!(saver.commit_hash(Some("env".to_string())).as_deref(), Some("env"));
    assert_eq!(saver.commit_hash(None), None);
    assert!(is_success(200) && is_success(204) && is_success(299));
    assert!(!is_success(199) && !is_success(300) && !is_success(404) && !is_success(500));
}

#[test]
fn client_identity_in_the_configuration_file() {
    assert!(!contains_client_uuid(b""));
    assert!(!contains_client_uuid(b"server=1\n# client_uuid=\"x\"\n"));
    assert!(contains_client_uuid(b"client_uuid=\"x\"\n"));
    assert!(contains_client_uuid(b"server=1\n  \tclient_uuid = \"x\""));
    assert!(contains_client_uuid(b"a\r\nclient_uuid=1\r\n"));
    assert!(!contains_client_uuid(b"my_client_uuid=1\n"));

    assert_eq!(add_client_uuid(b"", b"u-1"), b"client_uuid=\"u-1\"\n".to_vec());
    assert_eq!(add_client_uuid(b"a=1\n", b"u-1"), b"a=1\nclient_uuid=\"u-1\"\n".to_vec());
    assert_eq!(add_client_uuid(b"a=1", b"u-1"), b"a=1\nclient_uuid=\"u-1\"\n".to_vec());

    let mut c = config(None);
    c.client_uuid = Some("kept".to_string());
    let mut saver = MeasurementSaver::new(&c);
    assert_eq!(saver.ensure_client_uuid(b"a=1\n"), ("kept".to_string(), None));

    let mut saver = MeasurementSaver::new(&config(None));
    let (uuid, write) = saver.adopt_client_uuid(b"a=1", "fresh".to_string());
    assert_eq!(uuid, "fresh");
    assert_eq!(write, Some(b"a=1\nclient_uuid=\"fresh\"\n".to_vec()));
    assert_eq!(saver.client_uuid.as_deref(), Some("fresh"));

    let mut saver = MeasurementSaver::new(&config(None));
    let (uuid, write) = saver.ensure_client_uuid(b"client_uuid=\"old\"\n");
    assert_eq!(uuid.len(), 36);
    assert_eq!(uuid.matches('-').count(), 4);
    assert_eq!(write, None);
    assert_eq!(saver.client_uuid, Some(uuid.clone()));
    let mut other = MeasurementSaver::new(&config(None));
    let (second, write) = other.ensure_client_uuid(b"");
    assert_ne!(second, uuid);
    assert_eq!(write, Some(format!("client_uuid=\"{}\"\n", second).into_bytes()));
}

#[test]
fn privileges() {
    assert_eq!(UserPrivileges::check_root(0), Ok(()));
    assert_eq!(UserPrivileges::check_root(1000), Err(PrivilegeError::PermissionDenied));
    assert_eq!(
        UserPrivileges::new("nobody", Some((65534, 65533))),
        Ok(UserPrivileges { uid: 65534, gid: 65533 })
    );
    assert_eq!(UserPrivileges::new("ghost", None), Err(PrivilegeError::NotFound));
    assert_eq!(UserPrivileges::new("a\0b", Some((1, 1))), Err(PrivilegeError::InvalidInput));
    let p = UserPrivileges { uid: 7, gid: 8 };
    assert_eq!(p.drop_privileges(), (PrivilegeStep::SetGroup(8), PrivilegeStep::SetUser(7)));
    assert_eq!(UserPrivileges::step_result(PrivilegeStep::SetGroup(8), 0), Ok(()));
    assert_eq!(
        UserPrivileges::step_result(PrivilegeStep::SetGroup(8), -1),
        Err(PrivilegeError::FailedToSetGroup)
    );
    assert_eq!(
        UserPrivileges::step_result(PrivilegeStep::SetUser(7), 1),
        Err(PrivilegeError::FailedToSetUser)
    );
    assert_eq!(PrivilegeError::FailedToSetGroup.to_string(), "Error: failed to set group");
    assert_eq!(PrivilegeError::PermissionDenied.to_string(), "Error: must be root to use option -u");
    assert_eq!(daemonize(Forked::Parent), Ok(DaemonRole::Exit));
    assert_eq!(daemonize(Forked::Child), Ok(DaemonRole::Detach));
    assert_eq!(daemonize(Forked::Failed), Err(PrivilegeError::ForkFailed));
}

#[test]
fn stream_variants() {
    assert_eq!(Stream::new_tcp(), Stream::Tcp);
    assert_eq!(Stream::new_websocket(), Stream::WebSocket);
    assert_eq!(Stream::new_rustls(), Stream::Rustls);
    assert_eq!(Stream::new_rustls_server(), Stream::RustlsServer);
    assert_eq!(Stream::new_openssl(), Stream::OpenSsl);
    assert_eq!(Stream::new_websocket_tls(), Stream::WebSocketTls);
    assert_eq!(Stream::for_client(false, false), Stream::Tcp);
    assert_eq!(Stream::for_client(true, false), Stream::Rustls);
    assert_eq!(Stream::for_client(false, true), Stream::WebSocket);
    let all = [
        (Stream::Tcp, "Tcp", Stream::WebSocket, false, false),
        (Stream::OpenSsl, "OpenSsl", Stream::OpenSsl, false, true),
        (Stream::WebSocket, "WebSocket", Stream::WebSocket, true, true),
        (Stream::Rustls, "Rustls", Stream::Rustls, false, false),
        (Stream::WebSocketTls, "WebSocketTls", Stream::WebSocketTls, false, true),
        (Stream::RustlsServer, "RustlsServer", Stream::WebSocketRustlsServer, false, false),
        (
            Stream::WebSocketRustlsServer,
            "WebSocketRustlsServer",
            Stream::WebSocketRustlsServer,
            true,
            false,
        ),
    ];
    for (stream, name, upgraded, handshake, closes) in all {
        assert_eq!(stream.return_type(), name);
        assert_eq!(stream.upgrade_to_websocket(), upgraded);
        let sent = stream.finish_server_handshake(REQUEST).unwrap();
        assert_eq!(sent.is_some(), handshake);
        assert_eq!(stream.close(), closes);
        assert!(stream.get_greeting().starts_with(b"GET /rmbt HTTP/1.1 \r\n"));
        assert!(stream.get_greeting().ends_with(b"RMBT-Version: 1.2.0\r\n\r\n"));
    }
}

#[test]
fn task_stream_variants_and_frames() {
    assert_eq!(TaskStream::Plain.to_string(), "Plain");
    assert_eq!(TaskStream::Tls.to_string(), "TLS");
    assert_eq!(TaskStream::WebSocket.to_string(), "WebSocket");
    assert_eq!(TaskStream::WebSocketTls.to_string(), "WebSocketTLS");
    let ok = b"HTTP/1.1 101 Switching Protocols\r\n\r\n";
    assert_eq!(TaskStream::Plain.upgrade_to_websocket(ok), Ok(TaskStream::WebSocket));
    assert_eq!(TaskStream::Tls.upgrade_to_websocket(ok), Ok(TaskStream::WebSocketTls));
    assert_eq!(
        TaskStream::Plain.upgrade_to_websocket(b"HTTP/1.1 400 Bad Request\r\n\r\n"),
        Err(UpgradeError::InvalidData)
    );
    assert_eq!(TaskStream::WebSocket.upgrade_to_websocket(ok), Err(UpgradeError::InvalidInput));
    assert_eq!(TaskStream::WebSocketTls.upgrade_to_websocket(ok), Err(UpgradeError::InvalidInput));
    let request = TaskStream::Plain.upgrade_request();
    assert!(request.starts_with(b"GET / HTTP/1.1\r\nHost: localhost\r\n"));
    assert!(request.ends_with(b"Sec-WebSocket-Key: dGhlIHNhbXBsZSBub25jZQ==\r\n\r\n"));

    assert_eq!(TaskStream::write(0), FrameKind::Binary);
    assert_eq!(TaskStream::write(1), FrameKind::Binary);
    assert_eq!(TaskStream::write(2), FrameKind::Text);
    assert_eq!(TaskStream::write(3), FrameKind::Text);
    assert_eq!(TaskStream::write(4093), FrameKind::Text);
    assert_eq!(TaskStream::write(4094), FrameKind::Binary);
    assert_eq!(TaskStream::write(4096), FrameKind::Binary);
    assert_eq!(TaskStream::write_all(5), FrameKind::Text);
    assert_eq!(TaskStream::write_all(4194304), FrameKind::Binary);

    assert_eq!(TaskStream::read(FrameKind::Binary, 10, 4), FrameAction::Deliver(4));
    assert_eq!(TaskStream::read(FrameKind::Text, 3, 4), FrameAction::Deliver(3));
    assert_eq!(TaskStream::read(FrameKind::Text, 0, 4), FrameAction::Deliver(0));
    assert_eq!(TaskStream::read(FrameKind::Other, 3, 4), FrameAction::Skip);
    assert_eq!(TaskStream::read(FrameKind::Other, 0, 0), FrameAction::Skip);
    assert!(TaskStream::Plain.flush() && TaskStream::Tls.flush());
    assert!(!TaskStream::WebSocket.flush() && !TaskStream::WebSocketTls.flush());
}

#[test]
fn tls_plaintext_is_carried_across_reads() {
    let mut s = RustlsStream::new();
    assert!(s.finished && !s.handshake_done && s.temp_buf.is_empty());
    assert_eq!(s.read(), ReadStart::Pull);
    assert_eq!(s.after_pull(Pulled::WouldBlock), AfterPull::Block);
    assert_eq!(s.after_pull(Pulled::Failed), AfterPull::Fail);
    assert_eq!(s.after_pull(Pulled::Closed), AfterPull::Eof);
    assert_eq!(s.after_pull(Pulled::Data), AfterPull::Process);
    assert!(s.perform_handshake());
    assert!(!s.perform_handshake());
    assert_eq!(s.after_drain(true), AfterDrain::Retry);
    assert_eq!(s.after_drain(false), AfterDrain::Eof);
    s.absorb(b"hello ");
    s.absorb(b"world");
    assert_eq!(s.after_drain(true), AfterDrain::Deliver);
    assert_eq!(s.after_drain(false), AfterDrain::Deliver);
    assert_eq!(s.read(), ReadStart::Serve);
    assert_eq!(s.after_pull(Pulled::WouldBlock), AfterPull::Deliver);
    assert_eq!(s.after_pull(Pulled::Closed), AfterPull::Deliver);
    assert_eq!(s.after_pull(Pulled::Failed), AfterPull::Fail);
    assert_eq!(s.after_pull(Pulled::Data), AfterPull::Process);
    assert_eq!(s.deliver(4), b"hell".to_vec());
    assert_eq!(s.temp_buf, b"o world".to_vec());
    assert_eq!(s.deliver(100), b"o world".to_vec());
    assert!(s.temp_buf.is_empty());
    assert_eq!(s.deliver(100), Vec::<u8>::new());
}

#[test]
fn tls_blocked_write_holds_one_byte_back() {
    let mut s = RustlsStream::new();
    assert_eq!(s.write(), 0);
    assert_eq!(s.blocked(100), 99);
    assert!(!s.finished);
    assert_eq!(s.write(), 1);
    assert!(s.finished);
    assert_eq!(s.write(), 0);
    assert_eq!(s.blocked(0), 0);
    assert!(s.finished);
    assert_eq!(s.blocked(1), 0);
    assert!(!s.finished);
    assert_eq!(s.completed(7), 7);
    assert!(s.finished);

    let mut reported = 0usize;
    let mut taken = 0usize;
    let mut s = RustlsStream::new();
    for (accepted, blocks) in [(10usize, true), (5, true), (0, false), (7, false), (3, true)] {
        let total = s.write() + accepted;
        taken += accepted;
        reported += if blocks { s.blocked(total) } else { s.completed(total) };
        assert_eq!(taken, reported + if s.finished { 0 } else { 1 });
    }
    assert_eq!(taken, 25);
    assert_eq!(reported, 24);
}

#[test]
fn download_speed_over_the_stable_middle() {
    let second = 1_000_000_000u64;
    let ramp = |rate: u64, until: u64| -> Vec<(u64, u64)> {
        (1..=until).map(|k| (k * second, if k <= 2 { k * rate / 10 } else { (k - 2) * rate + rate / 5 })).collect()
    };
    let series = ramp(125_000_000, 10);
    assert_eq!(received_by(&series, 0), 0);
    assert_eq!(received_by(&series, second), 12_500_000);
    assert_eq!(received_by(&series, 2 * second + 5), 25_000_000);
    assert_eq!(received_by(&series, 8 * second), 775_000_000);
    assert_eq!(received_by(&series, 99 * second), 1_025_000_000);

    let one = vec![StreamResult {
        pings: vec![],
        download_samples: series.clone(),
        download_bytes: 1_025_000_000,
        download_time: Some(10 * second),
        upload_bytes: 0,
        upload_time: None,
    }];
    assert_eq!(middle_speed(&one), Some(100));
    assert_eq!(aggregate(&one).download_speed, Some(100));
    assert_eq!(speed(1_025_000_000, 10 * second), Some(82));

    let two = vec![
        StreamResult {
            pings: vec![],
            download_samples: series,
            download_bytes: 1_025_000_000,
            download_time: Some(10 * second),
            upload_bytes: 0,
            upload_time: None,
        },
        StreamResult {
            pings: vec![],
            download_samples: ramp(250_000_000, 20),
            download_bytes: 0,
            download_time: Some(20 * second),
            upload_bytes: 0,
            upload_time: None,
        },
    ];
    assert_eq!(middle_speed(&two), Some(300));

    let empty = vec![StreamResult {
        pings: vec![],
        download_samples: vec![],
        download_bytes: 10,
        download_time: None,
        upload_bytes: 0,
        upload_time: None,
    }];
    assert_eq!(middle_speed(&empty), None);
    assert_eq!(middle_speed(&Vec::new()), None);
    let short = vec![StreamResult {
        pings: vec![],
        download_samples: vec![(0, 4096)],
        download_bytes: 4096,
        download_time: Some(2),
        upload_bytes: 0,
        upload_time: None,
    }];
    assert_eq!(middle_speed(&short), None);
    assert_eq!(aggregate(&short).download_speed, speed(4096, 2));
}

#[test]
fn websocket_handshake_is_answered_for_the_key() {
    assert_eq!(sec_websocket_key(REQUEST), Some(b"dGhlIHNhbXBsZSBub25jZQ==".to_vec()));
    assert_eq!(
        server_handshake_response(REQUEST),
        Ok(b"HTTP/1.1 101 Switching Protocols\r\nUpgrade: websocket\r\nConnection: Upgrade\r\nSec-WebSocket-Accept: s3pPLMBiTxaQ9kYGzzhZRbK+xOo=\r\n\r\n".to_vec())
    );
    assert_eq!(
        Stream::WebSocket.finish_server_handshake(REQUEST),
        server_handshake_response(REQUEST).map(Some)
    );
    assert_eq!(Stream::Tcp.finish_server_handshake(b"GET / HTTP/1.1\r\n\r\n"), Ok(None));
    assert_eq!(
        Stream::WebSocketRustlsServer.finish_server_handshake(b"GET / HTTP/1.1\r\n\r\n"),
        Err(HandshakeError::MissingKey)
    );
    assert_eq!(sec_websocket_key(b"Sec-WebSocket-Key:\t abc \r\n"), Some(b"abc ".to_vec()));
    assert_eq!(sec_websocket_key(b"Sec-WebSocket-Key: \r\n"), None);
    assert_eq!(sec_websocket_key(b"Sec-WebSocket-Key: abc"), None);
    assert_eq!(sec_websocket_key(b"sec-websocket-key: abc\r\n"), None);
}

#[test]
fn tls_plaintext_buffered_at_the_end_of_the_stream_is_still_delivered() {
    let mut s = RustlsStream::new();
    s.absorb(b"TIME 12\n");
    let mut got = Vec::new();
    let mut reads = 0;
    loop {
        reads += 1;
        let step = match s.read() {
            ReadStart::Serve => AfterPull::Deliver,
            ReadStart::Pull => s.after_pull(Pulled::Closed),
        };
        match step {
            AfterPull::Deliver => {
                let part = s.deliver(3);
                assert!(!part.is_empty() && part.len() <= 3);
                got.extend_from_slice(&part);
            }
            AfterPull::Eof => break,
            other => panic!("{:?}", other),
        }
    }
    assert_eq!(got, b"TIME 12\n".to_vec());
    assert_eq!(reads, 4);
    assert!(s.temp_buf.is_empty());
    assert_eq!(s.after_pull(Pulled::Closed), AfterPull::Eof);
    assert_eq!(s.after_pull(Pulled::WouldBlock), AfterPull::Block);
}
