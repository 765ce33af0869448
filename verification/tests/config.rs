use nettest::config::{
    parse_listen_address, ConfigError, ListenAddress, ListenHost, RmbtServerConfig,
};

fn create_test_args(args: &[&str]) -> Vec<String> {
    let mut vec = vec!["test_program".to_string()];
    vec.extend(args.iter().map(|&s| s.to_string()));
    vec
}

#[test]
fn test_parse_listen_address_ipv6() {
    let addr = parse_listen_address("[::1]:8080").unwrap();
    assert_eq!(addr.host, ListenHost::V6([0, 0, 0, 0, 0, 0, 0, 1]));
    assert_eq!(addr.port, 8080);
}

#[test]
fn test_parse_listen_address_ipv4() {
    let addr = parse_listen_address("127.0.0.1:8080").unwrap();
    assert_eq!(addr.host, ListenHost::V4(127, 0, 0, 1));
    assert_eq!(addr.port, 8080);
}

#[test]
fn test_parse_listen_address_port_only() {
    let addr = parse_listen_address("8080").unwrap();
    assert_eq!(addr.host, ListenHost::Unspecified);
    assert_eq!(addr.port, 8080);
}

#[test]
fn test_parse_listen_address_invalid() {
    assert!(parse_listen_address("invalid").is_err());
    assert!(parse_listen_address("127.0.0.1:invalid").is_err());
    assert!(parse_listen_address("[::1]:invalid").is_err());
}

#[test]
fn test_validate_positive_threads() {
    let args = create_test_args(&["-l", "8080", "-c", "cert.pem", "-k", "key.pem", "-t", "0"]);
    let result = RmbtServerConfig::from_args_vec(args, false);
    assert!(result.is_err());
    assert!(result
        .unwrap_err()
        .to_string()
        .contains("Number of threads (-t) must be positive"));
}

#[test]
fn test_validate_tls_config_without_cert() {
    let args = create_test_args(&["-L", "8443", "-k", "key.pem"]);
    let result = RmbtServerConfig::from_args_vec(args, false);
    assert!(result.is_err());
    assert!(result
        .unwrap_err()
        .to_string()
        .contains("Need path to certificate (-c) for TLS connections"));
}

#[test]
fn test_validate_tls_config_without_key() {
    let args = create_test_args(&["-L", "8443", "-c", "cert.pem"]);
    let result = RmbtServerConfig::from_args_vec(args, false);
    assert!(result.is_err());
    assert!(result
        .unwrap_err()
        .to_string()
        .contains("Need path to key (-k) for TLS connections"));
}

#[test]
fn test_valid_config() {
    let args = create_test_args(&[
        "-l", "8080", "-L", "8443", "-c", "cert.pem", "-k", "key.pem", "-t", "100",
    ]);
    let config = RmbtServerConfig::from_args_vec(args, false).unwrap();

    assert_eq!(config.listen_addresses.len(), 1);
    assert_eq!(config.ssl_listen_addresses.len(), 1);
    assert_eq!(config.listen_addresses[0].port, 8080);
    assert_eq!(config.ssl_listen_addresses[0].port, 8443);
    assert_eq!(config.cert_path.unwrap(), "cert.pem");
    assert_eq!(config.key_path.unwrap(), "key.pem");
    assert_eq!(config.num_threads, 100);
}

#[test]
fn test_duplicate_cert() {
    let args = create_test_args(&[
        "-l",
        "8080",
        "-c",
        "cert1.pem",
        "-c",
        "cert2.pem",
        "-k",
        "key.pem",
    ]);
    let result = RmbtServerConfig::from_args_vec(args, false);
    assert!(result.is_err());
    assert!(result
        .unwrap_err()
        .to_string()
        .contains("only one -c is allowed"));
}

#[test]
fn test_duplicate_key() {
    let args = create_test_args(&[
        "-l", "8080", "-c", "cert.pem", "-k", "key1.pem", "-k", "key2.pem",
    ]);
    let result = RmbtServerConfig::from_args_vec(args, false);
    assert!(result.is_err());
    assert!(result
        .unwrap_err()
        .to_string()
        .contains("only one -k is allowed"));
}

#[test]
fn test_invalid_version() {
    let args =
        create_test_args(&["-l", "8080", "-c", "cert.pem", "-k", "key.pem", "-v", "1.0"]);
    let result = RmbtServerConfig::from_args_vec(args, false);
    assert!(result.is_err());
    assert!(result
        .unwrap_err()
        .to_string()
        .contains("unsupported version"));
}

#[test]
fn defaults_apply_where_no_listener_is_given() {
    let config = RmbtServerConfig::from_args_vec(create_test_args(&[]), false).unwrap();
    assert_eq!(
        config.listen_addresses,
        vec![ListenAddress { host: ListenHost::Unspecified, port: 5005 }]
    );
    assert!(config.ssl_listen_addresses.is_empty());
    assert_eq!(config.num_threads, 200);
    assert_eq!(config.version, None);

    let args = create_test_args(&["-c", "cert.pem", "-k", "key.pem"]);
    let config = RmbtServerConfig::from_args_vec(args, false).unwrap();
    assert_eq!(config.listen_addresses.len(), 1);
    assert_eq!(config.listen_addresses[0].port, 5005);
    assert_eq!(
        config.ssl_listen_addresses,
        vec![ListenAddress { host: ListenHost::Unspecified, port: 8080 }]
    );
}

#[test]
fn a_given_listener_overrides_the_default() {
    let config =
        RmbtServerConfig::from_args_vec(create_test_args(&["-l", "1.2.3.4:1234"]), false).unwrap();
    assert_eq!(
        config.listen_addresses,
        vec![ListenAddress { host: ListenHost::V4(1, 2, 3, 4), port: 1234 }]
    );
    assert!(config.ssl_listen_addresses.is_empty());
}

#[test]
fn switches_and_legacy_version() {
    let args = create_test_args(&["-d", "-D", "-w", "-v", "0.3", "-t", "7"]);
    let config = RmbtServerConfig::from_args_vec(args, false).unwrap();
    assert!(config.daemon && config.debug && config.websocket);
    assert_eq!(config.version, Some(3));
    assert_eq!(config.num_threads, 7);
    assert!(!config.user_privileges);
}

#[test]
fn every_refusal_has_its_input() {
    let parse = |args: &[&str], root: bool| {
        RmbtServerConfig::from_args_vec(create_test_args(args), root).unwrap_err()
    };
    assert_eq!(parse(&["-x"], false), ConfigError::UnknownOption(1));
    assert_eq!(parse(&["-d", "--help"], false), ConfigError::HelpRequested);
    assert_eq!(parse(&["-l", "nowhere"], false), ConfigError::InvalidAddress(2));
    assert_eq!(parse(&["-t", "many"], false), ConfigError::InvalidThreadCount(2));
    assert_eq!(parse(&["-t", "0"], false), ConfigError::NoThreads);
    assert_eq!(parse(&["-c", "a", "-c", "b"], false), ConfigError::DuplicateCert);
    assert_eq!(parse(&["-k", "a", "-k", "b"], false), ConfigError::DuplicateKey);
    assert_eq!(parse(&["-v", "0.3", "-v", "0.3"], false), ConfigError::DuplicateVersion);
    assert_eq!(parse(&["-v", "0.4"], false), ConfigError::UnsupportedVersion(2));
    assert_eq!(parse(&["-u", "nobody"], false), ConfigError::NotRoot);
    assert_eq!(parse(&["-u"], true), ConfigError::MissingUser);
    assert_eq!(parse(&["-u", "a", "-u", "b"], true), ConfigError::DuplicateUser);
    assert_eq!(parse(&["-L", "8443"], false), ConfigError::MissingCert);
    assert_eq!(parse(&["-L", "8443", "-c", "c"], false), ConfigError::MissingKey);
}

#[test]
fn user_is_taken_as_root_and_the_next_option_is_read() {
    let args = create_test_args(&["-u", "nobody", "-d"]);
    let config = RmbtServerConfig::from_args_vec(args, true).unwrap();
    assert!(config.user_privileges);
    assert_eq!(config.user.as_deref(), Some("nobody"));
    assert!(config.daemon);
}

#[test]
fn help_anywhere_wins_in_from_args() {
    let args = create_test_args(&["-x", "-h"]);
    assert_eq!(RmbtServerConfig::from_args(args, false).unwrap_err(), ConfigError::HelpRequested);
    let args = create_test_args(&["-l", "8080"]);
    assert!(RmbtServerConfig::from_args(args, false).is_ok());
}

#[test]
fn an_option_at_the_end_without_its_value_is_passed_over() {
    let config = RmbtServerConfig::from_args_vec(create_test_args(&["-d", "-t"]), false).unwrap();
    assert!(config.daemon);
    assert_eq!(config.num_threads, 200);
}

#[test]
fn listen_address_edges() {
    assert!(parse_listen_address("256.0.0.1:80").is_err());
    assert!(parse_listen_address("01.2.3.4:80").is_err());
    assert!(parse_listen_address("1.2.3:80").is_err());
    assert!(parse_listen_address("1.2.3.4:65536").is_err());
    assert!(parse_listen_address("[::1]8080").is_err());
    assert!(parse_listen_address("[]:8080").is_err());
    assert!(parse_listen_address("[12345]:8080").is_err());
    assert!(parse_listen_address("[:::]:8080").is_err());
    assert!(parse_listen_address("[zz::1]:8080").is_err());
    assert!(parse_listen_address("").is_err());
    let a = parse_listen_address("0.0.0.0:65535").unwrap();
    assert_eq!(a, ListenAddress { host: ListenHost::V4(0, 0, 0, 0), port: 65535 });
    let b = parse_listen_address("[2001:1234::567A]:1234").unwrap();
    assert_eq!(b.host, ListenHost::V6([0x2001, 0x1234, 0, 0, 0, 0, 0, 0x567a]));
    assert_eq!(b.port, 1234);
    assert_eq!(parse_listen_address("+443").unwrap().port, 443);
}

#[test]
fn default_configuration() {
    let config = RmbtServerConfig::default();
    assert_eq!(
        config.listen_addresses,
        vec![ListenAddress { host: ListenHost::V4(127, 0, 0, 1), port: 8080 }]
    );
    assert_eq!(config.num_threads, 4);
    assert_eq!(config.version, Some(1));
}

#[test]
fn ipv6_texts() {
    let cases: [(&str, Option<[u16; 8]>); 51] = [
        ("::", Some([0x0, 0x0, 0x0, 0x0, 0x0, 0x0, 0x0, 0x0])),
        ("::1", Some([0x0, 0x0, 0x0, 0x0, 0x0, 0x0, 0x0, 0x1])),
        ("1::", Some([0x1, 0x0, 0x0, 0x0, 0x0, 0x0, 0x0, 0x0])),
        ("1::2", Some([0x1, 0x0, 0x0, 0x0, 0x0, 0x0, 0x0, 0x2])),
        ("1:2:3:4:5:6:7:8", Some([0x1, 0x2, 0x3, 0x4, 0x5, 0x6, 0x7, 0x8])),
        ("1:2:3:4:5:6:7::", Some([0x1, 0x2, 0x3, 0x4, 0x5, 0x6, 0x7, 0x0])),
        ("::2:3:4:5:6:7:8", Some([0x0, 0x2, 0x3, 0x4, 0x5, 0x6, 0x7, 0x8])),
        ("1::3:4:5:6:7:8", Some([0x1, 0x0, 0x3, 0x4, 0x5, 0x6, 0x7, 0x8])),
        ("1:2:3:4:5:6:7:8::", None),
        ("::1:2:3:4:5:6:7:8", None),
        ("1:2:3:4:5:6:7", None),
        ("1:2:3:4:5:6:7:8:9", None),
        ("2001:db8::ff00:42:8329", Some([0x2001, 0xdb8, 0x0, 0x0, 0x0, 0xff00, 0x42, 0x8329])),
        ("2001:DB8::FF00:42:8329", Some([0x2001, 0xdb8, 0x0, 0x0, 0x0, 0xff00, 0x42, 0x8329])),
        ("0000:0000:0000:0000:0000:0000:0000:0001", Some([0x0, 0x0, 0x0, 0x0, 0x0, 0x0, 0x0, 0x1])),
        ("00000::1", None),
        ("12345::", None),
        ("g::1", None),
        (":1", None),
        ("1:", None),
        (":", None),
        ("", None),
        (":::", None),
        ("1:::2", None),
        ("1::2::3", None),
        ("::ffff:1.2.3.4", Some([0x0, 0x0, 0x0, 0x0, 0x0, 0xffff, 0x102, 0x304])),
        ("::1.2.3.4", Some([0x0, 0x0, 0x0, 0x0, 0x0, 0x0, 0x102, 0x304])),
        ("1.2.3.4::", None),
        ("1:2:3:4:5:6:1.2.3.4", Some([0x1, 0x2, 0x3, 0x4, 0x5, 0x6, 0x102, 0x304])),
        ("1:2:3:4:5:6:7:1.2.3.4", None),
        ("1:2:3:4:5:1.2.3.4", None),
        ("::1:2:3:4:5:1.2.3.4", Some([0x0, 0x1, 0x2, 0x3, 0x4, 0x5, 0x102, 0x304])),
        ("::1:2:3:4:5:6:1.2.3.4", None),
        ("1::1.2.3.4", Some([0x1, 0x0, 0x0, 0x0, 0x0, 0x0, 0x102, 0x304])),
        ("1:2:3:4:5:6::1.2.3.4", None),
        ("1.2.3.4", None),
        ("::1.2.3", None),
        ("::1.2.3.256", None),
        ("::01.2.3.4", None),
        ("::1.2.3.4:5", None),
        ("1.2.3.4:5::", None),
        ("fe80::1%eth0", None),
        (" ::1", None),
        ("::1 ", None),
        ("ffff:ffff:ffff:ffff:ffff:ffff:ffff:ffff", Some([0xffff, 0xffff, 0xffff, 0xffff, 0xffff, 0xffff, 0xffff, 0xffff])),
        ("ffff:ffff:ffff:ffff:ffff:ffff:255.255.255.255", Some([0xffff, 0xffff, 0xffff, 0xffff, 0xffff, 0xffff, 0xffff, 0xffff])),
        ("a:b:c:d:e:f:0:1", Some([0xa, 0xb, 0xc, 0xd, 0xe, 0xf, 0x0, 0x1])),
        ("A:B:C:D:E:F::", Some([0xa, 0xb, 0xc, 0xd, 0xe, 0xf, 0x0, 0x0])),
        ("::0", Some([0x0, 0x0, 0x0, 0x0, 0x0, 0x0, 0x0, 0x0])),
        ("0::0", Some([0x0, 0x0, 0x0, 0x0, 0x0, 0x0, 0x0, 0x0])),
        ("1:2::3:4::5", None),
    ];
    for (text, expected) in cases {
        let got = match parse_listen_address(&format!("[{}]:80", text)) {
            Ok(ListenAddress { host: ListenHost::V6(groups), port: 80 }) => Some(groups),
            Ok(other) => panic!("{:?} for {}", other, text),
            Err(_) => None,
        };
        assert_eq!(got, expected, "{}", text);
    }
}

#[test]
fn ipv4_texts() {
    let cases: [(&str, Option<[u8; 4]>); 20] = [
        ("0.0.0.0", Some([0, 0, 0, 0])),
        ("255.255.255.255", Some([255, 255, 255, 255])),
        ("1.2.3.4", Some([1, 2, 3, 4])),
        ("01.2.3.4", None),
        ("1.2.3.04", None),
        ("1.2.3", None),
        ("1.2.3.4.5", None),
        ("256.1.1.1", None),
        ("1.1.1.256", None),
        ("1..1.1", None),
        (".1.1.1", None),
        ("1.1.1.", None),
        ("a.b.c.d", None),
        ("1.2.3.4 ", None),
        ("+1.2.3.4", None),
        ("1.2.3.+4", None),
        ("00.0.0.0", None),
        ("0.0.0.00", None),
        ("1000.1.1.1", None),
        ("", None),
    ];
    for (text, expected) in cases {
        let got = match parse_listen_address(&format!("{}:80", text)) {
            Ok(ListenAddress { host: ListenHost::V4(a, b, c, d), port: 80 }) => Some([a, b, c, d]),
            Ok(other) => panic!("{:?} for {}", other, text),
            Err(_) => None,
        };
        assert_eq!(got, expected, "{}", text);
    }
}
