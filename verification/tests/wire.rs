use nettest::chunk::{classify, counted, flag, timed, Terminator, CONTINUE_FLAG, LAST_FLAG};
use nettest::decimal::{parse_decimal, push_decimal, to_decimal};
use nettest::error::ProtocolError;
use nettest::limits::{chunk_size_ok, CHUNK_SIZE, MAX_CHUNK_SIZE, MIN_CHUNK_SIZE};
use nettest::text::{contains_bytes, find, has_prefix, has_suffix, position, same_bytes};
use nettest::wire::{
    chunk_size_message, err_response, get_chunks_command, get_time_command, parse_command,
    parse_time_response, parse_two_numbers, put_command, put_no_result_command, time_response,
    token_command, Command,
};

#[test]
fn decimal_text_of_numbers() {
    assert_eq!(to_decimal(0), b"0".to_vec());
    assert_eq!(to_decimal(7), b"7".to_vec());
    assert_eq!(to_decimal(4096), b"4096".to_vec());
    assert_eq!(to_decimal(u64::MAX), b"18446744073709551615".to_vec());
    let mut out = b"x=".to_vec();
    push_decimal(&mut out, 120);
    assert_eq!(out, b"x=120".to_vec());
}

#[test]
fn decimal_reading() {
    assert_eq!(parse_decimal(b"0"), Some(0));
    assert_eq!(parse_decimal(b"0042"), Some(42));
    assert_eq!(parse_decimal(b"+17"), Some(17));
    assert_eq!(parse_decimal(b"18446744073709551615"), Some(u64::MAX));
    assert_eq!(parse_decimal(b"18446744073709551616"), None);
    assert_eq!(parse_decimal(b"99999999999999999999999"), None);
    assert_eq!(parse_decimal(b""), None);
    assert_eq!(parse_decimal(b"+"), None);
    assert_eq!(parse_decimal(b"-1"), None);
    assert_eq!(parse_decimal(b"12a"), None);
    assert_eq!(parse_decimal(b" 12"), None);
}

#[test]
fn decimal_round_trip_on_values() {
    for n in [0u64, 1, 9, 10, 99, 100, 4095, 4096, 1_000_000_007, u64::MAX - 1, u64::MAX] {
        assert_eq!(parse_decimal(&to_decimal(n)), Some(n));
    }
}

#[test]
fn searching_bytes() {
    assert_eq!(find(b"TIME 12\nTIME 13\n", b"TIME "), Some(0));
    assert_eq!(find(b"xxTIME 12", b"TIME "), Some(2));
    assert_eq!(find(b"TIM", b"TIME "), None);
    assert_eq!(find(b"abc", b""), Some(0));
    assert!(contains_bytes(b"a\r\n\r\nb", b"\r\n\r\n"));
    assert!(!contains_bytes(b"a\r\n\rb", b"\r\n\r\n"));
    assert!(has_prefix(b"PUT 4096", b"PUT "));
    assert!(!has_prefix(b"PU", b"PUT "));
    assert!(has_suffix(b"OK\n", b"\n"));
    assert!(!has_suffix(b"OK", b"\n"));
    assert_eq!(position(b"a b c", b' '), Some(1));
    assert_eq!(position(b"abc", b' '), None);
    assert!(same_bytes(b"PING", b"PING"));
    assert!(!same_bytes(b"PING", b"PINGS"));
}

#[test]
fn command_lines_in_wire_form() {
    assert_eq!(get_chunks_command(8, 4096), b"GETCHUNKS 8 4096\n".to_vec());
    assert_eq!(get_time_command(10, 8192), b"GETTIME 10 8192\n".to_vec());
    assert_eq!(put_command(4096), b"PUT 4096\n".to_vec());
    assert_eq!(put_no_result_command(4194304), b"PUTNORESULT 4194304\n".to_vec());
    assert_eq!(time_response(123456789), b"TIME 123456789\n".to_vec());
    assert_eq!(
        chunk_size_message(CHUNK_SIZE, MIN_CHUNK_SIZE, MAX_CHUNK_SIZE),
        b"CHUNKSIZE 4096 4096 4194304\n".to_vec()
    );
    assert_eq!(err_response(b"HELLO"), b"ERR HELLO\n".to_vec());
    assert_eq!(token_command(b"abc_1_x"), b"TOKEN abc_1_x\n".to_vec());
}

#[test]
fn time_response_reading() {
    assert_eq!(parse_time_response(b"TIME 1234\nACCEPT GETCHUNKS\n"), Some(1234));
    assert_eq!(parse_time_response(b"noise TIME 5\n"), Some(5));
    assert_eq!(parse_time_response(b"TIME 5"), None);
    assert_eq!(parse_time_response(b"TIME \n"), None);
    assert_eq!(parse_time_response(b"TIME abc\n"), None);
    assert_eq!(parse_time_response(b"TIME 5 BYTES 7\n"), None);
    assert_eq!(parse_time_response(b"OK\n"), None);
    assert_eq!(parse_time_response(b"TIME 99999999999999999999\n"), None);
    assert_eq!(parse_time_response(b"TIME 1\nTIME 2\n"), Some(1));
}

#[test]
fn two_numbers_reading() {
    assert_eq!(parse_two_numbers(b"8 4096"), Some((8, 4096)));
    assert_eq!(parse_two_numbers(b"8  4096"), None);
    assert_eq!(parse_two_numbers(b"8"), None);
    assert_eq!(parse_two_numbers(b" 8"), None);
    assert_eq!(parse_two_numbers(b"8 4096 1"), None);
}

#[test]
fn commands_are_read() {
    assert_eq!(parse_command(b"PING"), Ok(Command::Ping));
    assert_eq!(parse_command(b"QUIT"), Ok(Command::Quit));
    assert_eq!(parse_command(b"SIGNEDRESULT"), Ok(Command::SignedResult));
    assert_eq!(
        parse_command(b"GETCHUNKS 8 4096"),
        Ok(Command::GetChunks { chunks: 8, chunk_size: 4096 })
    );
    assert_eq!(
        parse_command(b"GETTIME 7 8192"),
        Ok(Command::GetTime { seconds: 7, chunk_size: 8192 })
    );
    assert_eq!(parse_command(b"PUT 4096"), Ok(Command::Put { chunk_size: 4096 }));
    assert_eq!(
        parse_command(b"PUTNORESULT 4194304"),
        Ok(Command::PutNoResult { chunk_size: 4194304 })
    );
}

#[test]
fn commands_are_refused() {
    assert_eq!(parse_command(b"HELLO"), Err(ProtocolError::UnknownCommand));
    assert_eq!(parse_command(b""), Err(ProtocolError::UnknownCommand));
    assert_eq!(parse_command(b"PING "), Err(ProtocolError::UnknownCommand));
    assert_eq!(parse_command(b"ping"), Err(ProtocolError::UnknownCommand));
    assert_eq!(parse_command(b"PUT"), Err(ProtocolError::UnknownCommand));
    assert_eq!(parse_command(b"GETCHUNKS 8"), Err(ProtocolError::MalformedNumber));
    assert_eq!(parse_command(b"GETCHUNKS x 4096"), Err(ProtocolError::MalformedNumber));
    assert_eq!(parse_command(b"GETCHUNKS 0 4096"), Err(ProtocolError::MalformedNumber));
    assert_eq!(parse_command(b"GETCHUNKS 4294967296 4096"), Err(ProtocolError::MalformedNumber));
    assert_eq!(parse_command(b"GETTIME 2 "), Err(ProtocolError::MalformedNumber));
    assert_eq!(parse_command(b"PUT abc"), Err(ProtocolError::MalformedNumber));
}

#[test]
fn chunk_sizes_outside_the_bounds_are_refused() {
    for line in [
        &b"GETCHUNKS 1 4095"[..],
        b"GETCHUNKS 1 0",
        b"GETCHUNKS 1 4194305",
        b"GETTIME 2 2048",
        b"GETTIME 2 8388608",
        b"PUT 1",
        b"PUT 4194305",
        b"PUTNORESULT 4095",
        b"PUTNORESULT 99999999999",
        b"PUT 5000",
    ] {
        assert_eq!(parse_command(line), Err(ProtocolError::ChunkSize));
    }
    assert!(parse_command(b"PUT 4096").is_ok());
    assert!(parse_command(b"PUT 4194304").is_ok());
}

#[test]
fn chunk_size_bounds() {
    assert_eq!(MIN_CHUNK_SIZE, 4096);
    assert_eq!(CHUNK_SIZE, 4096);
    assert_eq!(MAX_CHUNK_SIZE, 4194304);
    assert!(chunk_size_ok(4096));
    assert!(chunk_size_ok(65536));
    assert!(chunk_size_ok(4194304));
    assert!(!chunk_size_ok(2048));
    assert!(!chunk_size_ok(4097));
    assert!(!chunk_size_ok(6144));
    assert!(!chunk_size_ok(8388608));
    assert!(!chunk_size_ok(0));
}

#[test]
fn terminators() {
    assert_eq!(CONTINUE_FLAG, 0x00);
    assert_eq!(LAST_FLAG, 0xFF);
    assert_eq!(flag(Terminator::Continue), 0x00);
    assert_eq!(flag(Terminator::Last), 0xFF);
    assert_eq!(classify(0x00), Ok(Terminator::Continue));
    assert_eq!(classify(0xFF), Ok(Terminator::Last));
    assert_eq!(classify(0x42), Err(ProtocolError::BadTerminator));
    assert_eq!(classify(0x01), Err(ProtocolError::BadTerminator));
    for byte in 0u8..=255 {
        assert_eq!(classify(byte).is_ok(), byte == 0x00 || byte == 0xFF);
    }
}

#[test]
fn counted_and_timed_cycles() {
    let flags: Vec<u8> = (0..5).map(|i| flag(counted(i, 5))).collect();
    assert_eq!(flags, vec![0x00, 0x00, 0x00, 0x00, 0xFF]);
    assert_eq!(counted(0, 1), Terminator::Last);
    assert_eq!(counted(0, 2), Terminator::Continue);
    assert_eq!(timed(0, 2_000_000_000), Terminator::Continue);
    assert_eq!(timed(1_999_999_999, 2_000_000_000), Terminator::Continue);
    assert_eq!(timed(2_000_000_000, 2_000_000_000), Terminator::Last);
    assert_eq!(timed(0, 0), Terminator::Last);
}
