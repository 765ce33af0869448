//! The control lines of the protocol in their exact wire form, and the
//! readers for those that carry arguments.

use crate::decimal::{decimal, parse_decimal, parse_u64, push_decimal};
use crate::error::ProtocolError;
use crate::limits::{chunk_size_ok, valid_chunk_size};
use crate::text::{find, find_first, has_prefix, index_of, position, same_bytes, starts_with};
use vstd::prelude::*;
use vstd::slice::slice_subrange;
use vstd::string::*;

verus! {

/// Line feed, the end of every control line.
pub const NEWLINE: u8 = 10;

/// The single space between the words of a control line.
pub const SPACE: u8 = 32;

/// The acknowledgement.
pub open spec fn ok_line() -> Seq<u8> {
    "OK\n".spec_bytes()
}

/// The request for a round trip.
pub open spec fn ping_line() -> Seq<u8> {
    "PING\n".spec_bytes()
}

/// The answer to `PING`.
pub open spec fn pong_line() -> Seq<u8> {
    "PONG\n".spec_bytes()
}

/// The request to end the connection.
pub open spec fn quit_line() -> Seq<u8> {
    "QUIT\n".spec_bytes()
}

/// The request for the signed envelope.
pub open spec fn signed_result_line() -> Seq<u8> {
    "SIGNEDRESULT\n".spec_bytes()
}

/// The banner that offers the token exchange.
pub open spec fn accept_token_line() -> Seq<u8> {
    "ACCEPT TOKEN QUIT\n".spec_bytes()
}

/// The banner that lists the admissible commands.
pub open spec fn accept_commands_line() -> Seq<u8> {
    "ACCEPT GETCHUNKS GETTIME PUT PUTNORESULT PING QUIT\n".spec_bytes()
}

/// `<word><a>\n`
pub open spec fn line_one(word: Seq<u8>, a: nat) -> Seq<u8> {
    (word + decimal(a)).push(NEWLINE)
}

/// `<word><a> <b>\n`
pub open spec fn line_two(word: Seq<u8>, a: nat, b: nat) -> Seq<u8> {
    ((word + decimal(a)).push(SPACE) + decimal(b)).push(NEWLINE)
}

/// `GETCHUNKS <n> <size>\n`
pub open spec fn get_chunks_line(chunks: nat, chunk_size: nat) -> Seq<u8> {
    line_two("GETCHUNKS ".spec_bytes(), chunks, chunk_size)
}

/// `GETTIME <seconds> <size>\n`
pub open spec fn get_time_line(seconds: nat, chunk_size: nat) -> Seq<u8> {
    line_two("GETTIME ".spec_bytes(), seconds, chunk_size)
}

/// `PUT <size>\n`
pub open spec fn put_line(chunk_size: nat) -> Seq<u8> {
    line_one("PUT ".spec_bytes(), chunk_size)
}

/// `PUTNORESULT <size>\n`
pub open spec fn put_no_result_line(chunk_size: nat) -> Seq<u8> {
    line_one("PUTNORESULT ".spec_bytes(), chunk_size)
}

/// `TIME <ns>\n`
pub open spec fn time_line(ns: nat) -> Seq<u8> {
    line_one("TIME ".spec_bytes(), ns)
}

/// `CHUNKSIZE <default> <min> <max>\n`
pub open spec fn chunk_size_line(default: nat, min: nat, max: nat) -> Seq<u8> {
    (((("CHUNKSIZE ".spec_bytes() + decimal(default)).push(SPACE) + decimal(min)).push(SPACE)
        + decimal(max))).push(NEWLINE)
}

/// `ERR <echo>\n`
pub open spec fn err_line(echo: Seq<u8>) -> Seq<u8> {
    ("ERR ".spec_bytes() + echo).push(NEWLINE)
}

/// `TOKEN <token>\n`
pub open spec fn token_line(token: Seq<u8>) -> Seq<u8> {
    ("TOKEN ".spec_bytes() + token).push(NEWLINE)
}

/// The request by which a client asks to speak the protocol on a fresh
/// connection.
pub open spec fn upgrade_request() -> Seq<u8> {
    "GET /rmbt HTTP/1.1 \r\nConnection: Upgrade \r\nUpgrade: RMBT\r\nRMBT-Version: 1.2.0\r\n\r\n".spec_bytes()
}

/// The banner by which a server agrees to speak the protocol.
pub open spec fn upgrade_banner() -> Seq<u8> {
    "HTTP/1.1 101 Switching Protocols\r\nConnection: Upgrade\r\nUpgrade: RMBT\r\n\r\n".spec_bytes()
}

/// The end of an HTTP header block.
pub open spec fn header_end() -> Seq<u8> {
    "\r\n\r\n".spec_bytes()
}

/// Every line that the protocol builds from numbers fits the line buffer
/// many times over, and so do the fixed lines.
pub proof fn lemma_short_lines(a: nat, b: nat, c: nat)
    requires
        a <= u64::MAX,
        b <= u64::MAX,
        c <= u64::MAX,
    ensures
        get_chunks_line(a, b).len() <= 96,
        get_time_line(a, b).len() <= 96,
        put_line(a).len() <= 96,
        put_no_result_line(a).len() <= 96,
        time_line(a).len() <= 96,
        chunk_size_line(a, b, c).len() <= 96,
        ok_line().len() == 3,
        ping_line().len() == 5,
        pong_line().len() == 5,
        quit_line().len() == 5,
        signed_result_line().len() == 13,
        accept_token_line().len() == 18,
        accept_commands_line().len() == 51,
        upgrade_request().len() <= 96,
        upgrade_banner().len() <= 96,
        "ERR ".spec_bytes().len() == 4,
        "TOKEN ".spec_bytes().len() == 6,
{
    broadcast use is_ascii_spec_bytes;

    crate::decimal::lemma_decimal_len(a);
    crate::decimal::lemma_decimal_len(b);
    crate::decimal::lemma_decimal_len(c);
    reveal_strlit("GETCHUNKS ");
    reveal_strlit("GETTIME ");
    reveal_strlit("PUT ");
    reveal_strlit("PUTNORESULT ");
    reveal_strlit("TIME ");
    reveal_strlit("CHUNKSIZE ");
    reveal_strlit("OK\n");
    reveal_strlit("PING\n");
    reveal_strlit("PONG\n");
    reveal_strlit("QUIT\n");
    reveal_strlit("SIGNEDRESULT\n");
    reveal_strlit("ACCEPT TOKEN QUIT\n");
    reveal_strlit("ACCEPT GETCHUNKS GETTIME PUT PUTNORESULT PING QUIT\n");
    reveal_strlit("GET /rmbt HTTP/1.1 \r\nConnection: Upgrade \r\nUpgrade: RMBT\r\nRMBT-Version: 1.2.0\r\n\r\n");
    reveal_strlit("HTTP/1.1 101 Switching Protocols\r\nConnection: Upgrade\r\nUpgrade: RMBT\r\n\r\n");
    reveal_strlit("ERR ");
    reveal_strlit("TOKEN ");
    assert(is_ascii("GETCHUNKS "));
    assert(is_ascii("GETTIME "));
    assert(is_ascii("PUT "));
    assert(is_ascii("PUTNORESULT "));
    assert(is_ascii("TIME "));
    assert(is_ascii("CHUNKSIZE "));
    assert(is_ascii("OK\n"));
    assert(is_ascii("PING\n"));
    assert(is_ascii("PONG\n"));
    assert(is_ascii("QUIT\n"));
    assert(is_ascii("SIGNEDRESULT\n"));
    assert(is_ascii("ACCEPT TOKEN QUIT\n"));
    assert(is_ascii("ACCEPT GETCHUNKS GETTIME PUT PUTNORESULT PING QUIT\n"));
    assert(is_ascii("GET /rmbt HTTP/1.1 \r\nConnection: Upgrade \r\nUpgrade: RMBT\r\nRMBT-Version: 1.2.0\r\n\r\n"));
    assert(is_ascii("HTTP/1.1 101 Switching Protocols\r\nConnection: Upgrade\r\nUpgrade: RMBT\r\n\r\n"));
    assert(is_ascii("ERR "));
    assert(is_ascii("TOKEN "));
}

/// The bytes of a piece of text.
pub fn text_bytes(text: &str) -> (r: Vec<u8>)
    ensures
        r@ == text.spec_bytes(),
{
    vstd::slice::slice_to_vec(text.as_bytes())
}

fn build_one(word: &str, a: u64) -> (r: Vec<u8>)
    ensures
        r@ == line_one(word.spec_bytes(), a as nat),
{
    let mut out = text_bytes(word);
    push_decimal(&mut out, a);
    out.push(NEWLINE);
    out
}

fn build_two(word: &str, a: u64, b: u64) -> (r: Vec<u8>)
    ensures
        r@ == line_two(word.spec_bytes(), a as nat, b as nat),
{
    let mut out = text_bytes(word);
    push_decimal(&mut out, a);
    out.push(SPACE);
    push_decimal(&mut out, b);
    out.push(NEWLINE);
    out
}

/// The request for `chunks` chunks of `chunk_size` bytes.
pub fn get_chunks_command(chunks: u32, chunk_size: usize) -> (r: Vec<u8>)
    ensures
        r@ == get_chunks_line(chunks as nat, chunk_size as nat),
{
    build_two("GETCHUNKS ", chunks as u64, chunk_size as u64)
}

/// The request for a timed download of `seconds` seconds.
pub fn get_time_command(seconds: u64, chunk_size: usize) -> (r: Vec<u8>)
    ensures
        r@ == get_time_line(seconds as nat, chunk_size as nat),
{
    build_two("GETTIME ", seconds, chunk_size as u64)
}

/// The request for a timed upload whose chunks the server samples.
pub fn put_command(chunk_size: usize) -> (r: Vec<u8>)
    ensures
        r@ == put_line(chunk_size as nat),
{
    build_one("PUT ", chunk_size as u64)
}

/// The request for a timed upload without per-chunk sampling.
pub fn put_no_result_command(chunk_size: usize) -> (r: Vec<u8>)
    ensures
        r@ == put_no_result_line(chunk_size as nat),
{
    build_one("PUTNORESULT ", chunk_size as u64)
}

/// The server's report of a duration in nanoseconds.
pub fn time_response(ns: u64) -> (r: Vec<u8>)
    ensures
        r@ == time_line(ns as nat),
{
    build_one("TIME ", ns)
}

/// The server's advertisement of the chunk-size bounds.
pub fn chunk_size_message(default: usize, min: usize, max: usize) -> (r: Vec<u8>)
    ensures
        r@ == chunk_size_line(default as nat, min as nat, max as nat),
{
    let mut out = text_bytes("CHUNKSIZE ");
    push_decimal(&mut out, default as u64);
    out.push(SPACE);
    push_decimal(&mut out, min as u64);
    out.push(SPACE);
    push_decimal(&mut out, max as u64);
    out.push(NEWLINE);
    out
}

/// The rejection of a line, echoing it.
pub fn err_response(echo: &[u8]) -> (r: Vec<u8>)
    ensures
        r@ == err_line(echo@),
{
    let mut out = text_bytes("ERR ");
    out.extend_from_slice(echo);
    out.push(NEWLINE);
    out
}

/// The client's presentation of its token.
pub fn token_command(token: &[u8]) -> (r: Vec<u8>)
    ensures
        r@ == token_line(token@),
{
    let mut out = text_bytes("TOKEN ");
    out.extend_from_slice(token);
    out.push(NEWLINE);
    out
}

/// The duration that a buffer reports: the number between the first `TIME `
/// and the line feed that follows it.
pub open spec fn reported_time(buffer: Seq<u8>) -> Option<u64> {
    let word = "TIME ".spec_bytes();
    match find_first(buffer, word) {
        Some(start) => {
            let rest = buffer.skip(start + word.len());
            let end = index_of(rest, NEWLINE);
            if end < rest.len() {
                parse_u64(rest.take(end))
            } else {
                None
            }
        },
        None => None,
    }
}

/// Reads the duration out of a `TIME <ns>\n` response. `None` when the buffer
/// holds no `TIME `, no line feed behind it, or no number between the two.
pub fn parse_time_response(buffer: &[u8]) -> (r: Option<u64>)
    ensures
        r == reported_time(buffer@),
{
    let word = "TIME ".as_bytes();
    match find(buffer, word) {
        Some(start) => {
            let total: usize = buffer.len();
            let rest = slice_subrange(buffer, start + word.len(), total);
            assert(rest@ =~= buffer@.skip(start + word.len()));
            match position(rest, NEWLINE) {
                Some(end) => {
                    let digits = slice_subrange(rest, 0, end);
                    assert(digits@ =~= rest@.take(end as int));
                    parse_decimal(digits)
                },
                None => None,
            }
        },
        None => None,
    }
}

/// Two numbers with a single space between them.
pub open spec fn two_numbers(args: Seq<u8>) -> Option<(u64, u64)> {
    let sp = index_of(args, SPACE);
    if sp < args.len() {
        match (parse_u64(args.take(sp)), parse_u64(args.skip(sp + 1))) {
            (Some(a), Some(b)) => Some((a, b)),
            _ => None,
        }
    } else {
        None
    }
}

/// Reads two numbers with a single space between them.
pub fn parse_two_numbers(args: &[u8]) -> (r: Option<(u64, u64)>)
    ensures
        r == two_numbers(args@),
{
    match position(args, SPACE) {
        Some(sp) => {
            let total: usize = args.len();
            let first = slice_subrange(args, 0, sp);
            let second = slice_subrange(args, sp + 1, total);
            assert(first@ =~= args@.take(sp as int));
            assert(second@ =~= args@.skip(sp + 1));
            match (parse_decimal(first), parse_decimal(second)) {
                (Some(a), Some(b)) => Some((a, b)),
                _ => None,
            }
        },
        None => None,
    }
}

/// What a client may ask of the server once the greeting is done.
#[derive(Clone, Copy, Debug, PartialEq, Eq, Structural)]
pub enum Command {
    GetChunks { chunks: u32, chunk_size: usize },
    GetTime { seconds: u64, chunk_size: usize },
    Put { chunk_size: usize },
    PutNoResult { chunk_size: usize },
    Ping,
    SignedResult,
    Quit,
}

/// The chunk size that a request names, if a connection may hold it.
pub open spec fn requested_size(n: u64) -> Result<usize, ProtocolError> {
    if valid_chunk_size(n as int) {
        Ok(n as usize)
    } else {
        Err(ProtocolError::ChunkSize)
    }
}

/// The command that a line (without its line feed) asks for.
///
/// A request is refused with `ChunkSize` when its chunk size lies outside
/// the bounds or is no power of two, with `MalformedNumber` when an argument
/// is no number (or the chunk count is zero or exceeds 32 bits), and with
/// `UnknownCommand` when the line is none of the protocol's.
pub open spec fn command_of(line: Seq<u8>) -> Result<Command, ProtocolError> {
    if line == "PING".spec_bytes() {
        Ok(Command::Ping)
    } else if line == "QUIT".spec_bytes() {
        Ok(Command::Quit)
    } else if line == "SIGNEDRESULT".spec_bytes() {
        Ok(Command::SignedResult)
    } else if starts_with(line, "GETCHUNKS ".spec_bytes()) {
        match two_numbers(line.skip("GETCHUNKS ".spec_bytes().len() as int)) {
            Some((n, size)) => if 1 <= n <= u32::MAX {
                match requested_size(size) {
                    Ok(chunk_size) => Ok(Command::GetChunks { chunks: n as u32, chunk_size }),
                    Err(e) => Err(e),
                }
            } else {
                Err(ProtocolError::MalformedNumber)
            },
            None => Err(ProtocolError::MalformedNumber),
        }
    } else if starts_with(line, "GETTIME ".spec_bytes()) {
        match two_numbers(line.skip("GETTIME ".spec_bytes().len() as int)) {
            Some((seconds, size)) => match requested_size(size) {
                Ok(chunk_size) => Ok(Command::GetTime { seconds, chunk_size }),
                Err(e) => Err(e),
            },
            None => Err(ProtocolError::MalformedNumber),
        }
    } else if starts_with(line, "PUTNORESULT ".spec_bytes()) {
        match parse_u64(line.skip("PUTNORESULT ".spec_bytes().len() as int)) {
            Some(size) => match requested_size(size) {
                Ok(chunk_size) => Ok(Command::PutNoResult { chunk_size }),
                Err(e) => Err(e),
            },
            None => Err(ProtocolError::MalformedNumber),
        }
    } else if starts_with(line, "PUT ".spec_bytes()) {
        match parse_u64(line.skip("PUT ".spec_bytes().len() as int)) {
            Some(size) => match requested_size(size) {
                Ok(chunk_size) => Ok(Command::Put { chunk_size }),
                Err(e) => Err(e),
            },
            None => Err(ProtocolError::MalformedNumber),
        }
    } else {
        Err(ProtocolError::UnknownCommand)
    }
}

fn check_size(n: u64) -> (r: Result<usize, ProtocolError>)
    ensures
        r == requested_size(n),
{
    if chunk_size_ok(n) {
        Ok(n as usize)
    } else {
        Err(ProtocolError::ChunkSize)
    }
}

fn after<'a>(line: &'a [u8], word: &[u8]) -> (r: &'a [u8])
    requires
        starts_with(line@, word@),
    ensures
        r@ == line@.skip(word@.len() as int),
{
    let r = slice_subrange(line, word.len(), line.len());
    assert(r@ =~= line@.skip(word@.len() as int));
    r
}

/// Reads a command line, given without its line feed.
pub fn parse_command(line: &[u8]) -> (r: Result<Command, ProtocolError>)
    ensures
        r == command_of(line@),
{
    let get_chunks = "GETCHUNKS ".as_bytes();
    let get_time = "GETTIME ".as_bytes();
    let put_no_result = "PUTNORESULT ".as_bytes();
    let put = "PUT ".as_bytes();
    if same_bytes(line, "PING".as_bytes()) {
        Ok(Command::Ping)
    } else if same_bytes(line, "QUIT".as_bytes()) {
        Ok(Command::Quit)
    } else if same_bytes(line, "SIGNEDRESULT".as_bytes()) {
        Ok(Command::SignedResult)
    } else if has_prefix(line, get_chunks) {
        match parse_two_numbers(after(line, get_chunks)) {
            Some((n, size)) => {
                if 1 <= n && n <= u32::MAX as u64 {
                    match check_size(size) {
                        Ok(chunk_size) => Ok(Command::GetChunks { chunks: n as u32, chunk_size }),
                        Err(e) => Err(e),
                    }
                } else {
                    Err(ProtocolError::MalformedNumber)
                }
            },
            None => Err(ProtocolError::MalformedNumber),
        }
    } else if has_prefix(line, get_time) {
        match parse_two_numbers(after(line, get_time)) {
            Some((seconds, size)) => match check_size(size) {
                Ok(chunk_size) => Ok(Command::GetTime { seconds, chunk_size }),
                Err(e) => Err(e),
            },
            None => Err(ProtocolError::MalformedNumber),
        }
    } else if has_prefix(line, put_no_result) {
        match parse_decimal(after(line, put_no_result)) {
            Some(size) => match check_size(size) {
                Ok(chunk_size) => Ok(Command::PutNoResult { chunk_size }),
                Err(e) => Err(e),
            },
            None => Err(ProtocolError::MalformedNumber),
        }
    } else if has_prefix(line, put) {
        match parse_decimal(after(line, put)) {
            Some(size) => match check_size(size) {
                Ok(chunk_size) => Ok(Command::Put { chunk_size }),
                Err(e) => Err(e),
            },
            None => Err(ProtocolError::MalformedNumber),
        }
    } else {
        Err(ProtocolError::UnknownCommand)
    }
}

/// The bytes with which the words of the protocol begin and differ.
pub proof fn lemma_words()
    ensures
        "GETCHUNKS ".spec_bytes().len() == 10 && "GETCHUNKS ".spec_bytes()[0] == 71
            && "GETCHUNKS ".spec_bytes()[3] == 67,
        "GETTIME ".spec_bytes().len() == 8 && "GETTIME ".spec_bytes()[0] == 71
            && "GETTIME ".spec_bytes()[3] == 84,
        "PUTNORESULT ".spec_bytes().len() == 12 && "PUTNORESULT ".spec_bytes()[0] == 80
            && "PUTNORESULT ".spec_bytes()[3] == 78,
        "PUT ".spec_bytes().len() == 4 && "PUT ".spec_bytes()[0] == 80 && "PUT ".spec_bytes()[3]
            == 32,
        "PING".spec_bytes().len() == 4 && "PING".spec_bytes()[1] == 73,
        "QUIT".spec_bytes().len() == 4 && "QUIT".spec_bytes()[0] == 81,
        "SIGNEDRESULT".spec_bytes().len() == 12 && "SIGNEDRESULT".spec_bytes()[0] == 83,
{
    broadcast use is_ascii_spec_bytes;

    reveal_strlit("GETCHUNKS ");
    reveal_strlit("GETTIME ");
    reveal_strlit("PUTNORESULT ");
    reveal_strlit("PUT ");
    reveal_strlit("PING");
    reveal_strlit("QUIT");
    reveal_strlit("SIGNEDRESULT");
    assert(is_ascii("GETCHUNKS "));
    assert(is_ascii("GETTIME "));
    assert(is_ascii("PUTNORESULT "));
    assert(is_ascii("PUT "));
    assert(is_ascii("PING"));
    assert(is_ascii("QUIT"));
    assert(is_ascii("SIGNEDRESULT"));
}

/// A number in decimal text reads back as itself when it stands alone.
pub proof fn lemma_one_number(a: u64)
    ensures
        parse_u64(decimal(a as nat)) == Some(a),
{
    crate::decimal::lemma_parse_decimal(a);
}

/// Two numbers in decimal text with a space between them read back as
/// themselves.
pub proof fn lemma_two_numbers(a: u64, b: u64)
    ensures
        two_numbers(decimal(a as nat).push(SPACE) + decimal(b as nat)) == Some((a, b)),
{
    let first = decimal(a as nat);
    let second = decimal(b as nat);
    let args = first.push(SPACE) + second;
    crate::decimal::lemma_decimal_digits(a as nat);
    crate::decimal::lemma_decimal_digits(b as nat);
    crate::decimal::lemma_parse_decimal(a);
    crate::decimal::lemma_parse_decimal(b);
    assert forall|j: int| 0 <= j < first.len() implies args[j] != SPACE by {
        assert(args[j] == first[j]);
    }
    assert(args[first.len() as int] == SPACE);
    crate::text::lemma_index_of_unique(args, SPACE, first.len() as int);
    assert(args.take(first.len() as int) =~= first);
    assert(args.skip(first.len() as int + 1) =~= second);
}

/// What the client writes as a `GETCHUNKS` request, the server reads as
/// that request: it is taken up with the same numbers where the chunk count
/// is positive and fits 32 bits and the chunk size is one that a connection
/// may hold, and refused otherwise.
pub proof fn lemma_get_chunks_round_trip(chunks: u64, size: u64)
    ensures
        command_of(get_chunks_line(chunks as nat, size as nat).drop_last()) == if 1 <= chunks
            <= u32::MAX {
            match requested_size(size) {
                Ok(chunk_size) => Ok(Command::GetChunks { chunks: chunks as u32, chunk_size }),
                Err(e) => Err(e),
            }
        } else {
            Err(ProtocolError::MalformedNumber)
        },
{
    lemma_words();
    lemma_two_numbers(chunks, size);
    let word = "GETCHUNKS ".spec_bytes();
    let args = decimal(chunks as nat).push(SPACE) + decimal(size as nat);
    let line = get_chunks_line(chunks as nat, size as nat).drop_last();
    assert(line =~= word + args);
    assert(line.subrange(0, word.len() as int) =~= word);
    assert(line.skip(word.len() as int) =~= args);
    assert(line[0] == 71);
}

/// What the client writes as a `GETTIME` request, the server reads as that
/// request, and refuses where the chunk size is none that a connection may
/// hold.
pub proof fn lemma_get_time_round_trip(seconds: u64, size: u64)
    ensures
        command_of(get_time_line(seconds as nat, size as nat).drop_last()) == match requested_size(
            size,
        ) {
            Ok(chunk_size) => Ok::<Command, ProtocolError>(
                Command::GetTime { seconds, chunk_size },
            ),
            Err(e) => Err(e),
        },
{
    lemma_words();
    lemma_two_numbers(seconds, size);
    let word = "GETTIME ".spec_bytes();
    let args = decimal(seconds as nat).push(SPACE) + decimal(size as nat);
    let line = get_time_line(seconds as nat, size as nat).drop_last();
    assert(line =~= word + args);
    assert(line.subrange(0, word.len() as int) =~= word);
    assert(line.skip(word.len() as int) =~= args);
    assert(line[0] == 71 && line[3] == 84);
    assert(!starts_with(line, "GETCHUNKS ".spec_bytes())) by {
        if starts_with(line, "GETCHUNKS ".spec_bytes()) {
            assert(line.subrange(0, 10)[3] == line[3]);
        }
    }
}

/// What the client writes as a `PUT` or `PUTNORESULT` request, the server
/// reads as that request, and refuses where the chunk size is none that a
/// connection may hold.
pub proof fn lemma_put_round_trip(size: u64)
    ensures
        command_of(put_line(size as nat).drop_last()) == match requested_size(size) {
            Ok(chunk_size) => Ok::<Command, ProtocolError>(Command::Put { chunk_size }),
            Err(e) => Err(e),
        },
        command_of(put_no_result_line(size as nat).drop_last()) == match requested_size(size) {
            Ok(chunk_size) => Ok::<Command, ProtocolError>(Command::PutNoResult { chunk_size }),
            Err(e) => Err(e),
        },
{
    lemma_words();
    lemma_one_number(size);
    crate::decimal::lemma_decimal_digits(size as nat);
    let digits = decimal(size as nat);
    {
        let word = "PUT ".spec_bytes();
        let line = put_line(size as nat).drop_last();
        assert(line =~= word + digits);
        assert(line.subrange(0, word.len() as int) =~= word);
        assert(line.skip(word.len() as int) =~= digits);
        assert(line[0] == 80 && line[3] == 32);
        assert(line.len() > 4);
        assert(!starts_with(line, "GETCHUNKS ".spec_bytes())) by {
            if starts_with(line, "GETCHUNKS ".spec_bytes()) {
                assert(line.subrange(0, 10)[0] == line[0]);
            }
        }
        assert(!starts_with(line, "GETTIME ".spec_bytes())) by {
            if starts_with(line, "GETTIME ".spec_bytes()) {
                assert(line.subrange(0, 8)[0] == line[0]);
            }
        }
        assert(!starts_with(line, "PUTNORESULT ".spec_bytes())) by {
            if starts_with(line, "PUTNORESULT ".spec_bytes()) {
                assert(line.subrange(0, 12)[3] == line[3]);
            }
        }
        assert(line != "PING".spec_bytes());
        assert(line != "QUIT".spec_bytes());
        assert(line != "SIGNEDRESULT".spec_bytes());
    }
    {
        let word = "PUTNORESULT ".spec_bytes();
        let line = put_no_result_line(size as nat).drop_last();
        assert(line =~= word + digits);
        assert(line.subrange(0, word.len() as int) =~= word);
        assert(line.skip(word.len() as int) =~= digits);
        assert(line[0] == 80);
        assert(line.len() > 12);
        assert(!starts_with(line, "GETCHUNKS ".spec_bytes())) by {
            if starts_with(line, "GETCHUNKS ".spec_bytes()) {
                assert(line.subrange(0, 10)[0] == line[0]);
            }
        }
        assert(!starts_with(line, "GETTIME ".spec_bytes())) by {
            if starts_with(line, "GETTIME ".spec_bytes()) {
                assert(line.subrange(0, 8)[0] == line[0]);
            }
        }
        assert(line != "PING".spec_bytes());
        assert(line != "QUIT".spec_bytes());
        assert(line != "SIGNEDRESULT".spec_bytes());
    }
}

/// A request for chunks smaller than the smallest or larger than the
/// largest is refused.
pub proof fn lemma_size_out_of_bounds(size: u64)
    requires
        size < crate::limits::MIN_CHUNK_SIZE || size > crate::limits::MAX_CHUNK_SIZE,
    ensures
        requested_size(size) == Err::<usize, ProtocolError>(ProtocolError::ChunkSize),
{
}

/// What the server writes as a `TIME` line, the client reads as that
/// duration.
pub proof fn lemma_time_round_trip(ns: u64)
    ensures
        reported_time(time_line(ns as nat)) == Some(ns),
{
    broadcast use is_ascii_spec_bytes;

    reveal_strlit("TIME ");
    assert(is_ascii("TIME "));
    let word = "TIME ".spec_bytes();
    let digits = decimal(ns as nat);
    let line = time_line(ns as nat);
    crate::decimal::lemma_decimal_digits(ns as nat);
    crate::decimal::lemma_parse_decimal(ns);
    assert(line =~= (word + digits).push(NEWLINE));
    assert(line.subrange(0, word.len() as int) =~= word);
    assert(crate::text::first_at(line, word, 0));
    crate::text::lemma_find_first(line, word, 0);
    let rest = line.skip(word.len() as int);
    assert(rest =~= digits.push(NEWLINE));
    assert forall|j: int| 0 <= j < digits.len() implies rest[j] != NEWLINE by {
        assert(rest[j] == digits[j]);
    }
    crate::text::lemma_index_of_unique(rest, NEWLINE, digits.len() as int);
    assert(rest.take(digits.len() as int) =~= digits);
}

} // verus!
