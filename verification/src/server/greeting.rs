//! The server's greeting: version banner, token check, chunk-size
//! advertisement.

use crate::channel::BUFFER_SIZE;
use crate::client::signed_result::{ends_line, is_line};
use crate::decimal::{all_digits, is_digits};
use crate::error::ProtocolError;
use crate::event::Progress;
use crate::limits::{CHUNK_SIZE, MAX_CHUNK_SIZE, MIN_CHUNK_SIZE};
use crate::server::state::{ServerStep, ServerTestPhase, ServerView, TestState};
use crate::text::{has_prefix, index_of, position, starts_with};
use crate::wire::{
    accept_token_line, chunk_size_line, chunk_size_message, lemma_short_lines, ok_line,
    text_bytes,
};
use vstd::prelude::*;
use vstd::slice::slice_subrange;
use vstd::string::*;

verus! {

/// The separator between the parts of a token.
pub const UNDERSCORE: u8 = 95;

/// Length of the identifier that opens a token.
pub const UUID_LEN: usize = 36;

/// The version banner: the legacy banner for version 3, the current one
/// where no version is configured, the intermediate one for any other.
pub open spec fn version_line(version: Option<u8>) -> Seq<u8> {
    match version {
        Some(v) => if v == 3 {
            "RMBTv0.3\n".spec_bytes()
        } else {
            "RMBTv1.3.3\n".spec_bytes()
        },
        None => "RMBTv1.5.0\n".spec_bytes(),
    }
}

/// What opens a connection: the version banner and the offer of the token
/// exchange.
pub open spec fn greeting_lines(version: Option<u8>) -> Seq<u8> {
    version_line(version) + accept_token_line()
}

/// What answers an accepted token: `OK` and the advertisement of the
/// chunk-size bounds.
pub open spec fn token_accepted_lines() -> Seq<u8> {
    ok_line() + chunk_size_line(CHUNK_SIZE as nat, MIN_CHUNK_SIZE as nat, MAX_CHUNK_SIZE as nat)
}

/// A hexadecimal digit or a dash.
pub open spec fn is_uuid_byte(b: u8) -> bool {
    (48 <= b <= 57) || (65 <= b <= 70) || (97 <= b <= 102) || b == 45
}

/// A letter, a digit, `+`, `/` or `=`.
pub open spec fn is_base64_byte(b: u8) -> bool {
    (48 <= b <= 57) || (65 <= b <= 90) || (97 <= b <= 122) || b == 43 || b == 47 || b == 61
}

/// Every byte is a hexadecimal digit or a dash.
pub open spec fn is_uuid_text(s: Seq<u8>) -> bool {
    forall|i: int| 0 <= i < s.len() ==> is_uuid_byte(#[trigger] s[i])
}

/// Every byte is of the base64 alphabet.
pub open spec fn is_base64_text(s: Seq<u8>) -> bool {
    forall|i: int| 0 <= i < s.len() ==> is_base64_byte(#[trigger] s[i])
}

/// A token has three parts separated by underscores: an identifier of 36
/// hexadecimal digits and dashes, a start time in digits, and a base64
/// authentication code.
pub open spec fn valid_token(token: Seq<u8>) -> bool {
    let first = index_of(token, UNDERSCORE);
    let rest = token.skip(first + 1);
    let second = index_of(rest, UNDERSCORE);
    &&& first < token.len()
    &&& second < rest.len()
    &&& first == UUID_LEN
    &&& is_uuid_text(token.take(first))
    &&& is_digits(rest.take(second))
    &&& is_base64_text(rest.skip(second + 1))
}

/// A line presents a token: `TOKEN `, a valid token, and the line feed.
pub open spec fn valid_token_line(line: Seq<u8>) -> bool {
    &&& is_line(line)
    &&& starts_with(line.drop_last(), "TOKEN ".spec_bytes())
    &&& valid_token(line.drop_last().skip("TOKEN ".spec_bytes().len() as int))
}

fn all_uuid(s: &[u8]) -> (r: bool)
    ensures
        r == is_uuid_text(s@),
{
    let mut i: usize = 0;
    while i < s.len()
        invariant
            i <= s.len(),
            forall|j: int| 0 <= j < i ==> is_uuid_byte(#[trigger] s@[j]),
        decreases s.len() - i,
    {
        let b: u8 = s[i];
        if !((48 <= b && b <= 57) || (65 <= b && b <= 70) || (97 <= b && b <= 102) || b == 45) {
            return false;
        }
        i += 1;
    }
    true
}

fn all_base64(s: &[u8]) -> (r: bool)
    ensures
        r == is_base64_text(s@),
{
    let mut i: usize = 0;
    while i < s.len()
        invariant
            i <= s.len(),
            forall|j: int| 0 <= j < i ==> is_base64_byte(#[trigger] s@[j]),
        decreases s.len() - i,
    {
        let b: u8 = s[i];
        if !((48 <= b && b <= 57) || (65 <= b && b <= 90) || (97 <= b && b <= 122) || b == 43 || b
            == 47 || b == 61) {
            return false;
        }
        i += 1;
    }
    true
}

/// Whether `token` has the form of a token.
pub fn check_token(token: &[u8]) -> (r: bool)
    ensures
        r == valid_token(token@),
{
    let total: usize = token.len();
    match position(token, UNDERSCORE) {
        None => false,
        Some(first) => {
            let rest = slice_subrange(token, first + 1, total);
            assert(rest@ =~= token@.skip(first + 1));
            let rest_len: usize = rest.len();
            match position(rest, UNDERSCORE) {
                None => false,
                Some(second) => {
                    let uuid = slice_subrange(token, 0, first);
                    let start = slice_subrange(rest, 0, second);
                    let code = slice_subrange(rest, second + 1, rest_len);
                    assert(uuid@ =~= token@.take(first as int));
                    assert(start@ =~= rest@.take(second as int));
                    assert(code@ =~= rest@.skip(second + 1));
                    first == UUID_LEN && all_uuid(uuid) && all_digits(start) && all_base64(code)
                },
            }
        },
    }
}

/// Whether `line` presents a token.
pub fn check_token_line(line: &[u8]) -> (r: bool)
    ensures
        r == valid_token_line(line@),
{
    if !ends_line(line) {
        return false;
    }
    let body = slice_subrange(line, 0, line.len() - 1);
    assert(body@ =~= line@.drop_last());
    let word = "TOKEN ".as_bytes();
    if !has_prefix(body, word) {
        return false;
    }
    let token = slice_subrange(body, word.len(), body.len());
    assert(token@ =~= body@.skip(word@.len() as int));
    check_token(token)
}

impl ServerView {
    /// Receiving `data` of the token line. Once the line is complete, a
    /// token of valid form is answered with `OK` and the chunk-size bounds;
    /// any other line is refused as a bad token.
    pub open spec fn greeting_receive_token(self, data: Seq<u8>) -> ServerStep {
        let line = self.io.received + data;
        if line.len() > BUFFER_SIZE {
            (self, Err(ProtocolError::LineTooLong))
        } else if !is_line(line) {
            (self.with_received(data), Ok(Progress::Pending))
        } else if valid_token_line(line) {
            (
                self.sending(ServerTestPhase::GreetingSendChunkSize, token_accepted_lines()),
                Ok(Progress::Advanced),
            )
        } else {
            (self.refusing(ProtocolError::BadToken, line), Ok(Progress::Advanced))
        }
    }
}

/// The greeting for the configured version.
pub fn greeting(version: Option<u8>) -> (r: Vec<u8>)
    ensures
        r@ == greeting_lines(version),
{
    let mut out = match version {
        Some(v) => if v == 3 {
            text_bytes("RMBTv0.3\n")
        } else {
            text_bytes("RMBTv1.3.3\n")
        },
        None => text_bytes("RMBTv1.5.0\n"),
    };
    out.extend_from_slice("ACCEPT TOKEN QUIT\n".as_bytes());
    out
}

/// The greeting fits the line buffer.
pub proof fn lemma_greeting_fits(version: Option<u8>)
    ensures
        greeting_lines(version).len() <= 64,
        token_accepted_lines().len() <= 128,
{
    broadcast use is_ascii_spec_bytes;

    lemma_short_lines(CHUNK_SIZE as nat, MIN_CHUNK_SIZE as nat, MAX_CHUNK_SIZE as nat);
    reveal_strlit("RMBTv0.3\n");
    reveal_strlit("RMBTv1.3.3\n");
    reveal_strlit("RMBTv1.5.0\n");
    assert(is_ascii("RMBTv0.3\n"));
    assert(is_ascii("RMBTv1.3.3\n"));
    assert(is_ascii("RMBTv1.5.0\n"));
}

/// Handles the progress of writing the greeting; once it is out the token
/// is awaited.
pub fn handle_greeting_send_version(state: &mut TestState, written: usize) -> (r: Result<
    Progress,
    ProtocolError,
>)
    requires
        old(state).wf(),
    ensures
        final(state).wf(),
        r == old(state)@.sent_result(written as nat),
        final(state)@ == old(state)@.after_sent(
            written as nat,
            ServerTestPhase::GreetingReceiveToken,
        ),
{
    state.line_sent(written, ServerTestPhase::GreetingReceiveToken)
}

/// Handles readable data of the token line.
pub fn handle_greeting_receive_token(state: &mut TestState, data: &[u8]) -> (r: Result<
    Progress,
    ProtocolError,
>)
    requires
        old(state).wf(),
    ensures
        final(state).wf(),
        (final(state)@, r) == old(state)@.greeting_receive_token(data@),
{
    match state.io.receive(data) {
        Err(e) => {
            return Err(e);
        },
        Ok(_) => {},
    }
    if !ends_line(state.io.line()) {
        return Ok(Progress::Pending);
    }
    if check_token_line(state.io.line()) {
        let mut answer = text_bytes("OK\n");
        let bounds = chunk_size_message(CHUNK_SIZE, MIN_CHUNK_SIZE, MAX_CHUNK_SIZE);
        answer.extend_from_slice(bounds.as_slice());
        proof {
            lemma_greeting_fits(None);
            assert(answer@ == token_accepted_lines());
        }
        state.begin_send(ServerTestPhase::GreetingSendChunkSize, answer.as_slice());
    } else {
        state.refuse(ProtocolError::BadToken);
    }
    Ok(Progress::Advanced)
}

/// Handles the progress of writing the answer to the token; once it is out
/// the banner of admissible commands is staged.
pub fn handle_greeting_send_chunk_size(state: &mut TestState, written: usize) -> (r: Result<
    Progress,
    ProtocolError,
>)
    requires
        old(state).wf(),
    ensures
        final(state).wf(),
        r == old(state)@.sent_result(written as nat),
        final(state)@ == old(state)@.after_sent_accept(written as nat),
{
    state.line_sent_accept(written)
}

} // verus!
