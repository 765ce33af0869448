//! The signed envelope: a one-line summary of the run, authenticated with
//! HMAC-SHA256 under the connection's key.

use crate::decimal::{decimal, push_decimal};
use crate::error::ProtocolError;
use crate::event::Progress;
use crate::server::greeting::is_base64_text;
use crate::server::state::{ServerStep, ServerTestPhase, ServerView, TestState};
use crate::channel::BUFFER_SIZE;
use crate::client::signed_result::{ends_line, is_line};
use crate::text::same_bytes;
use crate::wire::{ok_line, text_bytes, NEWLINE};
use vstd::prelude::*;
use vstd::string::*;

verus! {

/// Length of a signing key in bytes.
pub const KEY_LEN: usize = 32;

/// The separator between the message of an envelope and its signature.
pub const COLON: u8 = 58;

/// The standard base64 text, with padding, of a byte string.
pub uninterp spec fn base64_text(bytes: Seq<u8>) -> Seq<u8>;

/// The byte string that a standard base64 text with padding stands for, if
/// it is one.
pub uninterp spec fn base64_bytes(text: Seq<u8>) -> Option<Seq<u8>>;

/// The HMAC-SHA256 authentication code of a message under a key.
pub uninterp spec fn hmac_sha256(key: Seq<u8>, message: Seq<u8>) -> Seq<u8>;

/// The length of the padded base64 text of `n` bytes: four characters for
/// every three bytes begun.
pub open spec fn base64_len(n: nat) -> nat {
    n / 3 * 4 + if n % 3 > 0 {
        4nat
    } else {
        0nat
    }
}

/// Calls `base64::Engine::encode` on the `STANDARD` engine. The result is
/// the base64 text of the input; it consists of bytes of the base64
/// alphabet, has four characters for every three bytes begun, and decoding
/// it gives the input back. The input is kept short enough for the length
/// of the text to be computed.
#[verifier::external_body]
fn base64_encode(bytes: &[u8]) -> (r: Vec<u8>)
    requires
        bytes@.len() <= 0x3fff_ffff,
    ensures
        r@ == base64_text(bytes@),
        base64_bytes(r@) == Some(bytes@),
        is_base64_text(r@),
        r@.len() == base64_len(bytes@.len()),
{
    base64::Engine::encode(&base64::engine::general_purpose::STANDARD, bytes).into_bytes()
}

/// Calls `base64::Engine::decode` on the `STANDARD` engine. The result is
/// the byte string that the text stands for, `None` where the engine
/// reports a decode error.
#[verifier::external_body]
fn base64_decode(text: &[u8]) -> (r: Option<Vec<u8>>)
    ensures
        match r {
            Some(bytes) => base64_bytes(text@) == Some(bytes@),
            None => base64_bytes(text@).is_none(),
        },
{
    match base64::Engine::decode(&base64::engine::general_purpose::STANDARD, text) {
        Ok(bytes) => Some(bytes),
        Err(_) => None,
    }
}

/// Length of an HMAC-SHA256 code in bytes.
pub const CODE_LEN: usize = 32;

/// Length of a signature, the base64 text of a code.
pub const SIGNATURE_LEN: usize = 44;

/// Length of the base64 text of a signing key.
pub const KEY_TEXT_LEN: usize = 44;

/// Computes the code with `hmac::Hmac<sha2::Sha256>`: `new_from_slice`,
/// `update`, `finalize`. HMAC takes a key of any length, so a code always
/// results; it has the length of a SHA-256 digest.
#[verifier::external_body]
fn hmac_sha256_code(key: &[u8], message: &[u8]) -> (r: Option<Vec<u8>>)
    ensures
        match r {
            Some(code) => code@ == hmac_sha256(key@, message@) && code@.len() == CODE_LEN,
            None => false,
        },
{
    match <hmac::Hmac<sha2::Sha256> as hmac::Mac>::new_from_slice(key) {
        Ok(mut mac) => {
            hmac::Mac::update(&mut mac, message);
            Some(hmac::Mac::finalize(mac).into_bytes().to_vec())
        },
        Err(_) => None,
    }
}

/// Calls `openssl::rand::rand_bytes` on a buffer of `len` bytes. Nothing is
/// said of the bytes but their number; `None` where the generator reports
/// an error.
#[verifier::external_body]
fn random_bytes(len: usize) -> (r: Option<Vec<u8>>)
    requires
        len <= 0x7fff_ffff,
    ensures
        match r {
            Some(bytes) => bytes@.len() == len,
            None => true,
        },
{
    let mut buffer = vec![0u8; len];
    match openssl::rand::rand_bytes(&mut buffer) {
        Ok(_) => Some(buffer),
        Err(_) => None,
    }
}

/// The signature of `message` under the key whose base64 text is
/// `secret_key`: the base64 text of the HMAC-SHA256 code. There is none
/// where the key is no base64 text.
pub open spec fn signature_of(message: Seq<u8>, secret_key: Seq<u8>) -> Option<Seq<u8>> {
    match base64_bytes(secret_key) {
        Some(key) => Some(base64_text(hmac_sha256(key, message))),
        None => None,
    }
}

/// `text` is the base64 text of a key of the length that keys have.
pub open spec fn is_secret_key(text: Seq<u8>) -> bool {
    exists|bytes: Seq<u8>| bytes.len() == KEY_LEN && text == base64_text(bytes)
}

/// The message of an envelope:
/// `GETTIME:(<bytes> <ns>); PUTTIMERESULT:(<bytes> <ns>); CLIENT_IP:<addr>; TIMESTAMP:<ns>;`
pub open spec fn envelope_message(
    download_bytes: u64,
    download_ns: u64,
    upload_bytes: u64,
    upload_ns: u64,
    client_addr: Seq<u8>,
    timestamp: u64,
) -> Seq<u8> {
    "GETTIME:(".spec_bytes() + decimal(download_bytes as nat) + " ".spec_bytes() + decimal(
        download_ns as nat,
    ) + "); PUTTIMERESULT:(".spec_bytes() + decimal(upload_bytes as nat) + " ".spec_bytes()
        + decimal(upload_ns as nat) + "); CLIENT_IP:".spec_bytes() + client_addr
        + "; TIMESTAMP:".spec_bytes() + decimal(timestamp as nat) + ";".spec_bytes()
}

/// The envelope as it goes over the wire: `<message>:<signature>\n`
pub open spec fn envelope_line(message: Seq<u8>, signature: Seq<u8>) -> Seq<u8> {
    (message.push(COLON) + signature).push(NEWLINE)
}

/// Signs `message` under the key whose base64 text is `secret_key`. The
/// signature, decoded, is the HMAC-SHA256 code of the message under the
/// decoded key; the code has 32 bytes, the signature 44 characters. A key
/// that is no base64 text is refused.
pub fn sign_message(message: &[u8], secret_key: &[u8]) -> (r: Result<Vec<u8>, ProtocolError>)
    ensures
        match r {
            Ok(signature) => {
                &&& signature_of(message@, secret_key@) == Some(signature@)
                &&& base64_bytes(secret_key@).is_some()
                &&& base64_bytes(signature@) == Some(
                    hmac_sha256(base64_bytes(secret_key@).unwrap(), message@),
                )
                &&& is_base64_text(signature@)
                &&& base64_bytes(signature@).unwrap().len() == CODE_LEN
                &&& signature@.len() == SIGNATURE_LEN
            },
            Err(e) => e == ProtocolError::BadKey && signature_of(message@, secret_key@).is_none(),
        },
{
    match base64_decode(secret_key) {
        None => Err(ProtocolError::BadKey),
        Some(key) => match hmac_sha256_code(key.as_slice(), message) {
            None => Err(ProtocolError::BadKey),
            Some(code) => Ok(base64_encode(code.as_slice())),
        },
    }
}

/// The base64 text of key material.
pub fn secret_key_from(bytes: &[u8]) -> (r: Vec<u8>)
    requires
        bytes@.len() == KEY_LEN,
    ensures
        r@ == base64_text(bytes@),
        is_secret_key(r@),
        base64_bytes(r@) == Some(bytes@),
        r@.len() == KEY_TEXT_LEN,
{
    base64_encode(bytes)
}

/// Generates a fresh signing key: the base64 text of 32 random bytes.
/// `None` where the random generator fails.
pub fn generate_secret_key() -> (r: Option<Vec<u8>>)
    ensures
        match r {
            Some(key) => is_secret_key(key@) && base64_bytes(key@).is_some(),
            None => true,
        },
{
    secret_key_of(random_bytes(KEY_LEN))
}

/// The key that the outcome of the random generator makes: the base64 text
/// of the material, where the generator gave material of the length that
/// keys have; none where it failed or gave material of another length.
pub open spec fn key_of(random: Option<Seq<u8>>) -> Option<Seq<u8>> {
    match random {
        Some(bytes) => if bytes.len() == KEY_LEN {
            Some(base64_text(bytes))
        } else {
            None
        },
        None => None,
    }
}

/// The outcome of the random generator as contracts speak of it.
pub open spec fn material_of(random: Option<Vec<u8>>) -> Option<Seq<u8>> {
    match random {
        Some(bytes) => Some(bytes@),
        None => None,
    }
}

/// Makes the signing key from the outcome of the random generator. A key
/// that results decodes to the material it was made from.
pub fn secret_key_of(random: Option<Vec<u8>>) -> (r: Option<Vec<u8>>)
    ensures
        match r {
            Some(key) => key_of(material_of(random)) == Some(key@) && is_secret_key(key@)
                && base64_bytes(key@) == material_of(random) && key@.len() == KEY_TEXT_LEN,
            None => key_of(material_of(random)).is_none(),
        },
{
    match random {
        Some(bytes) => if bytes.len() == KEY_LEN {
            Some(secret_key_from(bytes.as_slice()))
        } else {
            None
        },
        None => None,
    }
}

/// Composes the message of an envelope.
pub fn compose_message(
    download_bytes: u64,
    download_ns: u64,
    upload_bytes: u64,
    upload_ns: u64,
    client_addr: &[u8],
    timestamp: u64,
) -> (r: Vec<u8>)
    ensures
        r@ == envelope_message(
            download_bytes,
            download_ns,
            upload_bytes,
            upload_ns,
            client_addr@,
            timestamp,
        ),
{
    let mut out = text_bytes("GETTIME:(");
    push_decimal(&mut out, download_bytes);
    out.extend_from_slice(" ".as_bytes());
    push_decimal(&mut out, download_ns);
    out.extend_from_slice("); PUTTIMERESULT:(".as_bytes());
    push_decimal(&mut out, upload_bytes);
    out.extend_from_slice(" ".as_bytes());
    push_decimal(&mut out, upload_ns);
    out.extend_from_slice("); CLIENT_IP:".as_bytes());
    out.extend_from_slice(client_addr);
    out.extend_from_slice("; TIMESTAMP:".as_bytes());
    push_decimal(&mut out, timestamp);
    out.extend_from_slice(";".as_bytes());
    out
}

impl ServerView {
    /// Both timed transfers have been done.
    pub open spec fn measured(self) -> bool {
        self.download_time_ns.is_some() && self.upload_time_ns.is_some()
    }

    /// The message of the envelope for this connection at `timestamp`.
    pub open spec fn message(self, timestamp: u64) -> Seq<u8> {
        envelope_message(
            self.download_bytes,
            self.download_time_ns.unwrap(),
            self.upload_bytes,
            self.upload_time_ns.unwrap(),
            self.client_addr,
            timestamp,
        )
    }

    /// Staging the envelope signed under `key` at `timestamp`: the key
    /// becomes the connection's key. The envelope is refused before both
    /// timed transfers are done, under a key that is no base64 text, and
    /// where it does not fit the line buffer.
    pub open spec fn staging_envelope(self, key: Seq<u8>, timestamp: u64) -> ServerStep {
        if !self.measured() {
            (self, Err(ProtocolError::NotMeasured))
        } else {
            match signature_of(self.message(timestamp), key) {
                None => (self, Err(ProtocolError::BadKey)),
                Some(signature) => {
                    let line = envelope_line(self.message(timestamp), signature);
                    if line.len() > BUFFER_SIZE {
                        (self, Err(ProtocolError::LineTooLong))
                    } else {
                        (
                            ServerView {
                                sig_key: Some(key),
                                ..self.sending(ServerTestPhase::SignedResultSend, line)
                            },
                            Ok(Progress::Pending),
                        )
                    }
                },
            }
        }
    }

    /// Receiving `data` of the acknowledgement of the envelope. An empty
    /// read is the end of the stream. Once the line is complete, `OK` stages
    /// the banner of admissible commands; any other line is refused.
    pub open spec fn signed_result_receive_ok(self, data: Seq<u8>) -> ServerStep {
        let line = self.io.received + data;
        if data.len() == 0 {
            (self, Err(ProtocolError::UnexpectedEof))
        } else if line.len() > BUFFER_SIZE {
            (self, Err(ProtocolError::LineTooLong))
        } else if !is_line(line) {
            (self.with_received(data), Ok(Progress::Pending))
        } else if line != ok_line() {
            (self.refusing(ProtocolError::UnexpectedReply, line), Ok(Progress::Advanced))
        } else {
            (
                self.sending(
                    ServerTestPhase::AcceptCommandSend,
                    crate::wire::accept_commands_line(),
                ),
                Ok(Progress::Advanced),
            )
        }
    }
}

/// Stages the envelope of the connection, signed under `key` at
/// `timestamp`.
pub fn stage_envelope(state: &mut TestState, key: Vec<u8>, timestamp: u64) -> (r: Result<
    Progress,
    ProtocolError,
>)
    requires
        old(state).wf(),
    ensures
        final(state).wf(),
        (final(state)@, r) == old(state)@.staging_envelope(key@, timestamp),
{
    let (download_ns, upload_ns) = match (state.download_time_ns, state.upload_time_ns) {
        (Some(d), Some(u)) => (d, u),
        _ => {
            return Err(ProtocolError::NotMeasured);
        },
    };
    let message = compose_message(
        state.download_bytes,
        download_ns,
        state.upload_bytes,
        upload_ns,
        state.client_addr.as_slice(),
        timestamp,
    );
    let signature = match sign_message(message.as_slice(), key.as_slice()) {
        Ok(s) => s,
        Err(e) => {
            return Err(e);
        },
    };
    let ghost text = message@;
    let mut line = message;
    line.push(COLON);
    line.extend_from_slice(signature.as_slice());
    line.push(NEWLINE);
    assert(line@ == envelope_line(text, signature@));
    if line.len() > BUFFER_SIZE {
        return Err(ProtocolError::LineTooLong);
    }
    state.begin_send(ServerTestPhase::SignedResultSend, line.as_slice());
    state.sig_key = Some(key);
    Ok(Progress::Pending)
}

/// What a writable event may do while the envelope is owed. With the
/// envelope staged, the progress of writing it is accounted for, and once
/// it is out the acknowledgement is awaited. With nothing staged yet and
/// nothing written, the envelope is staged under the connection's key; a
/// connection without a key gets one generated, or fails where none can be
/// generated.
pub open spec fn signed_result_outcome(
    before: ServerView,
    written: nat,
    now: u64,
    after: ServerView,
    result: Result<Progress, ProtocolError>,
) -> bool {
    if before.io.pending.len() > 0 {
        result == before.sent_result(written) && after == before.after_sent(
            written,
            ServerTestPhase::SignedResultReceiveOk,
        )
    } else if written > 0 {
        result == Err::<Progress, ProtocolError>(ProtocolError::Overrun) && after == before
    } else {
        match before.sig_key {
            Some(key) => (after, result) == before.staging_envelope(key, now),
            None => (result == Err::<Progress, ProtocolError>(ProtocolError::KeyUnavailable)
                && after == before) || (exists|key: Seq<u8>|
                is_secret_key(key) && (after, result) == before.staging_envelope(key, now)),
        }
    }
}

/// Handles a writable event while the envelope is owed, at clock reading
/// `now`.
pub fn handle_signed_result(state: &mut TestState, written: usize, now: u64) -> (r: Result<
    Progress,
    ProtocolError,
>)
    requires
        old(state).wf(),
    ensures
        final(state).wf(),
        signed_result_outcome(old(state)@, written as nat, now, final(state)@, r),
{
    if state.io.outgoing().len() > 0 {
        return state.line_sent(written, ServerTestPhase::SignedResultReceiveOk);
    }
    if written > 0 {
        return Err(ProtocolError::Overrun);
    }
    let key = match &state.sig_key {
        Some(k) => k.clone(),
        None => match generate_secret_key() {
            Some(k) => k,
            None => {
                return Err(ProtocolError::KeyUnavailable);
            },
        },
    };
    stage_envelope(state, key, now)
}

/// Handles readable data of the acknowledgement of the envelope.
pub fn handle_signed_result_receive_ok(state: &mut TestState, data: &[u8]) -> (r: Result<
    Progress,
    ProtocolError,
>)
    requires
        old(state).wf(),
    ensures
        final(state).wf(),
        (final(state)@, r) == old(state)@.signed_result_receive_ok(data@),
{
    if data.len() == 0 {
        return Err(ProtocolError::UnexpectedEof);
    }
    match state.io.receive(data) {
        Err(e) => {
            return Err(e);
        },
        Ok(_) => {},
    }
    if !ends_line(state.io.line()) {
        return Ok(Progress::Pending);
    }
    let ok = text_bytes("OK\n");
    if !same_bytes(state.io.line(), ok.as_slice()) {
        state.refuse(ProtocolError::UnexpectedReply);
        return Ok(Progress::Advanced);
    }
    let accept = text_bytes("ACCEPT GETCHUNKS GETTIME PUT PUTNORESULT PING QUIT\n");
    proof {
        crate::wire::lemma_short_lines(0, 0, 0);
    }
    state.begin_send(ServerTestPhase::AcceptCommandSend, accept.as_slice());
    Ok(Progress::Advanced)
}

} // verus!
