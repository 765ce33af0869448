//! The server's answer to a WebSocket handshake.

use crate::text::{find, find_first, index_of, position};
use crate::wire::text_bytes;
use vstd::prelude::*;
use vstd::slice::slice_subrange;
use vstd::string::*;

verus! {

/// Carriage return, which ends a header line together with the line feed.
pub const CARRIAGE_RETURN: u8 = 13;

/// The value of `Sec-WebSocket-Accept` that answers a `Sec-WebSocket-Key`.
pub uninterp spec fn accept_key(request_key: Seq<u8>) -> Seq<u8>;

/// Calls `tungstenite::handshake::derive_accept_key` and takes the result
/// as bytes.
#[verifier::external_body]
fn derive_accept_key(request_key: &[u8]) -> (r: Vec<u8>)
    ensures
        r@ == accept_key(request_key@),
{
    tokio_tungstenite::tungstenite::handshake::derive_accept_key(request_key).into_bytes()
}

/// Why a handshake cannot be answered.
#[derive(Clone, Copy, Debug, PartialEq, Eq, Structural)]
pub enum HandshakeError {
    /// The request carries no `Sec-WebSocket-Key`.
    MissingKey,
}

/// A text without the spaces and tabs that open it.
pub open spec fn without_leading_spaces(text: Seq<u8>) -> Seq<u8>
    decreases text.len(),
{
    if text.len() > 0 && (text[0] == 32 || text[0] == 9) {
        without_leading_spaces(text.skip(1))
    } else {
        text
    }
}

/// The key that a request presents: what stands behind the first
/// `Sec-WebSocket-Key:`, spaces aside, up to the end of that header line.
/// There is none without that header, without the end of its line, or
/// where nothing stands between the two.
pub open spec fn request_key(request: Seq<u8>) -> Option<Seq<u8>> {
    let name = "Sec-WebSocket-Key:".spec_bytes();
    match find_first(request, name) {
        None => None,
        Some(at) => {
            let value = without_leading_spaces(request.skip(at + name.len()));
            let end = index_of(value, CARRIAGE_RETURN);
            if 0 < end < value.len() {
                Some(value.take(end))
            } else {
                None
            }
        },
    }
}

/// The response that completes the handshake for the key `key`.
pub open spec fn handshake_response(key: Seq<u8>) -> Seq<u8> {
    "HTTP/1.1 101 Switching Protocols\r\nUpgrade: websocket\r\nConnection: Upgrade\r\nSec-WebSocket-Accept: ".spec_bytes()
        + accept_key(key) + "\r\n\r\n".spec_bytes()
}

fn skip_spaces(text: &[u8]) -> (r: &[u8])
    ensures
        r@ == without_leading_spaces(text@),
{
    let total: usize = text.len();
    let mut i: usize = 0;
    assert(text@.skip(0) =~= text@);
    while i < total && (text[i] == 32 || text[i] == 9)
        invariant
            total == text@.len(),
            i <= total,
            without_leading_spaces(text@) == without_leading_spaces(text@.skip(i as int)),
        decreases total - i,
    {
        assert(text@.skip(i as int).skip(1) =~= text@.skip(i + 1));
        i += 1;
    }
    let r = slice_subrange(text, i, total);
    assert(r@ =~= text@.skip(i as int));
    r
}

/// The key that a request presents.
pub fn sec_websocket_key(request: &[u8]) -> (r: Option<Vec<u8>>)
    ensures
        match r {
            Some(key) => request_key(request@) == Some(key@),
            None => request_key(request@).is_none(),
        },
{
    let name = "Sec-WebSocket-Key:".as_bytes();
    let total: usize = request.len();
    match find(request, name) {
        None => None,
        Some(at) => {
            let rest = slice_subrange(request, at + name.len(), total);
            assert(rest@ =~= request@.skip(at + name.len()));
            let value = skip_spaces(rest);
            match position(value, CARRIAGE_RETURN) {
                Some(end) => {
                    if end > 0 {
                        let key = slice_subrange(value, 0, end);
                        assert(key@ =~= value@.take(end as int));
                        Some(vstd::slice::slice_to_vec(key))
                    } else {
                        None
                    }
                },
                None => None,
            }
        },
    }
}

/// The response that completes the handshake which `request` opens.
pub fn server_handshake_response(request: &[u8]) -> (r: Result<Vec<u8>, HandshakeError>)
    ensures
        match r {
            Ok(response) => request_key(request@).is_some() && response@ == handshake_response(
                request_key(request@).unwrap(),
            ),
            Err(e) => e == HandshakeError::MissingKey && request_key(request@).is_none(),
        },
{
    match sec_websocket_key(request) {
        None => Err(HandshakeError::MissingKey),
        Some(key) => {
            let mut out = text_bytes(
                "HTTP/1.1 101 Switching Protocols\r\nUpgrade: websocket\r\nConnection: Upgrade\r\nSec-WebSocket-Accept: ",
            );
            let accept = derive_accept_key(key.as_slice());
            out.extend_from_slice(accept.as_slice());
            out.extend_from_slice("\r\n\r\n".as_bytes());
            Ok(out)
        },
    }
}

} // verus!
