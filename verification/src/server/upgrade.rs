//! The greeting upgrade: the first request on an accepted socket decides
//! whether the connection speaks the protocol raw or inside WebSocket
//! frames.

use crate::text::{contains, contains_bytes};
use crate::wire::{header_end, text_bytes, upgrade_banner};
use vstd::prelude::*;
use vstd::string::*;

verus! {

/// Nanoseconds within which the first request has to be complete.
pub const UPGRADE_TIMEOUT_NS: u64 = 3_000_000_000;

/// The text that a byte string decodes to as UTF-8, with the replacement
/// character for what is no UTF-8.
pub uninterp spec fn lossy_text(bytes: Seq<u8>) -> Seq<char>;

/// Whether a regular expression matches anywhere in a text; `None` where
/// the pattern is no regular expression.
pub uninterp spec fn regex_matches(pattern: Seq<char>, text: Seq<char>) -> Option<bool>;

/// Calls `String::from_utf8_lossy` and takes the result as an owned string.
#[verifier::external_body]
fn decode_lossy(bytes: &[u8]) -> (r: String)
    ensures
        r@ == lossy_text(bytes@),
{
    String::from_utf8_lossy(bytes).into_owned()
}

/// Compiles `pattern` with `regex::Regex::new` and calls `is_match` on
/// `text`. `None` where the pattern is refused.
#[verifier::external_body]
fn regex_is_match(pattern: &str, text: &str) -> (r: Option<bool>)
    ensures
        r == regex_matches(pattern@, text@),
{
    match regex::Regex::new(pattern) {
        Ok(re) => Some(re.is_match(text)),
        Err(_) => None,
    }
}

/// How a connection goes on after its first request.
#[derive(Clone, Copy, Debug, PartialEq, Eq, Structural)]
pub enum UpgradeDecision {
    /// The request is not complete; more is awaited.
    Wait,
    /// The request was not complete in time; the connection is closed with a
    /// timeout error.
    TimedOut,
    /// The request asks for WebSocket: the stream is swapped for its
    /// WebSocket variant and the handshake response is sent.
    WebSocket,
    /// Any other request: the upgrade banner is written and the stream stays
    /// raw.
    Plain,
}

/// The request holds the end of its header block.
pub open spec fn header_complete(request: Seq<u8>) -> bool {
    contains(request, header_end())
}

/// The request carries an `Upgrade: websocket` header, in any letter case.
pub open spec fn asks_websocket(request: Seq<u8>) -> bool {
    regex_matches("(?i)upgrade:\\s*websocket"@, lossy_text(request)) == Some(true)
}

/// The decision, given whether the header block is complete, whether the
/// request asks for WebSocket, and the nanoseconds since the socket was
/// taken up. A complete request is decided by its header; an incomplete one
/// waits until the deadline has passed.
pub open spec fn decision_of(complete: bool, websocket: bool, elapsed_ns: u64) -> UpgradeDecision {
    if complete {
        if websocket {
            UpgradeDecision::WebSocket
        } else {
            UpgradeDecision::Plain
        }
    } else if elapsed_ns > UPGRADE_TIMEOUT_NS {
        UpgradeDecision::TimedOut
    } else {
        UpgradeDecision::Wait
    }
}

/// Decides how a connection goes on, from what is known of its first
/// request.
pub fn decide_upgrade(complete: bool, websocket: bool, elapsed_ns: u64) -> (r: UpgradeDecision)
    ensures
        r == decision_of(complete, websocket, elapsed_ns),
        !complete && elapsed_ns > UPGRADE_TIMEOUT_NS ==> r == UpgradeDecision::TimedOut,
{
    if complete {
        if websocket {
            UpgradeDecision::WebSocket
        } else {
            UpgradeDecision::Plain
        }
    } else if elapsed_ns > UPGRADE_TIMEOUT_NS {
        UpgradeDecision::TimedOut
    } else {
        UpgradeDecision::Wait
    }
}

/// Whether the request carries an `Upgrade: websocket` header.
pub fn is_websocket_request(request: &[u8]) -> (r: bool)
    ensures
        r == asks_websocket(request@),
{
    let text = decode_lossy(request);
    match regex_is_match("(?i)upgrade:\\s*websocket", text.as_str()) {
        Some(found) => found,
        None => false,
    }
}

/// Decides how a connection goes on, `request` being what was read of its
/// first request `elapsed_ns` after the socket was taken up.
pub fn handle_greeting_receive_connection_type(request: &[u8], elapsed_ns: u64) -> (r:
    UpgradeDecision)
    ensures
        r == decision_of(header_complete(request@), asks_websocket(request@), elapsed_ns),
        !header_complete(request@) && elapsed_ns > UPGRADE_TIMEOUT_NS ==> r
            == UpgradeDecision::TimedOut,
{
    let end = text_bytes("\r\n\r\n");
    let complete: bool = contains_bytes(request, end.as_slice());
    let websocket: bool = if complete {
        is_websocket_request(request)
    } else {
        false
    };
    decide_upgrade(complete, websocket, elapsed_ns)
}

/// The banner that answers a request which does not ask for WebSocket.
pub fn plain_upgrade_response() -> (r: Vec<u8>)
    ensures
        r@ == upgrade_banner(),
{
    text_bytes("HTTP/1.1 101 Switching Protocols\r\nConnection: Upgrade\r\nUpgrade: RMBT\r\n\r\n")
}

} // verus!
