//! The variants of the task-driven byte stream, and its WebSocket framing.

use crate::limits::CHUNK_SIZE;
use crate::text::{contains, contains_bytes};
use crate::wire::text_bytes;
use vstd::prelude::*;
use vstd::string::*;

verus! {

/// Which transport a task-driven byte stream runs over.
#[derive(Clone, Copy, Debug, PartialEq, Eq, Structural)]
pub enum Stream {
    Plain,
    Tls,
    WebSocket,
    WebSocketTls,
}

/// Why a stream cannot be upgraded.
#[derive(Clone, Copy, Debug, PartialEq, Eq, Structural)]
pub enum UpgradeError {
    /// The stream already carries WebSocket frames.
    InvalidInput,
    /// The server did not answer the handshake with `101`.
    InvalidData,
}

/// The name of a variant.
pub open spec fn variant_name(stream: Stream) -> Seq<char> {
    match stream {
        Stream::Plain => "Plain"@,
        Stream::Tls => "TLS"@,
        Stream::WebSocket => "WebSocket"@,
        Stream::WebSocketTls => "WebSocketTLS"@,
    }
}

/// The handshake request of a WebSocket client.
pub open spec fn handshake_request() -> Seq<u8> {
    "GET / HTTP/1.1\r\nHost: localhost\r\nConnection: Upgrade\r\nUpgrade: websocket\r\nSec-WebSocket-Version: 13\r\nSec-WebSocket-Key: dGhlIHNhbXBsZSBub25jZQ==\r\n\r\n".spec_bytes()
}

/// The status line by which a server agrees to the handshake.
pub open spec fn switching_protocols() -> Seq<u8> {
    "HTTP/1.1 101".spec_bytes()
}

/// The variant that an upgrade leads to, given the server's answer to the
/// handshake: a plain or TLS stream whose handshake was answered with `101`
/// becomes its WebSocket variant; a stream that already carries frames
/// cannot be upgraded.
pub open spec fn upgraded(stream: Stream, response: Seq<u8>) -> Result<Stream, UpgradeError> {
    match stream {
        Stream::Plain => if contains(response, switching_protocols()) {
            Ok(Stream::WebSocket)
        } else {
            Err(UpgradeError::InvalidData)
        },
        Stream::Tls => if contains(response, switching_protocols()) {
            Ok(Stream::WebSocketTls)
        } else {
            Err(UpgradeError::InvalidData)
        },
        _ => Err(UpgradeError::InvalidInput),
    }
}

/// What a WebSocket frame is to the protocol.
#[derive(Clone, Copy, Debug, PartialEq, Eq, Structural)]
pub enum FrameKind {
    Binary,
    Text,
    /// Ping, pong, close and raw frames: consumed without delivering bytes.
    Other,
}

/// Smallest payload that goes out as a text frame.
pub const TEXT_MIN: usize = 2;

/// Largest payload that goes out as a text frame.
pub const TEXT_MAX: usize = CHUNK_SIZE - 3;

/// The frame kind for a payload of `len` bytes: binary below two bytes and
/// above the chunk size less three, text between.
pub open spec fn frame_kind_of(len: nat) -> FrameKind {
    if len < TEXT_MIN || len > TEXT_MAX {
        FrameKind::Binary
    } else {
        FrameKind::Text
    }
}

/// What a read does with a frame that arrived.
#[derive(Clone, Copy, Debug, PartialEq, Eq, Structural)]
pub enum FrameAction {
    /// The frame carries no data: it is consumed, and the read goes on to
    /// the next frame.
    Skip,
    /// The read delivers this many bytes of the frame's payload.
    Deliver(usize),
}

/// What a read into a destination with `room` bytes does with a frame of
/// `payload` bytes: a ping, pong or close frame is consumed without the
/// caller seeing it; of a text or binary frame as many bytes are delivered
/// as the destination takes.
pub open spec fn action_of(kind: FrameKind, payload: usize, room: usize) -> FrameAction {
    if kind == FrameKind::Other {
        FrameAction::Skip
    } else if payload <= room {
        FrameAction::Deliver(payload)
    } else {
        FrameAction::Deliver(room)
    }
}

impl Stream {
    /// The handshake request that a client sends to upgrade.
    pub fn upgrade_request(&self) -> (r: Vec<u8>)
        ensures
            r@ == handshake_request(),
    {
        text_bytes(
            "GET / HTTP/1.1\r\nHost: localhost\r\nConnection: Upgrade\r\nUpgrade: websocket\r\nSec-WebSocket-Version: 13\r\nSec-WebSocket-Key: dGhlIHNhbXBsZSBub25jZQ==\r\n\r\n",
        )
    }

    /// The variant that the stream becomes, `response` being the server's
    /// answer to the handshake request.
    pub fn upgrade_to_websocket(self, response: &[u8]) -> (r: Result<Stream, UpgradeError>)
        ensures
            r == upgraded(self, response@),
    {
        match self {
            Stream::Plain => {
                if contains_bytes(response, "HTTP/1.1 101".as_bytes()) {
                    Ok(Stream::WebSocket)
                } else {
                    Err(UpgradeError::InvalidData)
                }
            },
            Stream::Tls => {
                if contains_bytes(response, "HTTP/1.1 101".as_bytes()) {
                    Ok(Stream::WebSocketTls)
                } else {
                    Err(UpgradeError::InvalidData)
                }
            },
            _ => Err(UpgradeError::InvalidInput),
        }
    }

    /// What one read into a destination with `room` bytes does with a
    /// frame of kind `kind` with `payload` bytes.
    pub fn read(kind: FrameKind, payload: usize, room: usize) -> (r: FrameAction)
        ensures
            r == action_of(kind, payload, room),
            (r == FrameAction::Skip) == (kind == FrameKind::Other),
            r matches FrameAction::Deliver(n) ==> n <= room && n <= payload,
    {
        match kind {
            FrameKind::Other => FrameAction::Skip,
            _ => if payload <= room {
                FrameAction::Deliver(payload)
            } else {
                FrameAction::Deliver(room)
            },
        }
    }

    /// The kind of frame that carries a payload of `len` bytes.
    pub fn write(len: usize) -> (r: FrameKind)
        ensures
            r == frame_kind_of(len as nat),
            r != FrameKind::Other,
    {
        if len < TEXT_MIN || len > TEXT_MAX {
            FrameKind::Binary
        } else {
            FrameKind::Text
        }
    }

    /// The kind of frame that carries a payload of `len` bytes written in
    /// full; the same choice as for a single write.
    pub fn write_all(len: usize) -> (r: FrameKind)
        ensures
            r == frame_kind_of(len as nat),
    {
        Stream::write(len)
    }

    /// Whether flushing reaches the transport: WebSocket variants have
    /// nothing of their own to flush.
    pub fn flush(&self) -> (r: bool)
        ensures
            r == (*self == Stream::Plain || *self == Stream::Tls),
    {
        match self {
            Stream::Plain | Stream::Tls => true,
            _ => false,
        }
    }

    /// The name of the variant.
    pub fn to_string(&self) -> (r: String)
        ensures
            r@ == variant_name(*self),
    {
        match self {
            Stream::Plain => String::from_str("Plain"),
            Stream::Tls => String::from_str("TLS"),
            Stream::WebSocket => String::from_str("WebSocket"),
            Stream::WebSocketTls => String::from_str("WebSocketTLS"),
        }
    }
}

} // verus!
