//! The variants of the readiness-driven byte stream.

use crate::stream::websocket::{
    handshake_response, request_key, server_handshake_response, HandshakeError,
};
use crate::wire::{text_bytes, upgrade_request};
use vstd::prelude::*;
use vstd::string::*;

verus! {

/// Which transport a byte stream runs over.
#[derive(Clone, Copy, Debug, PartialEq, Eq, Structural)]
pub enum Stream {
    Tcp,
    WebSocket,
    OpenSsl,
    Rustls,
    RustlsServer,
    WebSocketTls,
    WebSocketRustlsServer,
}

/// The name of a variant.
pub open spec fn name_of(stream: Stream) -> Seq<char> {
    match stream {
        Stream::Tcp => "Tcp"@,
        Stream::OpenSsl => "OpenSsl"@,
        Stream::WebSocket => "WebSocket"@,
        Stream::Rustls => "Rustls"@,
        Stream::WebSocketTls => "WebSocketTls"@,
        Stream::RustlsServer => "RustlsServer"@,
        Stream::WebSocketRustlsServer => "WebSocketRustlsServer"@,
    }
}

/// The variant that a stream becomes when the server finds that its client
/// asks for WebSocket: a raw TCP stream and a server-side TLS stream are
/// wrapped, every other variant stays what it is.
pub open spec fn upgraded(stream: Stream) -> Stream {
    match stream {
        Stream::Tcp => Stream::WebSocket,
        Stream::RustlsServer => Stream::WebSocketRustlsServer,
        other => other,
    }
}

/// The variant answers a client's WebSocket handshake.
pub open spec fn answers_handshake(stream: Stream) -> bool {
    stream == Stream::WebSocket || stream == Stream::WebSocketRustlsServer
}

/// The variant carries WebSocket frames.
pub open spec fn frames(stream: Stream) -> bool {
    stream == Stream::WebSocket || stream == Stream::WebSocketTls || stream
        == Stream::WebSocketRustlsServer
}

/// The variant runs over TLS.
pub open spec fn encrypts(stream: Stream) -> bool {
    stream == Stream::OpenSsl || stream == Stream::Rustls || stream == Stream::RustlsServer
        || stream == Stream::WebSocketTls || stream == Stream::WebSocketRustlsServer
}

impl Stream {
    /// The variant of a client stream over plain TCP.
    pub fn new_tcp() -> (r: Stream)
        ensures
            r == Stream::Tcp,
    {
        Stream::Tcp
    }

    /// The variant of a client stream that speaks WebSocket over TCP.
    pub fn new_websocket() -> (r: Stream)
        ensures
            r == Stream::WebSocket,
    {
        Stream::WebSocket
    }

    /// The variant of a client stream over TLS.
    pub fn new_rustls() -> (r: Stream)
        ensures
            r == Stream::Rustls,
    {
        Stream::Rustls
    }

    /// The variant of a server stream over TLS.
    pub fn new_rustls_server() -> (r: Stream)
        ensures
            r == Stream::RustlsServer,
    {
        Stream::RustlsServer
    }

    /// The variant of a client stream over TLS by OpenSSL.
    pub fn new_openssl() -> (r: Stream)
        ensures
            r == Stream::OpenSsl,
    {
        Stream::OpenSsl
    }

    /// The variant of a client stream that speaks WebSocket over TLS.
    pub fn new_websocket_tls() -> (r: Stream)
        ensures
            r == Stream::WebSocketTls,
    {
        Stream::WebSocketTls
    }

    /// The variant for a client's choice of transport.
    pub fn for_client(use_tls: bool, use_websocket: bool) -> (r: Stream)
        ensures
            r == if use_websocket {
                if use_tls {
                    Stream::WebSocketTls
                } else {
                    Stream::WebSocket
                }
            } else if use_tls {
                Stream::Rustls
            } else {
                Stream::Tcp
            },
            frames(r) == use_websocket,
            encrypts(r) == use_tls,
    {
        if use_websocket {
            if use_tls {
                Stream::WebSocketTls
            } else {
                Stream::WebSocket
            }
        } else if use_tls {
            Stream::Rustls
        } else {
            Stream::Tcp
        }
    }

    /// The name of the variant.
    pub fn return_type(&self) -> (r: &'static str)
        ensures
            r@ == name_of(*self),
    {
        match self {
            Stream::Tcp => "Tcp",
            Stream::OpenSsl => "OpenSsl",
            Stream::WebSocket => "WebSocket",
            Stream::Rustls => "Rustls",
            Stream::WebSocketTls => "WebSocketTls",
            Stream::RustlsServer => "RustlsServer",
            Stream::WebSocketRustlsServer => "WebSocketRustlsServer",
        }
    }

    /// The variant that the stream becomes on a server that found its
    /// client asking for WebSocket.
    pub fn upgrade_to_websocket(self) -> (r: Stream)
        ensures
            r == upgraded(self),
            encrypts(r) == encrypts(self),
            upgraded(r) == r,
    {
        match self {
            Stream::Tcp => Stream::WebSocket,
            Stream::RustlsServer => Stream::WebSocketRustlsServer,
            other => other,
        }
    }

    /// What the variant sends to complete the WebSocket handshake that
    /// `request` opens: the two variants that a server upgrade leads to send
    /// the response for the request's key, every other variant sends
    /// nothing. A request without a key cannot be answered.
    pub fn finish_server_handshake(&self, request: &[u8]) -> (r: Result<
        Option<Vec<u8>>,
        HandshakeError,
    >)
        ensures
            match r {
                Ok(Some(response)) => answers_handshake(*self) && request_key(request@).is_some()
                    && response@ == handshake_response(request_key(request@).unwrap()),
                Ok(None) => !answers_handshake(*self),
                Err(e) => answers_handshake(*self) && e == HandshakeError::MissingKey
                    && request_key(request@).is_none(),
            },
    {
        match self {
            Stream::WebSocket | Stream::WebSocketRustlsServer => {
                match server_handshake_response(request) {
                    Ok(response) => Ok(Some(response)),
                    Err(e) => Err(e),
                }
            },
            _ => Ok(None),
        }
    }

    /// Whether closing the variant takes an orderly shutdown of its own
    /// before the socket is torn down.
    pub fn close(&self) -> (r: bool)
        ensures
            r == (*self == Stream::OpenSsl || *self == Stream::WebSocket || *self
                == Stream::WebSocketTls),
    {
        match self {
            Stream::OpenSsl | Stream::WebSocket | Stream::WebSocketTls => true,
            _ => false,
        }
    }

    /// What a client writes first on the stream: the upgrade request, the
    /// same on every variant.
    pub fn get_greeting(&self) -> (r: Vec<u8>)
        ensures
            r@ == upgrade_request(),
    {
        text_bytes(
            "GET /rmbt HTTP/1.1 \r\nConnection: Upgrade \r\nUpgrade: RMBT\r\nRMBT-Version: 1.2.0\r\n\r\n",
        )
    }
}

} // verus!
