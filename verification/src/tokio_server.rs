//! The task-driven server: which listeners it binds, and how a connection
//! that ends is judged.

use crate::config::{AddressView, ListenAddress, ListenHost, RmbtServerConfig};
use crate::text::{contains, contains_bytes};
use crate::error::ProtocolError;
use crate::event::Progress;
use crate::server::driver::{handle_client_readable_data, handle_client_writable_data};
use crate::server::signed_result::signed_result_outcome;
use crate::server::state::{ServerTestPhase, ServerView, TestState};
use vstd::prelude::*;
use vstd::string::*;

verus! {

/// A listener to bind.
pub struct Listener {
    pub address: ListenAddress,
    /// Whether connections accepted on it speak TLS.
    pub is_ssl: bool,
}

/// Why the server does not start.
#[derive(Clone, Copy, Debug, PartialEq, Eq, Structural)]
pub enum ServerError {
    /// The configuration names no listener.
    NoListeners,
}

impl ListenAddress {
    /// A copy of the address.
    pub fn duplicate(&self) -> (r: ListenAddress)
        ensures
            r@ == self@,
    {
        ListenAddress {
            host: match &self.host {
                ListenHost::V4(a, b, c, d) => ListenHost::V4(*a, *b, *c, *d),
                ListenHost::V6(groups) => ListenHost::V6(*groups),
                ListenHost::Unspecified => ListenHost::Unspecified,
            },
            port: self.port,
        }
    }
}

/// The listeners of a configuration as contracts speak of them: the plain
/// ones in their order, then the TLS ones in theirs.
pub open spec fn listeners_of(plain: Seq<AddressView>, tls: Seq<AddressView>) -> Seq<
    (AddressView, bool),
> {
    plain.map_values(|a: AddressView| (a, false)) + tls.map_values(|a: AddressView| (a, true))
}

/// The listeners in a list, as contracts speak of them.
pub open spec fn listener_views(listeners: Seq<Listener>) -> Seq<(AddressView, bool)> {
    listeners.map_values(|l: Listener| (l.address@, l.is_ssl))
}

/// The server and what it was configured with.
pub struct Server {
    pub config: RmbtServerConfig,
}

impl Server {
    /// A server for the configuration; the second result says whether the
    /// TLS identity has to be loaded, which is when a TLS listener is
    /// configured.
    pub fn new(config: RmbtServerConfig) -> (r: (Server, bool))
        ensures
            r.0.config == config,
            r.1 == (config.ssl_listen_addresses@.len() > 0),
    {
        let tls: bool = config.ssl_listen_addresses.len() > 0;
        (Server { config }, tls)
    }

    /// The listeners to bind, in order; the address of the first is the one
    /// that the server reports. A configuration without listeners is
    /// refused.
    pub fn run(&self) -> (r: Result<Vec<Listener>, ServerError>)
        ensures
            match r {
                Ok(listeners) => listeners@.len() > 0 && listener_views(listeners@)
                    == listeners_of(
                    self.config@.listen_addresses,
                    self.config@.ssl_listen_addresses,
                ),
                Err(e) => e == ServerError::NoListeners && self.config@.listen_addresses.len()
                    == 0 && self.config@.ssl_listen_addresses.len() == 0,
            },
    {
        let plain = &self.config.listen_addresses;
        let tls = &self.config.ssl_listen_addresses;
        if plain.len() == 0 && tls.len() == 0 {
            return Err(ServerError::NoListeners);
        }
        let mut out: Vec<Listener> = Vec::new();
        let mut i: usize = 0;
        while i < plain.len()
            invariant
                i <= plain@.len(),
                out@.len() == i,
                forall|k: int|
                    0 <= k < i ==> (#[trigger] out@[k]).address@ == plain@[k]@ && !out@[k].is_ssl,
            decreases plain@.len() - i,
        {
            out.push(Listener { address: plain[i].duplicate(), is_ssl: false });
            i += 1;
        }
        let count: usize = plain.len();
        let mut j: usize = 0;
        while j < tls.len()
            invariant
                j <= tls@.len(),
                count == plain@.len(),
                out@.len() == count + j,
                forall|k: int|
                    0 <= k < count ==> (#[trigger] out@[k]).address@ == plain@[k]@
                        && !out@[k].is_ssl,
                forall|k: int|
                    0 <= k < j ==> (#[trigger] out@[count + k]).address@ == tls@[k]@ && out@[count
                        + k].is_ssl,
            decreases tls@.len() - j,
        {
            out.push(Listener { address: tls[j].duplicate(), is_ssl: true });
            j += 1;
        }
        proof {
            let got = listener_views(out@);
            let want = listeners_of(
                self.config@.listen_addresses,
                self.config@.ssl_listen_addresses,
            );
            assert(got.len() == want.len());
            assert forall|k: int| 0 <= k < got.len() implies got[k] == want[k] by {
                if k < count {
                    assert(out@[k].address@ == plain@[k]@);
                } else {
                    assert(out@[count + (k - count)].address@ == tls@[k - count]@);
                }
            }
            assert(got =~= want);
        }
        Ok(out)
    }
}

/// How reading from a connection failed.
#[derive(Clone, Copy, Debug, PartialEq, Eq, Structural)]
pub enum ReadFailure {
    ConnectionReset,
    ConnectionAborted,
    BrokenPipe,
    Other,
}

/// What serving one connection came to.
#[derive(Clone, Copy, Debug, PartialEq, Eq, Structural)]
pub enum Ending {
    /// The client went away; nothing is reported.
    Quiet,
    /// The connection failed; the error is reported.
    Failed,
}

/// The text of an error says that the client went away.
pub open spec fn tells_closed(message: Seq<u8>) -> bool {
    contains(message, "connection closed".spec_bytes()) || contains(
        message,
        "broken pipe".spec_bytes(),
    ) || contains(message, "Connection reset by peer".spec_bytes())
}

/// Whether the text of an error says that the client went away.
pub fn handle_connection(message: &str) -> (r: Ending)
    ensures
        r == if tells_closed(message.spec_bytes()) {
            Ending::Quiet
        } else {
            Ending::Failed
        },
{
    let text = message.as_bytes();
    if contains_bytes(text, "connection closed".as_bytes()) || contains_bytes(
        text,
        "broken pipe".as_bytes(),
    ) || contains_bytes(text, "Connection reset by peer".as_bytes()) {
        Ending::Quiet
    } else {
        Ending::Failed
    }
}

/// What moved on the stream in one turn of a connection's loop.
pub enum Turn<'a> {
    /// This many bytes of what the connection had to write went out.
    Written(usize),
    /// These bytes were read.
    Read(&'a [u8]),
}

/// The handler of one connection of the task-driven server: it owns the
/// connection's phase machine.
pub struct ConnectionHandler {
    pub state: TestState,
}

impl ConnectionHandler {
    /// A handler for a connection taken up at clock reading `now` by a
    /// server configured as `config`; the connection starts with the
    /// greeting staged.
    pub fn new(
        config: &RmbtServerConfig,
        client_addr: Vec<u8>,
        sig_key: Option<Vec<u8>>,
        now: u64,
    ) -> (r: ConnectionHandler)
        ensures
            r.state.wf(),
            r.state@ == ServerView::initial(
                1,
                now,
                config.version,
                client_addr@,
                match sig_key {
                    Some(k) => Some(k@),
                    None => None,
                },
            ),
    {
        ConnectionHandler { state: TestState::new(1, now, config.version, client_addr, sig_key) }
    }

    /// One turn of the connection's loop at clock reading `now`: what was
    /// written or read goes to the handler of the connection's phase.
    pub fn handle(&mut self, turn: Turn<'_>, now: u64) -> (r: Result<Progress, ProtocolError>)
        requires
            old(self).state.wf(),
        ensures
            final(self).state.wf(),
            match turn {
                Turn::Read(data) => (final(self).state@, r) == old(self).state@.on_readable(
                    data@,
                    now,
                ),
                Turn::Written(n) => if old(self).state.measurement_state
                    == ServerTestPhase::SignedResultSend {
                    signed_result_outcome(old(self).state@, n as nat, now, final(self).state@, r)
                } else {
                    (final(self).state@, r) == old(self).state@.on_writable(n as nat, now)
                },
            },
    {
        match turn {
            Turn::Read(data) => handle_client_readable_data(&mut self.state, data, now),
            Turn::Written(n) => handle_client_writable_data(&mut self.state, n, now),
        }
    }

    /// How a failed read ends the command loop: a client that reset,
    /// aborted or broke the connection ends it quietly.
    pub fn read_failed(failure: ReadFailure) -> (r: Ending)
        ensures
            r == if failure == ReadFailure::Other {
                Ending::Failed
            } else {
                Ending::Quiet
            },
    {
        match failure {
            ReadFailure::Other => Ending::Failed,
            _ => Ending::Quiet,
        }
    }
}

} // verus!
