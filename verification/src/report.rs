//! What the client reports of a finished run, and the identity it reports
//! under.

use crate::address::{ipv4_of, ipv6_of, is_ipv4_text, is_ipv6_text};
use crate::text::{has_prefix, index_of, position, starts_with};
use crate::wire::NEWLINE;
use vstd::prelude::*;
use vstd::slice::slice_subrange;
use vstd::string::*;
use vstd::utf8::encode_utf8;

verus! {

/// The transport of a run, as the report names it.
#[derive(Debug, Clone, Copy, PartialEq, Eq, Structural)]
pub enum ConnectionType {
    TCP,
    TLS,
    WS,
    WSS,
}

/// The name of a transport.
pub open spec fn connection_name(t: ConnectionType) -> Seq<char> {
    match t {
        ConnectionType::TCP => "TCP"@,
        ConnectionType::TLS => "TLS"@,
        ConnectionType::WS => "WS"@,
        ConnectionType::WSS => "WSS"@,
    }
}

/// The transport that a client's two switches select.
pub open spec fn connection_type_of(use_tls: bool, use_websocket: bool) -> ConnectionType {
    if use_websocket {
        if use_tls {
            ConnectionType::WSS
        } else {
            ConnectionType::WS
        }
    } else if use_tls {
        ConnectionType::TLS
    } else {
        ConnectionType::TCP
    }
}

impl ConnectionType {
    /// The name of the transport.
    pub fn as_str(&self) -> (r: &'static str)
        ensures
            r@ == connection_name(*self),
    {
        match self {
            ConnectionType::TCP => "TCP",
            ConnectionType::TLS => "TLS",
            ConnectionType::WS => "WS",
            ConnectionType::WSS => "WSS",
        }
    }
}

/// How a client is set up.
pub struct ClientConfig {
    pub use_tls: bool,
    pub use_websocket: bool,
    pub thread_count: usize,
    /// Address or name of the measurement server.
    pub server: Option<String>,
    /// Base address of the control server that takes the report.
    pub control_server: String,
    pub client_uuid: Option<String>,
    pub git_hash: Option<String>,
    /// Whether the run asks for signed envelopes and reports them.
    pub signed_result: bool,
}

/// A copy of an optional text.
pub fn copy_text(text: &Option<String>) -> (r: Option<String>)
    ensures
        r == *text,
{
    match text {
        Some(t) => Some(t.clone()),
        None => None,
    }
}

impl ClientConfig {
    /// A copy of the set-up.
    pub fn duplicate(&self) -> (r: ClientConfig)
        ensures
            r == *self,
    {
        ClientConfig {
            use_tls: self.use_tls,
            use_websocket: self.use_websocket,
            thread_count: self.thread_count,
            server: copy_text(&self.server),
            control_server: self.control_server.clone(),
            client_uuid: copy_text(&self.client_uuid),
            git_hash: copy_text(&self.git_hash),
            signed_result: self.signed_result,
        }
    }
}

/// The client's side of reporting a run.
pub struct MeasurementSaver {
    pub client_uuid: Option<String>,
    pub connection_type: ConnectionType,
    pub threads_number: u32,
    pub git_hash: Option<String>,
    pub client_config: ClientConfig,
}

/// What is posted to the control server.
pub struct Measurement {
    pub open_test_uuid: String,
    pub client_uuid: String,
    /// Download speed in hundredths of the reporting unit.
    pub speed_download: Option<i32>,
    /// Upload speed in hundredths of the reporting unit.
    pub speed_upload: Option<i32>,
    /// Median round trip in nanoseconds.
    pub ping_median: Option<u64>,
    /// Seconds since the epoch.
    pub time: u64,
    pub client_version: String,
    pub connection_type: ConnectionType,
    pub threads_number: u32,
    /// The envelopes of the streams, where the run asked for them.
    pub signed_data: Option<Vec<Option<String>>>,
    pub measurement_server_ip: Option<String>,
    pub commit_hash: Option<String>,
}

/// A character that can open a line before its first word.
pub open spec fn is_blank(b: u8) -> bool {
    b == 32 || b == 9 || b == 13 || b == 11 || b == 12
}

/// A line without the blanks that open it.
pub open spec fn trimmed_start(line: Seq<u8>) -> Seq<u8>
    decreases line.len(),
{
    if line.len() > 0 && is_blank(line[0]) {
        trimmed_start(line.skip(1))
    } else {
        line
    }
}

/// Some line of the content, blanks before its first word aside, begins
/// with `client_uuid`.
pub open spec fn has_client_uuid(content: Seq<u8>) -> bool
    decreases content.len(),
{
    let end = index_of(content, NEWLINE);
    if starts_with(trimmed_start(content.take(end)), "client_uuid".spec_bytes()) {
        true
    } else if 0 <= end < content.len() {
        has_client_uuid(content.skip(end + 1))
    } else {
        false
    }
}

/// The content with a line for the identity `uuid` added at its end; every
/// line that was there stays.
pub open spec fn with_client_uuid(content: Seq<u8>, uuid: Seq<u8>) -> Seq<u8> {
    let base = if content.len() > 0 && content.last() != NEWLINE {
        content.push(NEWLINE)
    } else {
        content
    };
    base + "client_uuid=\"".spec_bytes() + uuid + "\"\n".spec_bytes()
}

fn skip_blanks(line: &[u8]) -> (r: &[u8])
    ensures
        r@ == trimmed_start(line@),
{
    let total: usize = line.len();
    let mut i: usize = 0;
    assert(line@.skip(0) =~= line@);
    while i < total && (line[i] == 32 || line[i] == 9 || line[i] == 13 || line[i] == 11 || line[i]
        == 12)
        invariant
            total == line@.len(),
            i <= total,
            trimmed_start(line@) == trimmed_start(line@.skip(i as int)),
        decreases total - i,
    {
        assert(line@.skip(i as int).skip(1) =~= line@.skip(i + 1));
        i += 1;
    }
    let r = slice_subrange(line, i, total);
    assert(r@ =~= line@.skip(i as int));
    r
}

/// Whether some line of the content sets the client's identity.
pub fn contains_client_uuid(content: &[u8]) -> (r: bool)
    ensures
        r == has_client_uuid(content@),
{
    let total: usize = content.len();
    let mut start: usize = 0;
    assert(content@.skip(0) =~= content@);
    loop
        invariant
            total == content@.len(),
            start <= total,
            has_client_uuid(content@) == has_client_uuid(content@.skip(start as int)),
        decreases total - start,
    {
        let rest = slice_subrange(content, start, total);
        assert(rest@ =~= content@.skip(start as int));
        let end: usize = match position(rest, NEWLINE) {
            Some(e) => e,
            None => rest.len(),
        };
        let line = slice_subrange(rest, 0, end);
        assert(line@ =~= rest@.take(end as int));
        if has_prefix(skip_blanks(line), "client_uuid".as_bytes()) {
            return true;
        }
        if end >= rest.len() {
            return false;
        }
        assert(rest@.skip(end + 1) =~= content@.skip(start + end + 1));
        start = start + end + 1;
    }
}

/// The content with a line for the identity `uuid` added at its end.
pub fn add_client_uuid(content: &[u8], uuid: &[u8]) -> (r: Vec<u8>)
    ensures
        r@ == with_client_uuid(content@, uuid@),
{
    let mut out = vstd::slice::slice_to_vec(content);
    if content.len() > 0 && content[content.len() - 1] != NEWLINE {
        out.push(NEWLINE);
    }
    out.extend_from_slice("client_uuid=\"".as_bytes());
    out.extend_from_slice(uuid);
    out.extend_from_slice("\"\n".as_bytes());
    out
}

/// The text is an address rather than a name.
pub open spec fn is_address(text: Seq<u8>) -> bool {
    ipv4_of(text).is_some() || ipv6_of(text).is_some()
}

/// Whether the text is an address rather than a name.
pub fn is_ip_address(text: &str) -> (r: bool)
    ensures
        r == is_address(text.spec_bytes()),
        r == is_address(encode_utf8(text@)),
{
    is_ipv4_text(text.as_bytes()) || is_ipv6_text(text.as_bytes())
}

/// Whether an HTTP status reports success.
pub fn is_success(status: u16) -> (r: bool)
    ensures
        r == (200 <= status < 300),
{
    200 <= status && status < 300
}

/// Calls `uuid::Uuid::new_v4` and takes the identifier as text. Nothing is
/// said of the text: it is random.
#[verifier::external_body]
fn fresh_uuid() -> (r: String) {
    uuid::Uuid::new_v4().to_string()
}

impl MeasurementSaver {
    /// The reporting side of a client set up as `client_config`.
    pub fn new(client_config: &ClientConfig) -> (r: MeasurementSaver)
        ensures
            r.client_uuid == client_config.client_uuid,
            r.connection_type == connection_type_of(
                client_config.use_tls,
                client_config.use_websocket,
            ),
            r.threads_number == client_config.thread_count as u32,
            r.git_hash == client_config.git_hash,
            r.client_config == *client_config,
    {
        let connection_type = if client_config.use_websocket {
            if client_config.use_tls {
                ConnectionType::WSS
            } else {
                ConnectionType::WS
            }
        } else if client_config.use_tls {
            ConnectionType::TLS
        } else {
            ConnectionType::TCP
        };
        MeasurementSaver {
            client_uuid: copy_text(&client_config.client_uuid),
            connection_type,
            threads_number: #[verifier::truncate]
            (client_config.thread_count as u32),
            git_hash: copy_text(&client_config.git_hash),
            client_config: client_config.duplicate(),
        }
    }

    /// Whether reporting the server's address takes a lookup of its name:
    /// where a server is set up and its text is no address.
    pub fn needs_lookup(&self) -> (r: bool)
        ensures
            r == match self.client_config.server {
                Some(server) => !is_address(encode_utf8(server@)),
                None => false,
            },
    {
        match &self.client_config.server {
            Some(server) => !is_ip_address(server.as_str()),
            None => false,
        }
    }

    /// The server's address for the report, `lookup` being what looking up
    /// its name gave: none where no server is set up; the server's text
    /// where that is an address or the lookup failed; else what the lookup
    /// gave.
    pub fn resolve_server_ip(&self, lookup: Option<String>) -> (r: Option<String>)
        ensures
            r == match self.client_config.server {
                Some(server) => if is_address(encode_utf8(server@)) {
                    Some(server)
                } else {
                    match lookup {
                        Some(ip) => Some(ip),
                        None => Some(server),
                    }
                },
                None => None,
            },
    {
        match &self.client_config.server {
            Some(server) => {
                if is_ip_address(server.as_str()) {
                    Some(server.clone())
                } else {
                    match lookup {
                        Some(ip) => Some(ip),
                        None => Some(server.clone()),
                    }
                }
            },
            None => None,
        }
    }

    /// The identity to report under, `content` being what the
    /// configuration file holds. A client that has an identity keeps it and
    /// the file is left alone. Otherwise `fresh` becomes the identity; the
    /// second result is the new content of the file, where the file sets no
    /// identity yet.
    pub fn adopt_client_uuid(&mut self, content: &[u8], fresh: String) -> (r: (
        String,
        Option<Vec<u8>>,
    ))
        ensures
            final(self).client_uuid == Some(r.0),
            final(self).connection_type == old(self).connection_type,
            final(self).threads_number == old(self).threads_number,
            final(self).git_hash == old(self).git_hash,
            final(self).client_config == old(self).client_config,
            match old(self).client_uuid {
                Some(uuid) => r.0 == uuid && r.1.is_none(),
                None => r.0 == fresh && if has_client_uuid(content@) {
                    r.1.is_none()
                } else {
                    r.1.is_some() && r.1.unwrap()@ == with_client_uuid(
                        content@,
                        encode_utf8(fresh@),
                    )
                },
            },
    {
        match &self.client_uuid {
            Some(uuid) => {
                return (uuid.clone(), None);
            },
            None => {},
        }
        let write = if contains_client_uuid(content) {
            None
        } else {
            Some(add_client_uuid(content, fresh.as_str().as_bytes()))
        };
        self.client_uuid = Some(fresh.clone());
        (fresh, write)
    }

    /// The identity to report under, generated now where the client has
    /// none; see `adopt_client_uuid`.
    pub fn ensure_client_uuid(&mut self, content: &[u8]) -> (r: (String, Option<Vec<u8>>))
        ensures
            final(self).client_uuid == Some(r.0),
            final(self).connection_type == old(self).connection_type,
            final(self).threads_number == old(self).threads_number,
            final(self).git_hash == old(self).git_hash,
            final(self).client_config == old(self).client_config,
            match old(self).client_uuid {
                Some(uuid) => r.0 == uuid && r.1.is_none(),
                None => if has_client_uuid(content@) {
                    r.1.is_none()
                } else {
                    r.1.is_some() && r.1.unwrap()@ == with_client_uuid(content@, encode_utf8(r.0@))
                },
            },
    {
        let fresh = match &self.client_uuid {
            Some(_) => String::new(),
            None => fresh_uuid(),
        };
        self.adopt_client_uuid(content, fresh)
    }

    /// The commit to report: the one of the set-up, else the one that the
    /// environment names.
    pub fn commit_hash(&self, environment: Option<String>) -> (r: Option<String>)
        ensures
            r == match self.git_hash {
                Some(hash) => Some(hash),
                None => environment,
            },
    {
        match &self.git_hash {
            Some(hash) => Some(hash.clone()),
            None => environment,
        }
    }

    /// Assembles what is posted for a run: the speeds and the median ping
    /// as measured, the envelopes only where the run asked for them, the
    /// server's address and the commit as the two rules above give them.
    pub fn save_measurement_with_speeds(
        &self,
        client_uuid: String,
        open_test_uuid: String,
        time: u64,
        ping_median: Option<u64>,
        speed_download: Option<i32>,
        speed_upload: Option<i32>,
        signed_data: Vec<Option<String>>,
        lookup: Option<String>,
        environment_commit: Option<String>,
    ) -> (r: Measurement)
        ensures
            r.open_test_uuid == open_test_uuid,
            r.client_uuid == client_uuid,
            r.speed_download == speed_download,
            r.speed_upload == speed_upload,
            r.ping_median == ping_median,
            r.time == time,
            r.client_version@ == "2.0.0"@,
            r.connection_type == self.connection_type,
            r.threads_number == self.threads_number,
            r.signed_data == if self.client_config.signed_result {
                Some(signed_data)
            } else {
                None
            },
            r.measurement_server_ip == match self.client_config.server {
                Some(server) => if is_address(encode_utf8(server@)) {
                    Some(server)
                } else {
                    match lookup {
                        Some(ip) => Some(ip),
                        None => Some(server),
                    }
                },
                None => None,
            },
            r.commit_hash == match self.git_hash {
                Some(hash) => Some(hash),
                None => environment_commit,
            },
    {
        Measurement {
            open_test_uuid,
            client_uuid,
            speed_download,
            speed_upload,
            ping_median,
            time,
            client_version: String::from_str("2.0.0"),
            connection_type: self.connection_type,
            threads_number: self.threads_number,
            signed_data: if self.client_config.signed_result {
                Some(signed_data)
            } else {
                None
            },
            measurement_server_ip: self.resolve_server_ip(lookup),
            commit_hash: self.commit_hash(environment_commit),
        }
    }
}

} // verus!
