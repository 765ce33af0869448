//! The server's configuration as the command line gives it.

use crate::address::{ipv4_of, ipv6_of, parse_ipv4, parse_ipv6, COLON};
use crate::decimal::{parse_bounded, parse_decimal_bounded};
use crate::text::{index_of, position, same_bytes};
use vstd::prelude::*;
use vstd::slice::slice_subrange;
use vstd::string::*;
use vstd::utf8::encode_utf8;

verus! {

/// Worker threads where `-t` is not given.
pub const DEFAULT_THREADS: usize = 200;

/// Port of the plain listener where `-l` is not given.
pub const DEFAULT_PORT: u16 = 5005;

/// Port of the TLS listener where `-L` is not given.
pub const DEFAULT_TLS_PORT: u16 = 8080;

/// The host part of a listen address.
#[derive(Clone, Debug, PartialEq, Eq)]
pub enum ListenHost {
    /// The four octets of an IPv4 address.
    V4(u8, u8, u8, u8),
    /// The eight groups of an IPv6 address.
    V6([u16; 8]),
    /// No host given: every address of the machine.
    Unspecified,
}

/// Where a listener binds.
#[derive(Clone, Debug, PartialEq, Eq)]
pub struct ListenAddress {
    pub host: ListenHost,
    pub port: u16,
}

/// A host as contracts speak of it.
pub enum HostView {
    V4(u8, u8, u8, u8),
    V6(Seq<u16>),
    Unspecified,
}

/// A listen address as contracts speak of it.
pub struct AddressView {
    pub host: HostView,
    pub port: u16,
}

impl View for ListenAddress {
    type V = AddressView;

    open spec fn view(&self) -> AddressView {
        AddressView {
            host: match self.host {
                ListenHost::V4(a, b, c, d) => HostView::V4(a, b, c, d),
                ListenHost::V6(groups) => HostView::V6(groups@),
                ListenHost::Unspecified => HostView::Unspecified,
            },
            port: self.port,
        }
    }
}

/// Why a command line is refused.
#[derive(Clone, Copy, Debug, PartialEq, Eq, Structural)]
pub enum ConfigError {
    /// `-h` or `--help` was given.
    HelpRequested,
    /// The argument at this position is no option.
    UnknownOption(usize),
    /// The argument at this position is no listen address.
    InvalidAddress(usize),
    /// The argument at this position is no thread count.
    InvalidThreadCount(usize),
    /// `-c` was given twice.
    DuplicateCert,
    /// `-k` was given twice.
    DuplicateKey,
    /// `-u` was given twice.
    DuplicateUser,
    /// `-v` was given twice.
    DuplicateVersion,
    /// `-u` was given without a user name.
    MissingUser,
    /// `-u` was given by someone who is not root.
    NotRoot,
    /// The argument at this position is no supported legacy version.
    UnsupportedVersion(usize),
    /// The thread count is zero.
    NoThreads,
    /// A TLS listener was asked for without a certificate.
    MissingCert,
    /// A TLS listener was asked for without a key.
    MissingKey,
}

impl ConfigError {
    /// The message for the operator.
    pub open spec fn message(self) -> Seq<char> {
        match self {
            ConfigError::HelpRequested => "Help printed"@,
            ConfigError::UnknownOption(_) => "Unknown option"@,
            ConfigError::InvalidAddress(_) => "Invalid listen address format"@,
            ConfigError::InvalidThreadCount(_) => "Invalid number of threads (-t)"@,
            ConfigError::DuplicateCert => "Error: only one -c is allowed"@,
            ConfigError::DuplicateKey => "Error: only one -k is allowed"@,
            ConfigError::DuplicateUser => "Error: only one -u is allowed"@,
            ConfigError::DuplicateVersion => "Error: only one -v is allowed"@,
            ConfigError::MissingUser => "Error: -u needs a user name"@,
            ConfigError::NotRoot => "Error: must be root to use option -u"@,
            ConfigError::UnsupportedVersion(_) => "Error: unsupported version for backwards compatibility"@,
            ConfigError::NoThreads => "Number of threads (-t) must be positive!"@,
            ConfigError::MissingCert => "Need path to certificate (-c) for TLS connections"@,
            ConfigError::MissingKey => "Need path to key (-k) for TLS connections"@,
        }
    }

    /// The message for the operator.
    pub fn to_string(&self) -> (r: String)
        ensures
            r@ == self.message(),
    {
        match self {
            ConfigError::HelpRequested => String::from_str("Help printed"),
            ConfigError::UnknownOption(_) => String::from_str("Unknown option"),
            ConfigError::InvalidAddress(_) => String::from_str("Invalid listen address format"),
            ConfigError::InvalidThreadCount(_) => String::from_str(
                "Invalid number of threads (-t)",
            ),
            ConfigError::DuplicateCert => String::from_str("Error: only one -c is allowed"),
            ConfigError::DuplicateKey => String::from_str("Error: only one -k is allowed"),
            ConfigError::DuplicateUser => String::from_str("Error: only one -u is allowed"),
            ConfigError::DuplicateVersion => String::from_str("Error: only one -v is allowed"),
            ConfigError::MissingUser => String::from_str("Error: -u needs a user name"),
            ConfigError::NotRoot => String::from_str("Error: must be root to use option -u"),
            ConfigError::UnsupportedVersion(_) => String::from_str(
                "Error: unsupported version for backwards compatibility",
            ),
            ConfigError::NoThreads => String::from_str("Number of threads (-t) must be positive!"),
            ConfigError::MissingCert => String::from_str(
                "Need path to certificate (-c) for TLS connections",
            ),
            ConfigError::MissingKey => String::from_str(
                "Need path to key (-k) for TLS connections",
            ),
        }
    }
}

/// Why a text is no listen address.
#[derive(Clone, Copy, Debug, PartialEq, Eq, Structural)]
pub enum AddressError {
    /// The text is none of `[<v6>]:<port>`, `<v4>:<port>` and `<port>`.
    InvalidFormat,
}

impl AddressError {
    /// The message for the operator.
    pub fn to_string(&self) -> (r: String)
        ensures
            r@ == "Invalid listen address format"@,
    {
        String::from_str("Invalid listen address format")
    }
}

/// What opens the host part of an IPv6 listen address.
pub const OPEN_BRACKET: u8 = 91;

/// What closes the host part of an IPv6 listen address.
pub const CLOSE_BRACKET: u8 = 93;

/// A port in text: a number up to 65535, optionally behind `+`.
pub open spec fn port_of(s: Seq<u8>) -> Option<u16> {
    match parse_bounded(s, u16::MAX as nat) {
        Some(v) => Some(v as u16),
        None => None,
    }
}

/// Offset of the last `byte` in `s`, or -1 when there is none.
pub open spec fn last_index_of(s: Seq<u8>, byte: u8) -> int
    decreases s.len(),
{
    if s.len() == 0 {
        -1
    } else if s.last() == byte {
        s.len() - 1
    } else {
        last_index_of(s.drop_last(), byte)
    }
}

/// The address that a text names.
///
/// `[<v6>]:<port>` names an IPv6 host, the bracket that closes being the
/// last one in the text; `<v4>:<port>` names an IPv4 host, the text being
/// split at its first colon; a port alone names every address of the
/// machine. Anything else names nothing.
pub open spec fn listen_address_of(s: Seq<u8>) -> Option<AddressView> {
    if s.len() > 0 && s[0] == OPEN_BRACKET {
        let close = last_index_of(s, CLOSE_BRACKET);
        if close >= 1 && close + 1 < s.len() && s[close + 1] == COLON {
            match (ipv6_of(s.subrange(1, close)), port_of(s.skip(close + 2))) {
                (Some(groups), Some(port)) => Some(
                    AddressView { host: HostView::V6(groups), port },
                ),
                _ => None,
            }
        } else {
            None
        }
    } else if index_of(s, COLON) < s.len() {
        let colon = index_of(s, COLON);
        match (ipv4_of(s.take(colon)), port_of(s.skip(colon + 1))) {
            (Some((a, b, c, d)), Some(port)) => Some(
                AddressView { host: HostView::V4(a, b, c, d), port },
            ),
            _ => None,
        }
    } else {
        match port_of(s) {
            Some(port) => Some(AddressView { host: HostView::Unspecified, port }),
            None => None,
        }
    }
}

fn parse_port(s: &[u8]) -> (r: Option<u16>)
    ensures
        r == port_of(s@),
{
    match parse_decimal_bounded(s, 65535) {
        Some(v) => Some(v as u16),
        None => None,
    }
}

fn rposition(s: &[u8], byte: u8) -> (r: Option<usize>)
    ensures
        match r {
            Some(i) => i < s@.len() && i == last_index_of(s@, byte),
            None => last_index_of(s@, byte) == -1,
        },
{
    let mut i: usize = s.len();
    assert(s@.take(i as int) =~= s@);
    while i > 0
        invariant
            i <= s@.len(),
            last_index_of(s@, byte) == last_index_of(s@.take(i as int), byte),
        decreases i,
    {
        let ghost prefix = s@.take(i as int);
        assert(prefix.last() == s@[i - 1]);
        assert(prefix.drop_last() =~= s@.take(i - 1));
        if s[i - 1] == byte {
            return Some(i - 1);
        }
        i -= 1;
    }
    None
}

/// Reads a listen address: `[<v6>]:<port>`, `<v4>:<port>` or `<port>`.
pub fn parse_listen_address(addr: &str) -> (r: Result<ListenAddress, AddressError>)
    ensures
        match r {
            Ok(a) => listen_address_of(addr.spec_bytes()) == Some(a@),
            Err(_) => listen_address_of(addr.spec_bytes()).is_none(),
        },
{
    match read_listen_address(addr) {
        Some(a) => Ok(a),
        None => Err(AddressError::InvalidFormat),
    }
}

fn read_listen_address(addr: &str) -> (r: Option<ListenAddress>)
    ensures
        match r {
            Some(a) => listen_address_of(addr.spec_bytes()) == Some(a@),
            None => listen_address_of(addr.spec_bytes()).is_none(),
        },
{
    let s = addr.as_bytes();
    let total: usize = s.len();
    if total > 0 && s[0] == OPEN_BRACKET {
        let close: usize = match rposition(s, CLOSE_BRACKET) {
            Some(c) => c,
            None => {
                return None;
            },
        };
        if close < 1 || close + 1 >= total || s[close + 1] != COLON {
            return None;
        }
        let host = slice_subrange(s, 1, close);
        let port_text = slice_subrange(s, close + 2, total);
        assert(port_text@ =~= s@.skip(close + 2));
        match (parse_ipv6(host), parse_port(port_text)) {
            (Some(groups), Some(port)) => Some(
                ListenAddress { host: ListenHost::V6(groups), port },
            ),
            _ => None,
        }
    } else {
        match position(s, COLON) {
            Some(colon) => {
                let host = slice_subrange(s, 0, colon);
                let port_text = slice_subrange(s, colon + 1, total);
                assert(host@ =~= s@.take(colon as int));
                assert(port_text@ =~= s@.skip(colon + 1));
                match (parse_ipv4(host), parse_port(port_text)) {
                    (Some((a, b, c, d)), Some(port)) => Some(
                        ListenAddress { host: ListenHost::V4(a, b, c, d), port },
                    ),
                    _ => None,
                }
            },
            None => match parse_port(s) {
                Some(port) => Some(ListenAddress { host: ListenHost::Unspecified, port }),
                None => None,
            },
        }
    }
}

/// What the command line configures.
#[derive(Debug)]
pub struct RmbtServerConfig {
    pub listen_addresses: Vec<ListenAddress>,
    pub ssl_listen_addresses: Vec<ListenAddress>,
    pub cert_path: Option<String>,
    pub key_path: Option<String>,
    pub num_threads: usize,
    pub user: Option<String>,
    pub daemon: bool,
    pub user_privileges: bool,
    pub debug: bool,
    pub websocket: bool,
    pub version: Option<u8>,
    pub secret_keys: Vec<String>,
    pub secret_key_labels: Vec<String>,
}

/// A configuration as contracts speak of it.
pub struct ConfigView {
    pub listen_addresses: Seq<AddressView>,
    pub ssl_listen_addresses: Seq<AddressView>,
    pub cert_path: Option<Seq<char>>,
    pub key_path: Option<Seq<char>>,
    pub num_threads: usize,
    pub user: Option<Seq<char>>,
    pub daemon: bool,
    pub user_privileges: bool,
    pub debug: bool,
    pub websocket: bool,
    pub version: Option<u8>,
    pub secret_keys: Seq<Seq<char>>,
    pub secret_key_labels: Seq<Seq<char>>,
}

/// The view of an optional string.
pub open spec fn text_of(s: Option<String>) -> Option<Seq<char>> {
    match s {
        Some(t) => Some(t@),
        None => None,
    }
}

impl View for RmbtServerConfig {
    type V = ConfigView;

    open spec fn view(&self) -> ConfigView {
        ConfigView {
            listen_addresses: self.listen_addresses@.map_values(|a: ListenAddress| a@),
            ssl_listen_addresses: self.ssl_listen_addresses@.map_values(|a: ListenAddress| a@),
            cert_path: text_of(self.cert_path),
            key_path: text_of(self.key_path),
            num_threads: self.num_threads,
            user: text_of(self.user),
            daemon: self.daemon,
            user_privileges: self.user_privileges,
            debug: self.debug,
            websocket: self.websocket,
            version: self.version,
            secret_keys: self.secret_keys@.map_values(|s: String| s@),
            secret_key_labels: self.secret_key_labels@.map_values(|s: String| s@),
        }
    }
}

/// The texts of a list of arguments.
pub open spec fn texts(args: Seq<String>) -> Seq<Seq<char>> {
    args.map_values(|s: String| s@)
}

/// The argument is the option `name`.
pub open spec fn is_option(arg: Seq<char>, name: &str) -> bool {
    encode_utf8(arg) == name.spec_bytes()
}

/// The address that binds every address of the machine on `port`.
pub open spec fn any_host(port: u16) -> AddressView {
    AddressView { host: HostView::Unspecified, port }
}

impl ConfigView {
    /// What holds before any option is read: no listener, no paths, the
    /// default number of threads, every switch off.
    pub open spec fn start() -> ConfigView {
        ConfigView {
            listen_addresses: Seq::empty(),
            ssl_listen_addresses: Seq::empty(),
            cert_path: None,
            key_path: None,
            num_threads: DEFAULT_THREADS,
            user: None,
            daemon: false,
            user_privileges: false,
            debug: false,
            websocket: false,
            version: None,
            secret_keys: Seq::empty(),
            secret_key_labels: Seq::empty(),
        }
    }

    /// The effect of the option at position `i`. An option that takes a
    /// value takes the argument behind it; at the end of the line it is
    /// passed over, except `-u`, which then is refused.
    pub open spec fn apply(self, args: Seq<Seq<char>>, i: int, is_root: bool) -> Result<
        ConfigView,
        ConfigError,
    > {
        let arg = args[i];
        let has_value = i + 1 < args.len();
        let value = args[i + 1];
        if is_option(arg, "-l") || is_option(arg, "-L") {
            if !has_value {
                Ok(self)
            } else {
                match listen_address_of(encode_utf8(value)) {
                    None => Err(ConfigError::InvalidAddress((i + 1) as usize)),
                    Some(a) => if is_option(arg, "-L") {
                        Ok(
                            ConfigView {
                                ssl_listen_addresses: self.ssl_listen_addresses.push(a),
                                ..self
                            },
                        )
                    } else {
                        Ok(ConfigView { listen_addresses: self.listen_addresses.push(a), ..self })
                    },
                }
            }
        } else if is_option(arg, "-c") {
            if !has_value {
                Ok(self)
            } else if self.cert_path.is_some() {
                Err(ConfigError::DuplicateCert)
            } else {
                Ok(ConfigView { cert_path: Some(value), ..self })
            }
        } else if is_option(arg, "-k") {
            if !has_value {
                Ok(self)
            } else if self.key_path.is_some() {
                Err(ConfigError::DuplicateKey)
            } else {
                Ok(ConfigView { key_path: Some(value), ..self })
            }
        } else if is_option(arg, "-t") {
            if !has_value {
                Ok(self)
            } else {
                match parse_bounded(encode_utf8(value), usize::MAX as nat) {
                    Some(n) => Ok(ConfigView { num_threads: n as usize, ..self }),
                    None => Err(ConfigError::InvalidThreadCount((i + 1) as usize)),
                }
            }
        } else if is_option(arg, "-u") {
            if !is_root {
                Err(ConfigError::NotRoot)
            } else if self.user.is_some() {
                Err(ConfigError::DuplicateUser)
            } else if !has_value {
                Err(ConfigError::MissingUser)
            } else {
                Ok(ConfigView { user_privileges: true, user: Some(value), ..self })
            }
        } else if is_option(arg, "-d") {
            Ok(ConfigView { daemon: true, ..self })
        } else if is_option(arg, "-D") {
            Ok(ConfigView { debug: true, ..self })
        } else if is_option(arg, "-w") {
            Ok(ConfigView { websocket: true, ..self })
        } else if is_option(arg, "-v") {
            if !has_value {
                Ok(self)
            } else if self.version.is_some() {
                Err(ConfigError::DuplicateVersion)
            } else if !is_option(value, "0.3") {
                Err(ConfigError::UnsupportedVersion((i + 1) as usize))
            } else {
                Ok(ConfigView { version: Some(3u8), ..self })
            }
        } else if is_option(arg, "--help") || is_option(arg, "-h") {
            Err(ConfigError::HelpRequested)
        } else {
            Err(ConfigError::UnknownOption(i as usize))
        }
    }

    /// Whether the option at position `i` takes the argument behind it.
    pub open spec fn takes_value(args: Seq<Seq<char>>, i: int) -> bool {
        let arg = args[i];
        is_option(arg, "-l") || is_option(arg, "-L") || is_option(arg, "-c") || is_option(
            arg,
            "-k",
        ) || is_option(arg, "-t") || is_option(arg, "-u") || is_option(arg, "-v")
    }

    /// The effect of the options from position `i` on, left to right; the
    /// first refusal ends the reading.
    pub open spec fn read_from(self, args: Seq<Seq<char>>, i: int, is_root: bool) -> Result<
        ConfigView,
        ConfigError,
    >
        decreases args.len() - i,
    {
        if i < 0 || i >= args.len() {
            Ok(self)
        } else {
            match self.apply(args, i, is_root) {
                Err(e) => Err(e),
                Ok(next) => next.read_from(
                    args,
                    if ConfigView::takes_value(args, i) && i + 1 < args.len() {
                        i + 2
                    } else {
                        i + 1
                    },
                    is_root,
                ),
            }
        }
    }

    /// The configuration once every option is read: a thread count of zero
    /// is refused, and so is a TLS listener without certificate or without
    /// key. Where no plain listener was given, the default port is bound;
    /// where no TLS listener was given but certificate and key were, the
    /// default TLS port is bound.
    pub open spec fn completed(self) -> Result<ConfigView, ConfigError> {
        if self.num_threads == 0 {
            Err(ConfigError::NoThreads)
        } else if self.ssl_listen_addresses.len() > 0 && self.cert_path.is_none() {
            Err(ConfigError::MissingCert)
        } else if self.ssl_listen_addresses.len() > 0 && self.key_path.is_none() {
            Err(ConfigError::MissingKey)
        } else {
            Ok(
                ConfigView {
                    listen_addresses: if self.listen_addresses.len() == 0 {
                        seq![any_host(DEFAULT_PORT)]
                    } else {
                        self.listen_addresses
                    },
                    ssl_listen_addresses: if self.ssl_listen_addresses.len() == 0
                        && self.cert_path.is_some() && self.key_path.is_some() {
                        seq![any_host(DEFAULT_TLS_PORT)]
                    } else {
                        self.ssl_listen_addresses
                    },
                    ..self
                },
            )
        }
    }
}

/// The configuration that a command line gives; the first argument is the
/// program's name and is passed over.
pub open spec fn config_of(args: Seq<Seq<char>>, is_root: bool) -> Result<ConfigView, ConfigError> {
    match ConfigView::start().read_from(args, 1, is_root) {
        Ok(c) => c.completed(),
        Err(e) => Err(e),
    }
}

/// The argument asks for help.
pub open spec fn is_help(arg: Seq<char>) -> bool {
    is_option(arg, "-h") || is_option(arg, "--help")
}

/// `-h` or `--help` stands among the arguments.
pub open spec fn asks_help(args: Seq<Seq<char>>) -> bool {
    exists|i: int| 0 <= i < args.len() && is_help(#[trigger] args[i])
}

fn is_word(arg: &String, name: &str) -> (r: bool)
    ensures
        r == is_option(arg@, name),
{
    same_bytes(arg.as_str().as_bytes(), name.as_bytes())
}

impl RmbtServerConfig {
    /// Reads the configuration from a command line, `is_root` saying
    /// whether the process runs as root. A line that asks for help anywhere
    /// is refused before anything is read.
    pub fn from_args(args: Vec<String>, is_root: bool) -> (r: Result<
        RmbtServerConfig,
        ConfigError,
    >)
        ensures
            match r {
                Ok(c) => !asks_help(texts(args@)) && config_of(texts(args@), is_root) == Ok::<
                    ConfigView,
                    ConfigError,
                >(c@),
                Err(e) => if asks_help(texts(args@)) {
                    e == ConfigError::HelpRequested
                } else {
                    config_of(texts(args@), is_root) == Err::<ConfigView, ConfigError>(e)
                },
            },
    {
        let ghost line = texts(args@);
        let mut i: usize = 0;
        while i < args.len()
            invariant
                i <= args@.len(),
                line == texts(args@),
                forall|j: int| 0 <= j < i ==> !is_help(#[trigger] line[j]),
            decreases args@.len() - i,
        {
            assert(line[i as int] == args@[i as int]@);
            if is_word(&args[i], "-h") || is_word(&args[i], "--help") {
                assert(is_help(line[i as int]));
                return Err(ConfigError::HelpRequested);
            }
            i += 1;
        }
        RmbtServerConfig::from_args_vec(args, is_root)
    }

    /// Applies the option at position `i` of the command line.
    pub fn apply_option(&mut self, args: &Vec<String>, i: usize, is_root: bool) -> (r: Result<
        (),
        ConfigError,
    >)
        requires
            i < args@.len(),
        ensures
            match r {
                Ok(_) => old(self)@.apply(texts(args@), i as int, is_root) == Ok::<
                    ConfigView,
                    ConfigError,
                >(final(self)@),
                Err(e) => old(self)@.apply(texts(args@), i as int, is_root) == Err::<
                    ConfigView,
                    ConfigError,
                >(e),
            },
    {
        let ghost line = texts(args@);
        let ghost before = self@;
        let total: usize = args.len();
        let arg = &args[i];
        let has_value: bool = i < total - 1;
        assert(line[i as int] == args@[i as int]@);
        assert(has_value ==> line[i + 1] == args@[i + 1]@);
        if is_word(arg, "-l") || is_word(arg, "-L") {
            if has_value {
                match parse_listen_address(args[i + 1].as_str()) {
                    Err(_) => {
                        return Err(ConfigError::InvalidAddress(i + 1));
                    },
                    Ok(a) => {
                        if is_word(arg, "-L") {
                            self.ssl_listen_addresses.push(a);
                            assert(self@.ssl_listen_addresses
                                =~= before.ssl_listen_addresses.push(a@));
                        } else {
                            self.listen_addresses.push(a);
                            assert(self@.listen_addresses =~= before.listen_addresses.push(a@));
                        }
                    },
                }
            }
            Ok(())
        } else if is_word(arg, "-c") {
            if has_value {
                if self.cert_path.is_some() {
                    return Err(ConfigError::DuplicateCert);
                }
                self.cert_path = Some(args[i + 1].clone());
            }
            Ok(())
        } else if is_word(arg, "-k") {
            if has_value {
                if self.key_path.is_some() {
                    return Err(ConfigError::DuplicateKey);
                }
                self.key_path = Some(args[i + 1].clone());
            }
            Ok(())
        } else if is_word(arg, "-t") {
            if has_value {
                match parse_decimal_bounded(args[i + 1].as_str().as_bytes(), usize::MAX as u64) {
                    Some(n) => {
                        self.num_threads = n as usize;
                    },
                    None => {
                        return Err(ConfigError::InvalidThreadCount(i + 1));
                    },
                }
            }
            Ok(())
        } else if is_word(arg, "-u") {
            if !is_root {
                return Err(ConfigError::NotRoot);
            }
            if self.user.is_some() {
                return Err(ConfigError::DuplicateUser);
            }
            if !has_value {
                return Err(ConfigError::MissingUser);
            }
            self.user_privileges = true;
            self.user = Some(args[i + 1].clone());
            Ok(())
        } else if is_word(arg, "-d") {
            self.daemon = true;
            Ok(())
        } else if is_word(arg, "-D") {
            self.debug = true;
            Ok(())
        } else if is_word(arg, "-w") {
            self.websocket = true;
            Ok(())
        } else if is_word(arg, "-v") {
            if has_value {
                if self.version.is_some() {
                    return Err(ConfigError::DuplicateVersion);
                }
                if !is_word(&args[i + 1], "0.3") {
                    return Err(ConfigError::UnsupportedVersion(i + 1));
                }
                self.version = Some(3);
            }
            Ok(())
        } else if is_word(arg, "--help") || is_word(arg, "-h") {
            Err(ConfigError::HelpRequested)
        } else {
            Err(ConfigError::UnknownOption(i))
        }
    }

    /// Applies what holds of every command line once its options are read:
    /// the checks, and the default listeners.
    pub fn complete(self) -> (r: Result<RmbtServerConfig, ConfigError>)
        ensures
            match r {
                Ok(c) => self@.completed() == Ok::<ConfigView, ConfigError>(c@),
                Err(e) => self@.completed() == Err::<ConfigView, ConfigError>(e),
            },
    {
        let mut config = self;
        if config.num_threads == 0 {
            return Err(ConfigError::NoThreads);
        }
        if config.ssl_listen_addresses.len() > 0 && config.cert_path.is_none() {
            return Err(ConfigError::MissingCert);
        }
        if config.ssl_listen_addresses.len() > 0 && config.key_path.is_none() {
            return Err(ConfigError::MissingKey);
        }
        if config.listen_addresses.len() == 0 {
            config.listen_addresses.push(
                ListenAddress { host: ListenHost::Unspecified, port: DEFAULT_PORT },
            );
            assert(config@.listen_addresses =~= seq![any_host(DEFAULT_PORT)]);
        }
        if config.ssl_listen_addresses.len() == 0 && config.cert_path.is_some()
            && config.key_path.is_some() {
            config.ssl_listen_addresses.push(
                ListenAddress { host: ListenHost::Unspecified, port: DEFAULT_TLS_PORT },
            );
            assert(config@.ssl_listen_addresses =~= seq![any_host(DEFAULT_TLS_PORT)]);
        }
        Ok(config)
    }

    /// A configuration before any option is read.
    pub fn start() -> (r: RmbtServerConfig)
        ensures
            r@ == ConfigView::start(),
    {
        let config = RmbtServerConfig {
            listen_addresses: Vec::new(),
            ssl_listen_addresses: Vec::new(),
            user_privileges: false,
            cert_path: None,
            key_path: None,
            num_threads: DEFAULT_THREADS,
            user: None,
            daemon: false,
            debug: false,
            websocket: false,
            version: None,
            secret_keys: Vec::new(),
            secret_key_labels: Vec::new(),
        };
        assert(config@.listen_addresses =~= Seq::<AddressView>::empty());
        assert(config@.ssl_listen_addresses =~= Seq::<AddressView>::empty());
        assert(config@.secret_keys =~= Seq::<Seq<char>>::empty());
        assert(config@.secret_key_labels =~= Seq::<Seq<char>>::empty());
        config
    }

    /// Reads the configuration from a command line, `is_root` saying
    /// whether the process runs as root.
    pub fn from_args_vec(args: Vec<String>, is_root: bool) -> (r: Result<
        RmbtServerConfig,
        ConfigError,
    >)
        ensures
            match r {
                Ok(c) => config_of(texts(args@), is_root) == Ok::<ConfigView, ConfigError>(c@),
                Err(e) => config_of(texts(args@), is_root) == Err::<ConfigView, ConfigError>(e),
            },
    {
        let mut config = RmbtServerConfig::start();
        let ghost line = texts(args@);
        let total: usize = args.len();
        let mut i: usize = 1;
        while i < total
            invariant
                total == args@.len(),
                line == texts(args@),
                1 <= i,
                ConfigView::start().read_from(line, 1, is_root) == config@.read_from(
                    line,
                    i as int,
                    is_root,
                ),
            decreases total - i,
        {
            assert(line[i as int] == args@[i as int]@);
            let wide: bool = takes_argument(&args[i]);
            match config.apply_option(&args, i, is_root) {
                Err(e) => {
                    return Err(e);
                },
                Ok(_) => {},
            }
            if wide && i < total - 1 {
                i = i + 2;
            } else {
                i = i + 1;
            }
        }
        config.complete()
    }
}

/// Whether the option takes the argument behind it.
fn takes_argument(arg: &String) -> (r: bool)
    ensures
        r == (is_option(arg@, "-l") || is_option(arg@, "-L") || is_option(arg@, "-c")
            || is_option(arg@, "-k") || is_option(arg@, "-t") || is_option(arg@, "-u")
            || is_option(arg@, "-v")),
{
    is_word(arg, "-l") || is_word(arg, "-L") || is_word(arg, "-c") || is_word(arg, "-k")
        || is_word(arg, "-t") || is_word(arg, "-u") || is_word(arg, "-v")
}

impl Default for RmbtServerConfig {
    /// A configuration for trying the server out: one plain listener on the
    /// loopback address, four threads.
    fn default() -> (r: RmbtServerConfig)
        ensures
            r@.listen_addresses == seq![
                AddressView { host: HostView::V4(127, 0, 0, 1), port: 8080 },
            ],
            r@.ssl_listen_addresses == Seq::<AddressView>::empty(),
            r@.cert_path.is_none(),
            r@.key_path.is_none(),
            r@.num_threads == 4,
            r@.user.is_none(),
            !r@.daemon && !r@.debug && !r@.websocket && !r@.user_privileges,
            r@.version == Some(1u8),
    {
        let mut listen: Vec<ListenAddress> = Vec::new();
        listen.push(ListenAddress { host: ListenHost::V4(127, 0, 0, 1), port: 8080 });
        let r = RmbtServerConfig {
            listen_addresses: listen,
            ssl_listen_addresses: Vec::new(),
            cert_path: None,
            key_path: None,
            num_threads: 4,
            user: None,
            daemon: false,
            debug: false,
            websocket: false,
            version: Some(1),
            secret_keys: Vec::new(),
            secret_key_labels: Vec::new(),
            user_privileges: false,
        };
        assert(r@.listen_addresses =~= seq![
            AddressView { host: HostView::V4(127, 0, 0, 1), port: 8080 },
        ]);
        assert(r@.ssl_listen_addresses =~= Seq::<AddressView>::empty());
        r
    }
}

} // verus!
