//! Target endpoint: structured host and port parsed from `--addr` / `--port`.

use vstd::prelude::*;
use vstd::string::StrSliceExecFns;
use vstd::string::StringExecFns;

use crate::text::contains_char;
use crate::text::decimal_text;
use crate::text::find_char;
use crate::text::parse_u16;
use crate::text::quote;
use crate::text::rfind_char;

verus! {

/// A resolved target to dial: a host (for SNI/authority) and a port.
#[derive(Debug)]
pub struct Target {
    host: String,
    port: u16,
}

/// Why an `--addr` value could not be parsed into a host and port.
#[derive(Debug)]
pub enum AddrError {
    /// No port follows the host; holds the value.
    MissingPort(String),
    /// Nothing stands before the port; holds the value.
    EmptyHost(String),
    /// The port is not a number that fits; holds the value and the reason.
    InvalidPort(String, String),
    /// A `[` without its `]`; holds the value.
    UnterminatedIpv6(String),
    /// Several colons outside brackets; holds the value.
    UnbracketedIpv6(String),
}

/// The kinds of [`AddrError`].
pub enum AddrFault {
    MissingPort,
    EmptyHost,
    InvalidPort,
    UnterminatedIpv6,
    UnbracketedIpv6,
}

/// Splits an address into the text of its host and the text of its port.
/// IPv6 literals carry their own colons, so in the bracketed form the host ends
/// at the first `]`, which a `:` must follow; otherwise it ends at the only `:`.
pub open spec fn addr_split(addr: Seq<char>) -> Result<(Seq<char>, Seq<char>), AddrFault> {
    if addr.len() > 0 && addr[0] == '[' {
        let rest = addr.skip(1);
        match rest.index_of_first(']') {
            None => Err(AddrFault::UnterminatedIpv6),
            Some(end) => if end + 1 < rest.len() && rest[end + 1] == ':' {
                Ok((rest.take(end), rest.skip(end + 2)))
            } else {
                Err(AddrFault::MissingPort)
            },
        }
    } else {
        match addr.index_of_last(':') {
            None => Err(AddrFault::MissingPort),
            Some(cut) => if addr.take(cut).contains(':') {
                Err(AddrFault::UnbracketedIpv6)
            } else {
                Ok((addr.take(cut), addr.skip(cut + 1)))
            },
        }
    }
}

/// The host and port that an address stands for, or why it stands for none.
pub open spec fn addr_parts(addr: Seq<char>) -> Result<(Seq<char>, u16), AddrFault> {
    match addr_split(addr) {
        Err(fault) => Err(fault),
        Ok((host, port)) => if host.len() == 0 {
            Err(AddrFault::EmptyHost)
        } else {
            match crate::text::unsigned_value(port) {
                Some(v) => if v <= u16::MAX {
                    Ok((host, v as u16))
                } else {
                    Err(AddrFault::InvalidPort)
                },
                None => Err(AddrFault::InvalidPort),
            }
        },
    }
}

/// What a host can be: not empty, and free of `]` where it is an IPv6 literal.
pub open spec fn valid_host(host: Seq<char>) -> bool {
    &&& host.len() > 0
    &&& host.contains(':') ==> !host.contains(']')
}

/// `host:port`, with IPv6 literals in brackets.
pub open spec fn authority(host: Seq<char>, port: u16) -> Seq<char> {
    if host.contains(':') {
        "["@ + host + "]:"@ + crate::text::decimal(port as nat)
    } else {
        host + ":"@ + crate::text::decimal(port as nat)
    }
}

/// The URI to dial for a host and port.
pub open spec fn dial_uri(host: Seq<char>, port: u16, tls: bool) -> Seq<char> {
    (if tls {
        "https://"@
    } else {
        "http://"@
    }) + authority(host, port)
}

impl AddrError {
    /// The kind of this error.
    pub open spec fn fault(self) -> AddrFault {
        match self {
            AddrError::MissingPort(_) => AddrFault::MissingPort,
            AddrError::EmptyHost(_) => AddrFault::EmptyHost,
            AddrError::InvalidPort(_, _) => AddrFault::InvalidPort,
            AddrError::UnterminatedIpv6(_) => AddrFault::UnterminatedIpv6,
            AddrError::UnbracketedIpv6(_) => AddrFault::UnbracketedIpv6,
        }
    }

    /// The address that was rejected.
    pub open spec fn raw(self) -> Seq<char> {
        match self {
            AddrError::MissingPort(raw) => raw@,
            AddrError::EmptyHost(raw) => raw@,
            AddrError::InvalidPort(raw, _) => raw@,
            AddrError::UnterminatedIpv6(raw) => raw@,
            AddrError::UnbracketedIpv6(raw) => raw@,
        }
    }

    /// The message of this error, with `quoted` for the rejected address.
    pub open spec fn description(self, quoted: Seq<char>) -> Seq<char> {
        match self {
            AddrError::MissingPort(_) => "address "@ + quoted
                + " must be host:port (the port is required)"@,
            AddrError::EmptyHost(_) => "address "@ + quoted + " has an empty host"@,
            AddrError::InvalidPort(_, detail) => "address "@ + quoted + " has an invalid port: "@
                + detail@,
            AddrError::UnterminatedIpv6(_) => "address "@ + quoted
                + " has an unterminated IPv6 literal (missing ']')"@,
            AddrError::UnbracketedIpv6(_) => "address "@ + quoted
                + " looks like an IPv6 literal; wrap it in brackets: [host]:port"@,
        }
    }

    /// Writes the message of this error around the quoted address.
    pub fn describe(&self, quoted: &str) -> (r: String)
        ensures
            r@ == self.description(quoted@),
    {
        let head = "address ".to_owned().concat(quoted);
        match self {
            AddrError::MissingPort(_) => head.concat(" must be host:port (the port is required)"),
            AddrError::EmptyHost(_) => head.concat(" has an empty host"),
            AddrError::InvalidPort(_, detail) => head.concat(" has an invalid port: ").concat(
                detail.as_str(),
            ),
            AddrError::UnterminatedIpv6(_) => head.concat(
                " has an unterminated IPv6 literal (missing ']')",
            ),
            AddrError::UnbracketedIpv6(_) => head.concat(
                " looks like an IPv6 literal; wrap it in brackets: [host]:port",
            ),
        }
    }

    /// The message of this error.
    pub fn to_string(&self) -> (r: String)
        ensures
            r@ == self.description(crate::text::quoted(self.raw())),
    {
        let raw: &String = match self {
            AddrError::MissingPort(raw) => raw,
            AddrError::EmptyHost(raw) => raw,
            AddrError::InvalidPort(raw, _) => raw,
            AddrError::UnterminatedIpv6(raw) => raw,
            AddrError::UnbracketedIpv6(raw) => raw,
        };
        self.describe(quote(raw.as_str()).as_str())
    }
}

impl Clone for Target {
    fn clone(&self) -> (r: Self)
        ensures
            r == *self,
    {
        proof {
            use_type_invariant(self);
        }
        Target { host: self.host.clone(), port: self.port }
    }
}

impl Target {
    #[verifier::type_invariant]
    spec fn wf(self) -> bool {
        valid_host(self.host@)
    }

    /// The host of this target.
    pub closed spec fn host_text(self) -> Seq<char> {
        self.host@
    }

    /// The port of this target.
    pub closed spec fn port_number(self) -> u16 {
        self.port
    }

    /// Parses an `--addr` value of the form `host:port`.
    /// IPv6 literals must be wrapped in brackets, e.g. `[::1]:50051`.
    pub fn parse_addr(addr: &str) -> (r: Result<Target, AddrError>)
        ensures
            match r {
                Ok(t) => addr_parts(addr@) == Ok::<(Seq<char>, u16), AddrFault>(
                    (t.host_text(), t.port_number()),
                ),
                Err(e) => addr_parts(addr@) == Err::<(Seq<char>, u16), AddrFault>(e.fault())
                    && e.raw() == addr@,
            },
            r matches Err(AddrError::InvalidPort(_, detail)) ==> detail@ == crate::text::u16_fault(
                addr_split(addr@)->Ok_0.1,
            ),
    {
        let len: usize = addr.unicode_len();
        let host: &str;
        let port_text: &str;
        if len > 0 && addr.get_char(0) == '[' {
            let rest = addr.substring_char(1, len);
            assert(rest@ == addr@.skip(1));
            proof {
                rest@.index_of_first_ensures(']');
            }
            let end: usize = match find_char(rest, ']') {
                Some(end) => end,
                None => return Err(AddrError::UnterminatedIpv6(addr.to_owned())),
            };
            if len - 1 - end < 2 || rest.get_char(end + 1) != ':' {
                return Err(AddrError::MissingPort(addr.to_owned()));
            }
            host = rest.substring_char(0, end);
            port_text = rest.substring_char(end + 2, len - 1);
            assert(host@ == rest@.take(end as int));
            assert(port_text@ == rest@.skip(end + 2));
        } else {
            proof {
                addr@.index_of_last_ensures(':');
            }
            let cut: usize = match rfind_char(addr, ':') {
                Some(cut) => cut,
                None => return Err(AddrError::MissingPort(addr.to_owned())),
            };
            host = addr.substring_char(0, cut);
            port_text = addr.substring_char(cut + 1, len);
            assert(host@ == addr@.take(cut as int));
            assert(port_text@ == addr@.skip(cut + 1));
            // A leftover ':' in the host means an unbracketed IPv6 literal.
            if contains_char(host, ':') {
                return Err(AddrError::UnbracketedIpv6(addr.to_owned()));
            }
        }
        if host.is_empty() {
            return Err(AddrError::EmptyHost(addr.to_owned()));
        }
        let port: u16 = match parse_u16(port_text) {
            Ok(port) => port,
            Err(detail) => return Err(AddrError::InvalidPort(addr.to_owned(), detail)),
        };
        Ok(Target { host: host.to_owned(), port })
    }

    /// Builds the implicit target for `--port N`: `localhost:N`.
    pub fn localhost(port: u16) -> (r: Target)
        ensures
            r.host_text() == "localhost"@,
            r.port_number() == port,
    {
        proof {
            reveal_strlit("localhost");
        }
        Target { host: "localhost".to_owned(), port }
    }

    /// Host used for the connection authority and TLS SNI.
    pub fn host(&self) -> (r: &str)
        ensures
            r@ == self.host_text(),
    {
        self.host.as_str()
    }

    /// Writes `host:port`, bracketing IPv6 literals.
    pub fn to_string(&self) -> (r: String)
        ensures
            r@ == authority(self.host_text(), self.port_number()),
    {
        let port = decimal_text(self.port);
        if contains_char(self.host.as_str(), ':') {
            "[".to_owned().concat(self.host.as_str()).concat("]:").concat(port.as_str())
        } else {
            self.host.clone().concat(":").concat(port.as_str())
        }
    }

    /// The URI to dial: `http://host:port`, or `https://` when TLS is on.
    /// IPv6 hosts are bracketed.
    pub fn uri(&self, tls: bool) -> (r: String)
        ensures
            r@ == dial_uri(self.host_text(), self.port_number(), tls),
    {
        let scheme = if tls {
            "https://"
        } else {
            "http://"
        };
        scheme.to_owned().concat(self.to_string().as_str())
    }
}

/// A bracketed address splits at its brackets, whatever the host holds but `]`.
pub proof fn law_bracketed_addr_splits(host: Seq<char>, port: Seq<char>)
    requires
        !host.contains(']'),
    ensures
        addr_split("["@ + host + "]:"@ + port) == Ok::<(Seq<char>, Seq<char>), AddrFault>(
            (host, port),
        ),
{
    reveal_strlit("[");
    reveal_strlit("]:");
    let addr = "["@ + host + "]:"@ + port;
    let rest = addr.skip(1);
    assert(rest == host + "]:"@ + port);
    let end = host.len() as int;
    assert(rest[end] == ']');
    rest.index_of_first_ensures(']');
    let first = rest.index_of_first(']')->Some_0;
    if first < end {
        assert(host[first] == rest[first]);
    }
    assert(rest.take(end) == host);
    assert(rest.skip(end + 2) == port);
}

/// An address without brackets and with one colon splits at that colon.
pub proof fn law_plain_addr_splits(host: Seq<char>, port: Seq<char>)
    requires
        host.len() > 0 ==> host[0] != '[',
        !host.contains(':'),
        !port.contains(':'),
    ensures
        addr_split(host + ":"@ + port) == Ok::<(Seq<char>, Seq<char>), AddrFault>((host, port)),
{
    reveal_strlit(":");
    let addr = host + ":"@ + port;
    let cut = host.len() as int;
    assert(addr[cut] == ':');
    addr.index_of_last_ensures(':');
    let last = addr.index_of_last(':')->Some_0;
    if last > cut {
        assert(port[last - cut - 1] == addr[last]);
    }
    assert(addr.take(cut) == host);
    assert(addr.skip(cut + 1) == port);
}

/// Outside brackets a second colon is never taken for the port separator: the
/// address is rejected as an unbracketed IPv6 literal.
pub proof fn law_unbracketed_ipv6_is_rejected(addr: Seq<char>, i: int, j: int)
    requires
        0 <= i < j < addr.len(),
        addr[0] != '[',
        addr[i] == ':',
        addr[j] == ':',
    ensures
        addr_parts(addr) == Err::<(Seq<char>, u16), AddrFault>(AddrFault::UnbracketedIpv6),
{
    addr.index_of_last_ensures(':');
    let cut = addr.index_of_last(':')->Some_0;
    assert(addr.take(cut)[i] == ':');
}

/// Every accepted address has a valid host.
pub proof fn law_accepted_host_is_valid(addr: Seq<char>)
    ensures
        addr_parts(addr) matches Ok((host, _)) ==> valid_host(host),
{
    if addr.len() > 0 && addr[0] == '[' {
        addr.skip(1).index_of_first_ensures(']');
    } else {
        addr.index_of_last_ensures(':');
    }
}

/// Writing a target as `host:port` and parsing it gives the target back. Left
/// out is a host that begins with `[` and is no IPv6 literal: written without
/// brackets it reads as an unterminated one.
pub proof fn law_target_reads_back(host: Seq<char>, port: u16)
    requires
        valid_host(host),
        host[0] == '[' ==> host.contains(':'),
    ensures
        addr_parts(authority(host, port)) == Ok::<(Seq<char>, u16), AddrFault>((host, port)),
{
    let digits = crate::text::decimal(port as nat);
    crate::text::law_decimal_reads_back(port as nat);
    if host.contains(':') {
        law_bracketed_addr_splits(host, digits);
    } else {
        assert(!digits.contains(':'));
        law_plain_addr_splits(host, digits);
    }
}

/// `--port N` is a shortcut for `--addr localhost:N`.
pub proof fn law_port_is_localhost_addr(port: u16)
    ensures
        addr_parts("localhost:"@ + crate::text::decimal(port as nat)) == Ok::<
            (Seq<char>, u16),
            AddrFault,
        >(("localhost"@, port)),
{
    reveal_strlit("localhost:");
    reveal_strlit("localhost");
    reveal_strlit(":");
    assert("localhost:"@ == "localhost"@ + ":"@);
    law_target_reads_back("localhost"@, port);
}

/// The URI of a target is its `host:port` behind the scheme, and the scheme is
/// `https` exactly when TLS is on.
pub proof fn law_scheme_follows_tls(host: Seq<char>, port: u16)
    ensures
        dial_uri(host, port, true) == "https://"@ + authority(host, port),
        dial_uri(host, port, false) == "http://"@ + authority(host, port),
        dial_uri(host, port, true) != dial_uri(host, port, false),
{
    reveal_strlit("https://");
    reveal_strlit("http://");
    assert(dial_uri(host, port, true).len() != dial_uri(host, port, false).len());
}

/// Only a host that holds a `:` is bracketed. Any other is written as it is, a
/// `:` and the port behind it, and the URI puts nothing but the scheme before.
pub proof fn law_only_ipv6_hosts_are_bracketed(host: Seq<char>, port: u16)
    ensures
        !host.contains(':') ==> authority(host, port) == host + ":"@ + crate::text::decimal(
            port as nat,
        ) && dial_uri(host, port, false) == "http://"@ + host + ":"@ + crate::text::decimal(
            port as nat,
        ) && dial_uri(host, port, true) == "https://"@ + host + ":"@ + crate::text::decimal(
            port as nat,
        ),
        host.contains(':') ==> authority(host, port) == "["@ + host + "]:"@ + crate::text::decimal(
            port as nat,
        ) && dial_uri(host, port, false) == "http://["@ + host + "]:"@ + crate::text::decimal(
            port as nat,
        ) && dial_uri(host, port, true) == "https://["@ + host + "]:"@ + crate::text::decimal(
            port as nat,
        ),
{
    reveal_strlit("http://");
    reveal_strlit("https://");
    reveal_strlit("http://[");
    reveal_strlit("https://[");
    reveal_strlit("[");
    let digits = crate::text::decimal(port as nat);
    if host.contains(':') {
        assert("http://"@ + ("["@ + host + "]:"@ + digits) == "http://["@ + host + "]:"@ + digits);
        assert("https://"@ + ("["@ + host + "]:"@ + digits) == "https://["@ + host + "]:"@
            + digits);
    } else {
        assert("http://"@ + (host + ":"@ + digits) == "http://"@ + host + ":"@ + digits);
        assert("https://"@ + (host + ":"@ + digits) == "https://"@ + host + ":"@ + digits);
    }
}

/// The part of a written target before the port.
spec fn written_host(host: Seq<char>) -> Seq<char> {
    if !host.contains(':') {
        host
    } else {
        "["@ + host + "]"@
    }
}

proof fn lemma_authority_cuts(host: Seq<char>, port: u16)
    ensures
        ({
            let text = authority(host, port);
            let cut = text.index_of_last(':');
            &&& cut == Some(written_host(host).len() as int)
            &&& text.take(cut->Some_0) == written_host(host)
            &&& text.skip(cut->Some_0 + 1) == crate::text::decimal(port as nat)
        }),
{
    reveal_strlit(":");
    reveal_strlit("]:");
    reveal_strlit("]");
    let head = written_host(host);
    let digits = crate::text::decimal(port as nat);
    let text = authority(host, port);
    crate::text::law_decimal_reads_back(port as nat);
    assert(text == head + ":"@ + digits);
    let n = head.len() as int;
    assert(text[n] == ':');
    text.index_of_last_ensures(':');
    let last = text.index_of_last(':')->Some_0;
    if last > n {
        assert(digits[last - n - 1] == text[last]);
    }
    assert(text.take(n) == head);
    assert(text.skip(n + 1) == digits);
}

/// Different targets are written differently, and so are their URIs.
pub proof fn law_targets_are_told_apart(
    host: Seq<char>,
    port: u16,
    other_host: Seq<char>,
    other_port: u16,
    tls: bool,
)
    requires
        authority(host, port) == authority(other_host, other_port) || dial_uri(host, port, tls)
            == dial_uri(other_host, other_port, tls),
    ensures
        host == other_host,
        port == other_port,
{
    reveal_strlit("[");
    reveal_strlit("]");
    let x = authority(host, port);
    let y = authority(other_host, other_port);
    if dial_uri(host, port, tls) == dial_uri(other_host, other_port, tls) {
        let n = if tls {
            "https://"@.len() as int
        } else {
            "http://"@.len() as int
        };
        assert(dial_uri(host, port, tls).skip(n) == x);
        assert(dial_uri(other_host, other_port, tls).skip(n) == y);
    }
    lemma_authority_cuts(host, port);
    lemma_authority_cuts(other_host, other_port);
    crate::text::law_decimal_reads_back(port as nat);
    crate::text::law_decimal_reads_back(other_port as nat);
    let a = written_host(host);
    let b = written_host(other_host);
    assert(a == b);
    if host.contains(':') {
        let i = choose|i: int| 0 <= i < host.len() && host[i] == ':';
        assert(a[i + 1] == ':');
        assert(a.subrange(1, a.len() - 1) == host);
    }
    if other_host.contains(':') {
        let i = choose|i: int| 0 <= i < other_host.len() && other_host[i] == ':';
        assert(b[i + 1] == ':');
        assert(b.subrange(1, b.len() - 1) == other_host);
    }
}

/// Without a `:` there is no port.
pub proof fn law_port_is_required(addr: Seq<char>)
    requires
        !addr.contains(':'),
        addr.len() > 0 ==> addr[0] != '[',
    ensures
        addr_parts(addr) == Err::<(Seq<char>, u16), AddrFault>(AddrFault::MissingPort),
{
    addr.index_of_last_ensures(':');
}

/// An opening bracket needs its closing one.
pub proof fn law_bracket_must_close(addr: Seq<char>)
    requires
        addr.len() > 0,
        addr[0] == '[',
        !addr.contains(']'),
    ensures
        addr_parts(addr) == Err::<(Seq<char>, u16), AddrFault>(AddrFault::UnterminatedIpv6),
{
    let rest = addr.skip(1);
    rest.index_of_first_ensures(']');
    assert forall|i: int| 0 <= i < rest.len() implies rest[i] != ']' by {
        assert(rest[i] == addr[i + 1]);
    }
}

/// Behind the closing bracket a `:` must follow.
pub proof fn law_bracketed_host_needs_port(host: Seq<char>, rest: Seq<char>)
    requires
        !host.contains(']'),
        rest.len() > 0 ==> rest[0] != ':',
    ensures
        addr_parts("["@ + host + "]"@ + rest) == Err::<(Seq<char>, u16), AddrFault>(
            AddrFault::MissingPort,
        ),
{
    reveal_strlit("[");
    reveal_strlit("]");
    let addr = "["@ + host + "]"@ + rest;
    let inner = addr.skip(1);
    assert(inner == host + "]"@ + rest);
    let end = host.len() as int;
    assert(inner[end] == ']');
    inner.index_of_first_ensures(']');
    let first = inner.index_of_first(']')->Some_0;
    if first < end {
        assert(host[first] == inner[first]);
    }
    if end + 1 < inner.len() {
        assert(inner[end + 1] == rest[0]);
    }
}

/// Both forms of an address, with brackets and without, stand for the host as it
/// is written and the port's number, where there is a host and the number is at
/// most 65535.
pub proof fn law_address_forms(addr: Seq<char>, host: Seq<char>, port: Seq<char>)
    requires
        (addr == "["@ + host + "]:"@ + port && !host.contains(']')) || (addr == host + ":"@ + port
            && !host.contains(':') && !port.contains(':') && (host.len() > 0 ==> host[0] != '[')),
    ensures
        host.len() == 0 <==> addr_parts(addr) == Err::<(Seq<char>, u16), AddrFault>(
            AddrFault::EmptyHost,
        ),
        host.len() > 0 ==> (addr_parts(addr) is Ok <==> (crate::text::unsigned_value(
            port,
        ) matches Some(v) && v <= 65535)),
        addr_parts(addr) matches Ok((h, p)) ==> h == host && crate::text::unsigned_value(port)
            == Some(p as nat),
        addr_parts(addr) matches Err(fault) ==> fault is EmptyHost || fault is InvalidPort,
{
    if addr == "["@ + host + "]:"@ + port && !host.contains(']') {
        law_bracketed_addr_splits(host, port);
    } else {
        law_plain_addr_splits(host, port);
    }
}

/// An accepted address gives its own host and port: where it is not bracketed,
/// it begins with the host and a `:`; where it is, with the host in brackets.
pub proof fn law_accepted_address_shows_host(addr: Seq<char>)
    requires
        addr_parts(addr) is Ok,
    ensures
        ({
            let host = addr_parts(addr)->Ok_0.0;
            &&& addr[0] != '[' ==> (host + ":"@).is_prefix_of(addr)
            &&& addr[0] == '[' ==> ("["@ + host + "]:"@).is_prefix_of(addr)
        }),
{
    reveal_strlit(":");
    reveal_strlit("[");
    reveal_strlit("]:");
    let host = addr_parts(addr)->Ok_0.0;
    addr.index_of_last_ensures(':');
    if addr.len() > 0 && addr[0] == '[' {
        let rest = addr.skip(1);
        rest.index_of_first_ensures(']');
        let n = host.len() as int;
        assert(rest[n] == ']' && rest[n + 1] == ':');
        assert(addr[n + 1] == rest[n] && addr[n + 2] == rest[n + 1]);
        assert(("["@ + host + "]:"@) =~= addr.subrange(0, n + 3));
    } else {
        assert((host + ":"@) =~= addr.subrange(0, host.len() as int + 1));
    }
}

/// An error is of the kind of its variant, holds the address that it was given,
/// and its message names the address and what is wrong with it.
pub proof fn law_address_errors(err: AddrError, quoted: Seq<char>)
    ensures
        match err {
            AddrError::MissingPort(raw) => err.fault() == AddrFault::MissingPort && err.raw()
                == raw@ && err.description(quoted) == "address "@ + quoted
                + " must be host:port (the port is required)"@,
            AddrError::EmptyHost(raw) => err.fault() == AddrFault::EmptyHost && err.raw() == raw@
                && err.description(quoted) == "address "@ + quoted + " has an empty host"@,
            AddrError::InvalidPort(raw, detail) => err.fault() == AddrFault::InvalidPort
                && err.raw() == raw@ && err.description(quoted) == "address "@ + quoted
                + " has an invalid port: "@ + detail@,
            AddrError::UnterminatedIpv6(raw) => err.fault() == AddrFault::UnterminatedIpv6
                && err.raw() == raw@ && err.description(quoted) == "address "@ + quoted
                + " has an unterminated IPv6 literal (missing ']')"@,
            AddrError::UnbracketedIpv6(raw) => err.fault() == AddrFault::UnbracketedIpv6
                && err.raw() == raw@ && err.description(quoted) == "address "@ + quoted
                + " looks like an IPv6 literal; wrap it in brackets: [host]:port"@,
        },
{
}

} // verus!
