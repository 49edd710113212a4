//! Command-line interface: the flags, their rules and what they ask for.

use std::path::PathBuf;
use vstd::prelude::*;
use vstd::string::StrSliceExecFns;
use vstd::string::StringExecFns;

use crate::endpoint::Target;
use crate::metadata::MetaPair;
use crate::output::OutputFormat;
use crate::probe::ProbeParams;
use crate::span::Span;
use crate::text::parse_u64;
use crate::text::quote;
use crate::text::same_text;
use crate::tls::TlsMode;

verus! {

/// The flags of a command line.
#[derive(Debug)]
pub struct Cli {
    /// Target address as host:port
    pub addr: Option<Target>,
    /// Shortcut for localhost:PORT
    pub port: Option<u16>,
    /// Service name to check; repeat to check several, omit for overall health
    pub service: Vec<String>,
    /// gRPC metadata as key=value, attached to every request; repeatable
    pub metadata: Vec<MetaPair>,
    /// Retry transient connection failures up to N times
    pub retry: u32,
    /// Timeout for establishing the connection, e.g. 500ms, 2s, 1m
    pub connect_timeout: Option<Span>,
    /// Timeout for the health request, e.g. 500ms, 2s, 1m
    pub timeout: Option<Span>,
    /// In --watch mode, exit after N consecutive non-serving updates
    pub watch_failures: Option<u32>,
    /// Print the endpoint and service alongside the status
    pub verbose: bool,
    /// Print the result as JSON; an array when several services are checked
    pub json: bool,
    /// Suppress output; rely on the exit code only
    pub quiet: bool,
    /// Connect over TLS using the system's trusted roots
    pub tls: bool,
    /// Verify the server against this PEM CA certificate (implies --tls)
    pub ca_cert: Option<PathBuf>,
    /// DANGEROUS: skip TLS certificate verification (implies --tls; debugging only)
    pub tls_no_verify: bool,
    /// Stream Health/Watch updates instead of a single Check
    pub watch: bool,
}

/// Why a combination of flags is refused.
#[derive(Debug, Clone, Copy, PartialEq, Eq, Structural)]
pub enum CliError {
    /// `--watch` with more than one `--service`.
    WatchSeveralServices,
}

impl CliError {
    /// The message of this error.
    pub fn to_string(&self) -> (r: String)
        ensures
            r@ == "--watch follows a single service; remove the extra --service values"@,
    {
        "--watch follows a single service; remove the extra --service values".to_owned()
    }
}

impl Cli {
    /// Exactly one of `--addr` and `--port` says what to dial.
    pub open spec fn one_target(self) -> bool {
        self.addr is Some <==> self.port is None
    }

    /// At most one of `--verbose`, `--json` and `--quiet` is set.
    pub open spec fn one_format(self) -> bool {
        &&& !(self.verbose && self.json)
        &&& !(self.verbose && self.quiet)
        &&& !(self.json && self.quiet)
    }

    /// `--ca-cert` and `--tls-no-verify` are not both set.
    pub open spec fn one_trust(self) -> bool {
        self.ca_cert is Some ==> !self.tls_no_verify
    }

    /// `--watch-failures` comes with `--watch` and is at least 1.
    pub open spec fn watch_failures_fit(self) -> bool {
        self.watch_failures matches Some(limit) ==> self.watch && limit >= 1
    }

    /// Whether the flags may stand together on a command line.
    pub open spec fn consistent(self) -> bool {
        &&& self.one_target()
        &&& self.one_format()
        &&& self.one_trust()
        &&& self.watch_failures_fit()
    }

    /// Whether the flags may stand together on a command line: exactly one
    /// target, at most one output format, no CA certificate without
    /// verification, and a failure limit only for a watch.
    pub fn is_consistent(&self) -> (r: bool)
        ensures
            r == self.consistent(),
    {
        let limit_fits = match self.watch_failures {
            Some(limit) => self.watch && limit >= 1,
            None => true,
        };
        self.addr.is_some() == self.port.is_none() && !(self.verbose && self.json) && !(
        self.verbose && self.quiet) && !(self.json && self.quiet) && !(self.ca_cert.is_some()
            && self.tls_no_verify) && limit_fits
    }

    /// The host to dial.
    pub open spec fn target_host(self) -> Seq<char> {
        match self.addr {
            Some(addr) => addr.host_text(),
            None => "localhost"@,
        }
    }

    /// The port to dial.
    pub open spec fn target_port(self) -> u16 {
        match self.addr {
            Some(addr) => addr.port_number(),
            None => self.port->Some_0,
        }
    }

    /// Resolves the endpoint to dial from `--addr` or `--port`.
    /// `--addr` is already validated into a [`Target`] during parsing.
    pub fn target(&self) -> (r: Target)
        requires
            self.addr is Some || self.port is Some,
        ensures
            r.host_text() == self.target_host(),
            r.port_number() == self.target_port(),
    {
        match &self.addr {
            Some(addr) => addr.clone(),
            None => Target::localhost(self.port.unwrap()),
        }
    }

    /// Cross-flag rules beyond those of the argument groups. `--watch` follows a single stream,
    /// so more than one `--service` is ambiguous: reject it rather than silently picking one.
    pub fn validate(&self) -> (r: Result<(), CliError>)
        ensures
            r == (if self.watch && self.service@.len() > 1 {
                Err::<(), CliError>(CliError::WatchSeveralServices)
            } else {
                Ok::<(), CliError>(())
            }),
    {
        if self.watch && self.service.len() > 1 {
            return Err(CliError::WatchSeveralServices);
        }
        Ok(())
    }

    /// Assembles the transport parameters for a probe from the parsed flags.
    pub fn probe_params(&self) -> (r: ProbeParams)
        requires
            self.addr is Some || self.port is Some,
        ensures
            r.target.host_text() == self.target_host(),
            r.target.port_number() == self.target_port(),
            r.tls_mode == self.chosen_tls(),
            r.services@ == self.service@,
            r.metadata@ == self.metadata@,
            r.retry == self.retry,
            r.connect_timeout == self.connect_timeout,
            r.timeout == self.timeout,
            r.watch_failures == self.watch_failures,
    {
        let services = self.service.clone();
        let metadata = self.metadata.clone();
        assert(services@ =~= self.service@);
        assert(metadata@ =~= self.metadata@);
        ProbeParams {
            target: self.target(),
            tls_mode: self.tls_mode(),
            services,
            metadata,
            retry: self.retry,
            connect_timeout: self.connect_timeout,
            timeout: self.timeout,
            watch_failures: self.watch_failures,
        }
    }

    /// The TLS setup that the flags choose.
    pub open spec fn chosen_tls(self) -> TlsMode {
        if self.tls_no_verify {
            TlsMode::NoVerify
        } else if self.ca_cert is Some {
            TlsMode::CustomCa(self.ca_cert->Some_0)
        } else if self.tls {
            TlsMode::SystemRoots
        } else {
            TlsMode::Disabled
        }
    }

    /// TLS setup from the flags.
    /// `--ca-cert` and `--tls-no-verify` both imply TLS; the parser rejects their combination.
    pub fn tls_mode(&self) -> (r: TlsMode)
        ensures
            r == self.chosen_tls(),
    {
        if self.tls_no_verify {
            return TlsMode::NoVerify;
        }
        match &self.ca_cert {
            Some(path) => TlsMode::CustomCa(path.clone()),
            None => if self.tls {
                TlsMode::SystemRoots
            } else {
                TlsMode::Disabled
            },
        }
    }

    /// The output format that the flags choose.
    pub open spec fn chosen_format(self) -> OutputFormat {
        if self.json {
            OutputFormat::Json
        } else if self.quiet {
            OutputFormat::Quiet
        } else if self.verbose {
            OutputFormat::Verbose
        } else {
            OutputFormat::Default
        }
    }

    /// Output format chosen by the mutually exclusive `--verbose`/`--json`/`--quiet` flags;
    /// the plain status line when none is set.
    pub fn output_format(&self) -> (r: OutputFormat)
        ensures
            r == self.chosen_format(),
    {
        if self.json {
            OutputFormat::Json
        } else if self.quiet {
            OutputFormat::Quiet
        } else if self.verbose {
            OutputFormat::Verbose
        } else {
            OutputFormat::Default
        }
    }
}

/// TLS is on exactly when one of the TLS flags is set: `--ca-cert` and
/// `--tls-no-verify` imply `--tls`.
pub proof fn law_tls_flags_imply_tls(cli: Cli)
    ensures
        cli.chosen_tls().enabled() <==> cli.tls || cli.ca_cert is Some || cli.tls_no_verify,
{
}

/// Certificate verification is skipped only where that was asked for, and a CA
/// certificate that was given is used.
pub proof fn law_verification_is_kept(cli: Cli)
    requires
        cli.consistent(),
    ensures
        cli.chosen_tls() is NoVerify <==> cli.tls_no_verify,
        cli.ca_cert matches Some(path) ==> cli.chosen_tls() == TlsMode::CustomCa(path),
{
}

/// With consistent flags each output flag chooses its own format, and the plain
/// format is chosen exactly when none of them is set.
pub proof fn law_format_flags(cli: Cli)
    requires
        cli.consistent(),
    ensures
        cli.chosen_format() == OutputFormat::Json <==> cli.json,
        cli.chosen_format() == OutputFormat::Quiet <==> cli.quiet,
        cli.chosen_format() == OutputFormat::Verbose <==> cli.verbose,
        cli.chosen_format() == OutputFormat::Default <==> !cli.json && !cli.quiet && !cli.verbose,
{
}

/// Why a duration flag value could not be parsed.
#[derive(Debug)]
pub enum DurationParseError {
    /// The number stands alone; holds the value.
    MissingUnit(String),
    /// The unit stands alone; holds the value.
    MissingNumber(String),
    /// The number does not fit; holds the value and the reason.
    InvalidNumber(String, String),
    /// The unit is none of `ms`, `s` and `m`.
    UnknownUnit { raw: String, unit: String },
    /// The duration does not fit; holds the value.
    Overflow(String),
    /// The duration has no length; holds the value.
    Zero(String),
}

/// The kinds of [`DurationParseError`].
pub enum DurationFault {
    MissingUnit,
    MissingNumber,
    InvalidNumber,
    UnknownUnit,
    Overflow,
    Zero,
}

/// How many digits `raw` begins with.
pub open spec fn digit_run(raw: Seq<char>) -> nat
    decreases raw.len(),
{
    if raw.len() == 0 || !crate::text::is_digit(raw[0]) {
        0
    } else {
        1 + digit_run(raw.skip(1))
    }
}

/// The milliseconds in `value` units of `unit`, where that is a unit and the
/// duration fits.
pub open spec fn in_millis(value: nat, unit: Seq<char>) -> Result<nat, DurationFault> {
    if unit == "ms"@ {
        Ok(value)
    } else if unit == "s"@ {
        Ok(value * 1000)
    } else if unit == "m"@ {
        if value * 60 <= u64::MAX {
            Ok(value * 60 * 1000)
        } else {
            Err(DurationFault::Overflow)
        }
    } else {
        Err(DurationFault::UnknownUnit)
    }
}

/// The duration that a text stands for, in milliseconds, or why it stands for
/// none: a number that fits in 64 bits, directly followed by its unit.
pub open spec fn duration_value(raw: Seq<char>) -> Result<nat, DurationFault> {
    let split = digit_run(raw) as int;
    let value = crate::text::digits_value(raw.take(split));
    if split == raw.len() {
        Err(DurationFault::MissingUnit)
    } else if split == 0 {
        Err(DurationFault::MissingNumber)
    } else if value > u64::MAX {
        Err(DurationFault::InvalidNumber)
    } else {
        match in_millis(value, raw.skip(split)) {
            Ok(millis) => if millis == 0 {
                Err(DurationFault::Zero)
            } else {
                Ok(millis)
            },
            Err(fault) => Err(fault),
        }
    }
}

/// The number of digits at the start is the only place where the digits end.
proof fn lemma_digit_run(raw: Seq<char>, n: int)
    requires
        0 <= n <= raw.len(),
        forall|i: int| 0 <= i < n ==> crate::text::is_digit(#[trigger] raw[i]),
        n < raw.len() ==> !crate::text::is_digit(raw[n]),
    ensures
        digit_run(raw) == n,
    decreases n,
{
    if n > 0 {
        let rest = raw.skip(1);
        assert forall|i: int| 0 <= i < n - 1 implies crate::text::is_digit(#[trigger] rest[i]) by {
            assert(rest[i] == raw[i + 1]);
        }
        lemma_digit_run(rest, n - 1);
        assert(crate::text::is_digit(raw[0]));
    }
}

/// Counts the digits that `raw` begins with.
fn count_digits(raw: &str) -> (n: usize)
    ensures
        n == digit_run(raw@),
        n <= raw@.len(),
        crate::text::all_digits(raw@.take(n as int)),
{
    let len: usize = raw.unicode_len();
    let mut n: usize = 0;
    while n < len
        invariant
            n <= len,
            len == raw@.len(),
            forall|i: int| 0 <= i < n ==> crate::text::is_digit(#[trigger] raw@[i]),
        decreases len - n,
    {
        let c: char = raw.get_char(n);
        if !('0' <= c && c <= '9') {
            proof {
                lemma_digit_run(raw@, n as int);
            }
            return n;
        }
        n += 1;
    }
    proof {
        lemma_digit_run(raw@, n as int);
    }
    n
}

impl DurationParseError {
    /// The kind of this error.
    pub open spec fn fault(self) -> DurationFault {
        match self {
            DurationParseError::MissingUnit(_) => DurationFault::MissingUnit,
            DurationParseError::MissingNumber(_) => DurationFault::MissingNumber,
            DurationParseError::InvalidNumber(_, _) => DurationFault::InvalidNumber,
            DurationParseError::UnknownUnit { .. } => DurationFault::UnknownUnit,
            DurationParseError::Overflow(_) => DurationFault::Overflow,
            DurationParseError::Zero(_) => DurationFault::Zero,
        }
    }

    /// The text that was rejected.
    pub open spec fn raw(self) -> Seq<char> {
        match self {
            DurationParseError::MissingUnit(raw) => raw@,
            DurationParseError::MissingNumber(raw) => raw@,
            DurationParseError::InvalidNumber(raw, _) => raw@,
            DurationParseError::UnknownUnit { raw, .. } => raw@,
            DurationParseError::Overflow(raw) => raw@,
            DurationParseError::Zero(raw) => raw@,
        }
    }

    /// The unit that is not known, and nothing for the other errors.
    pub open spec fn unit(self) -> Seq<char> {
        match self {
            DurationParseError::UnknownUnit { unit, .. } => unit@,
            _ => seq![],
        }
    }

    /// The message of this error, with `quoted` for the rejected text and
    /// `unit` for the quoted unknown unit.
    pub open spec fn description(self, quoted: Seq<char>, unit: Seq<char>) -> Seq<char> {
        match self {
            DurationParseError::MissingUnit(_) => "duration "@ + quoted
                + " must be a number followed by a unit (ms, s or m)"@,
            DurationParseError::MissingNumber(_) => "duration "@ + quoted
                + " is missing a number"@,
            DurationParseError::InvalidNumber(_, detail) => "duration "@ + quoted
                + " has an invalid number: "@ + detail@,
            DurationParseError::UnknownUnit { .. } => "duration "@ + quoted
                + " has an unknown unit "@ + unit + " (use ms, s or m)"@,
            DurationParseError::Overflow(_) => "duration "@ + quoted + " is too large"@,
            DurationParseError::Zero(_) => "duration "@ + quoted
                + " must be greater than zero (omit the flag for no timeout)"@,
        }
    }

    /// Writes the message of this error around the quoted text and the quoted
    /// unknown unit.
    pub fn describe(&self, quoted: &str, unit: &str) -> (r: String)
        ensures
            r@ == self.description(quoted@, unit@),
    {
        let head = "duration ".to_owned().concat(quoted);
        match self {
            DurationParseError::MissingUnit(_) => head.concat(
                " must be a number followed by a unit (ms, s or m)",
            ),
            DurationParseError::MissingNumber(_) => head.concat(" is missing a number"),
            DurationParseError::InvalidNumber(_, detail) => head.concat(
                " has an invalid number: ",
            ).concat(detail.as_str()),
            DurationParseError::UnknownUnit { .. } => head.concat(" has an unknown unit ").concat(
                unit,
            ).concat(" (use ms, s or m)"),
            DurationParseError::Overflow(_) => head.concat(" is too large"),
            DurationParseError::Zero(_) => head.concat(
                " must be greater than zero (omit the flag for no timeout)",
            ),
        }
    }

    /// The message of this error.
    pub fn to_string(&self) -> (r: String)
        ensures
            r@ == self.description(
                crate::text::quoted(self.raw()),
                crate::text::quoted(self.unit()),
            ),
    {
        let raw: &String = match self {
            DurationParseError::MissingUnit(raw) => raw,
            DurationParseError::MissingNumber(raw) => raw,
            DurationParseError::InvalidNumber(raw, _) => raw,
            DurationParseError::UnknownUnit { raw, .. } => raw,
            DurationParseError::Overflow(raw) => raw,
            DurationParseError::Zero(raw) => raw,
        };
        let unit: String = match self {
            DurationParseError::UnknownUnit { unit, .. } => unit.clone(),
            _ => String::new(),
        };
        self.describe(quote(raw.as_str()).as_str(), quote(unit.as_str()).as_str())
    }
}

/// Parses a duration like `500ms`, `2s` or `1m`. A unit is required,
/// matching grpc-health-probe's Go-style durations;
/// bare numbers are rejected so the time scale is never ambiguous.
/// Zero is rejected because a zero timeout fires instantly -
/// "no timeout" is expressed by omitting the flag.
pub fn parse_duration(raw: &str) -> (r: Result<Span, DurationParseError>)
    ensures
        match r {
            Ok(span) => duration_value(raw@) == Ok::<nat, DurationFault>(span@),
            Err(e) => duration_value(raw@) == Err::<nat, DurationFault>(e.fault()) && e.raw()
                == raw@,
        },
        r matches Err(DurationParseError::InvalidNumber(_, detail)) ==> detail@
            == crate::text::u64_fault(raw@.take(digit_run(raw@) as int)),
        r matches Err(DurationParseError::UnknownUnit { unit, .. }) ==> unit@ == raw@.skip(
            digit_run(raw@) as int,
        ),
{
    let len: usize = raw.unicode_len();
    let split: usize = count_digits(raw);
    if split == len {
        return Err(DurationParseError::MissingUnit(raw.to_owned()));
    }
    if split == 0 {
        return Err(DurationParseError::MissingNumber(raw.to_owned()));
    }
    let number = raw.substring_char(0, split);
    let unit = raw.substring_char(split, len);
    proof {
        assert(number@ == raw@.take(split as int));
        assert(unit@ == raw@.skip(split as int));
        assert(crate::text::is_digit(number@[0]));
        assert(crate::text::unsigned_value(number@) == Some(
            crate::text::digits_value(number@),
        ));
        reveal_strlit("ms");
        reveal_strlit("s");
        reveal_strlit("m");
    }
    let value: u64 = match parse_u64(number) {
        Ok(value) => value,
        Err(detail) => return Err(DurationParseError::InvalidNumber(raw.to_owned(), detail)),
    };
    let span: Span = if same_text(unit, "ms") {
        Span::from_millis(value)
    } else if same_text(unit, "s") {
        Span::from_secs(value)
    } else if same_text(unit, "m") {
        match value.checked_mul(60) {
            Some(secs) => Span::from_secs(secs),
            None => return Err(DurationParseError::Overflow(raw.to_owned())),
        }
    } else {
        return Err(
            DurationParseError::UnknownUnit { raw: raw.to_owned(), unit: unit.to_owned() },
        );
    };
    if span.is_zero() {
        return Err(DurationParseError::Zero(raw.to_owned()));
    }
    Ok(span)
}

/// An accepted duration is never zero, so no timeout fires instantly.
pub proof fn law_durations_are_positive(raw: Seq<char>)
    ensures
        duration_value(raw) matches Ok(millis) ==> millis > 0,
{
}

/// A bare number is never a duration, so the time scale is never ambiguous.
pub proof fn law_bare_numbers_are_rejected(raw: Seq<char>)
    requires
        crate::text::all_digits(raw),
    ensures
        duration_value(raw) == Err::<nat, DurationFault>(DurationFault::MissingUnit),
{
    lemma_digit_run(raw, raw.len() as int);
}

/// A number that fits, written before a unit, stands for that many units.
pub proof fn law_duration_units(n: nat, unit: Seq<char>)
    requires
        0 < n <= u64::MAX,
        unit.len() > 0,
        !crate::text::is_digit(unit[0]),
    ensures
        duration_value(crate::text::decimal(n) + unit) == in_millis(n, unit),
        duration_value(crate::text::decimal(n) + "ms"@) == Ok::<nat, DurationFault>(n),
        duration_value(crate::text::decimal(n) + "s"@) == Ok::<nat, DurationFault>(n * 1000),
        n * 60 <= u64::MAX ==> duration_value(crate::text::decimal(n) + "m"@) == Ok::<
            nat,
            DurationFault,
        >(n * 60000),
        n * 60 > u64::MAX ==> duration_value(crate::text::decimal(n) + "m"@) == Err::<
            nat,
            DurationFault,
        >(DurationFault::Overflow),
{
    reveal_strlit("ms");
    reveal_strlit("s");
    reveal_strlit("m");
    assert("s"@[0] != "m"@[0]);
    lemma_number_before_unit(n, unit);
    lemma_number_before_unit(n, "ms"@);
    lemma_number_before_unit(n, "s"@);
    lemma_number_before_unit(n, "m"@);
}

proof fn lemma_number_before_unit(n: nat, unit: Seq<char>)
    requires
        0 < n <= u64::MAX,
        unit.len() > 0,
        !crate::text::is_digit(unit[0]),
    ensures
        duration_value(crate::text::decimal(n) + unit) == in_millis(n, unit),
{
    let digits = crate::text::decimal(n);
    let raw = digits + unit;
    crate::text::law_decimal_reads_back(n);
    assert forall|i: int| 0 <= i < digits.len() implies crate::text::is_digit(
        #[trigger] raw[i],
    ) by {
        assert(raw[i] == digits[i]);
    }
    assert(raw[digits.len() as int] == unit[0]);
    lemma_digit_run(raw, digits.len() as int);
    assert(raw.take(digits.len() as int) == digits);
    assert(raw.skip(digits.len() as int) == unit);
}

/// Flags go together exactly when there is one target, at most one output
/// format, no CA certificate beside `--tls-no-verify`, and a failure limit of at
/// least 1 only for a watch.
pub proof fn law_flags_that_go_together(cli: Cli)
    ensures
        cli.consistent() ==> (cli.addr is Some) != (cli.port is Some),
        cli.consistent() ==> !(cli.verbose && cli.json) && !(cli.verbose && cli.quiet) && !(cli.json
            && cli.quiet),
        cli.consistent() ==> !(cli.ca_cert is Some && cli.tls_no_verify),
        cli.consistent() ==> (cli.watch_failures matches Some(limit) ==> cli.watch && limit > 0),
        !cli.consistent() ==> (cli.addr is Some && cli.port is Some) || (cli.addr is None
            && cli.port is None) || (cli.verbose && cli.json) || (cli.verbose && cli.quiet) || (
        cli.json && cli.quiet) || (cli.ca_cert is Some && cli.tls_no_verify) || (
        cli.watch_failures is Some && !cli.watch) || cli.watch_failures == Some(0u32),
{
}

/// `--addr` is dialed as it is given; without it `--port` is dialed on localhost.
pub proof fn law_target_of_flags(cli: Cli)
    ensures
        cli.addr matches Some(addr) ==> cli.target_host() == addr.host_text() && cli.target_port()
            == addr.port_number(),
        cli.addr is None ==> cli.target_host() == "localhost"@ && (cli.port matches Some(port)
            ==> cli.target_port() == port),
{
}

/// Which flag wins: not verifying over a CA certificate, that over the system's
/// roots, and plaintext only without any of them; JSON over quiet over verbose.
pub proof fn law_flag_precedence(cli: Cli)
    ensures
        cli.chosen_tls() is NoVerify <==> cli.tls_no_verify,
        cli.chosen_tls() is CustomCa <==> cli.ca_cert is Some && !cli.tls_no_verify,
        cli.chosen_tls() matches TlsMode::CustomCa(path) ==> cli.ca_cert == Some(path),
        cli.chosen_tls() is SystemRoots <==> cli.tls && cli.ca_cert is None && !cli.tls_no_verify,
        cli.chosen_tls() is Disabled <==> !cli.tls && cli.ca_cert is None && !cli.tls_no_verify,
        cli.chosen_format() == OutputFormat::Json <==> cli.json,
        cli.chosen_format() == OutputFormat::Quiet <==> cli.quiet && !cli.json,
        cli.chosen_format() == OutputFormat::Verbose <==> cli.verbose && !cli.quiet && !cli.json,
        cli.chosen_format() == OutputFormat::Default <==> !cli.verbose && !cli.quiet && !cli.json,
{
}

/// A text that begins with no digit has no number.
pub proof fn law_duration_needs_number(raw: Seq<char>)
    requires
        raw.len() > 0,
        !crate::text::is_digit(raw[0]),
    ensures
        duration_value(raw) == Err::<nat, DurationFault>(DurationFault::MissingNumber),
{
}

/// Every other text that is no bare number is digits and a unit. A number beyond
/// 64 bits is refused first, then an unknown unit, minutes whose seconds go
/// beyond 64 bits, and zero; else it is so many milliseconds, seconds or minutes.
pub proof fn law_duration_is_number_and_unit(number: Seq<char>, unit: Seq<char>)
    requires
        number.len() > 0,
        crate::text::all_digits(number),
        unit.len() > 0,
        !crate::text::is_digit(unit[0]),
    ensures
        ({
            let r = duration_value(number + unit);
            let v = crate::text::digits_value(number);
            let known = unit == "ms"@ || unit == "s"@ || unit == "m"@;
            let fits = v <= 0xffff_ffff_ffff_ffff;
            let minutes_fit = unit == "m"@ ==> v * 60 <= 0xffff_ffff_ffff_ffff;
            &&& digit_run(number + unit) == number.len()
            &&& r == Err::<nat, DurationFault>(DurationFault::InvalidNumber) <==> !fits
            &&& r == Err::<nat, DurationFault>(DurationFault::UnknownUnit) <==> fits && !known
            &&& r == Err::<nat, DurationFault>(DurationFault::Overflow) <==> fits && known
                && !minutes_fit
            &&& r == Err::<nat, DurationFault>(DurationFault::Zero) <==> known && v == 0
            &&& r is Ok <==> fits && known && minutes_fit && v > 0
            &&& r matches Ok(millis) ==> (unit == "ms"@ ==> millis == v) && (unit == "s"@
                ==> millis == v * 1000) && (unit == "m"@ ==> millis == v * 60000)
        }),
{
    reveal_strlit("ms");
    reveal_strlit("s");
    reveal_strlit("m");
    assert("s"@[0] != "m"@[0]);
    assert("ms"@.len() != "m"@.len());
    assert("ms"@.len() != "s"@.len());
    let raw = number + unit;
    assert forall|i: int| 0 <= i < number.len() implies crate::text::is_digit(
        #[trigger] raw[i],
    ) by {
        assert(raw[i] == number[i]);
    }
    assert(raw[number.len() as int] == unit[0]);
    lemma_digit_run(raw, number.len() as int);
    assert(raw.take(number.len() as int) == number);
    assert(raw.skip(number.len() as int) == unit);
}

/// The digits at the start of a text end where the first other character is, or
/// the text ends.
pub proof fn law_digit_run(raw: Seq<char>)
    ensures
        digit_run(raw) <= raw.len(),
        forall|i: int| 0 <= i < digit_run(raw) ==> crate::text::is_digit(#[trigger] raw[i]),
        digit_run(raw) < raw.len() ==> !crate::text::is_digit(raw[digit_run(raw) as int]),
    decreases raw.len(),
{
    if raw.len() > 0 && crate::text::is_digit(raw[0]) {
        let rest = raw.skip(1);
        law_digit_run(rest);
        assert forall|i: int| 0 <= i < digit_run(raw) implies crate::text::is_digit(
            #[trigger] raw[i],
        ) by {
            if i > 0 {
                assert(raw[i] == rest[i - 1]);
            }
        }
    }
}

/// An error is of the kind of its variant, holds the text that it was given, and
/// its message quotes that and says what is wrong with it.
pub proof fn law_duration_errors(err: DurationParseError, quoted: Seq<char>, quoted_unit: Seq<char>)
    ensures
        match err {
            DurationParseError::MissingUnit(text) => err.fault() == DurationFault::MissingUnit
                && err.raw() == text@ && err.description(quoted, quoted_unit) == "duration "@
                + quoted + " must be a number followed by a unit (ms, s or m)"@,
            DurationParseError::MissingNumber(text) => err.fault() == DurationFault::MissingNumber
                && err.raw() == text@ && err.description(quoted, quoted_unit) == "duration "@
                + quoted + " is missing a number"@,
            DurationParseError::InvalidNumber(text, detail) => err.fault()
                == DurationFault::InvalidNumber && err.raw() == text@ && err.description(
                quoted,
                quoted_unit,
            ) == "duration "@ + quoted + " has an invalid number: "@ + detail@,
            DurationParseError::UnknownUnit { raw, unit } => err.fault()
                == DurationFault::UnknownUnit && err.raw() == raw@ && err.unit() == unit@
                && err.description(quoted, quoted_unit) == "duration "@ + quoted
                + " has an unknown unit "@ + quoted_unit + " (use ms, s or m)"@,
            DurationParseError::Overflow(text) => err.fault() == DurationFault::Overflow
                && err.raw() == text@ && err.description(quoted, quoted_unit) == "duration "@
                + quoted + " is too large"@,
            DurationParseError::Zero(text) => err.fault() == DurationFault::Zero && err.raw()
                == text@ && err.description(quoted, quoted_unit) == "duration "@ + quoted
                + " must be greater than zero (omit the flag for no timeout)"@,
        },
{
}

} // verus!
