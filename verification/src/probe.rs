//! Dialing the target and calling the Health service: what to dial and ask,
//! what each answer means, and when to try again.

use tonic::metadata::MetadataMap;
use tonic::transport::Endpoint;
use vstd::prelude::*;
use vstd::string::StringExecFns;

use crate::endpoint::Target;
use crate::metadata::apply_metadata;
use crate::metadata::metadata_fits;
use crate::metadata::MetaPair;
use crate::metadata::MAX_HEADER_NAMES;
use crate::span::Span;
use crate::status::decode_status;
use crate::status::ServingStatus;
use crate::tls::configure;
use crate::tls::TlsError;
use crate::tls::TlsErrorView;
use crate::tls::TlsMode;
use crate::tls::TlsSetup;

verus! {

/// Fixed pause between retry attempts, in seconds. Kept constant so `--retry`
/// behaviour is predictable rather than a backoff curve the caller has to
/// reason about.
pub const RETRY_DELAY_SECS: u64 = 1;

/// Everything the transport needs to probe a target,
/// assembled once from the CLI. Keeps `probe` independent of the argument parser.
#[derive(Debug)]
pub struct ProbeParams {
    pub target: Target,
    pub tls_mode: TlsMode,
    pub services: Vec<String>,
    pub metadata: Vec<MetaPair>,
    pub retry: u32,
    pub connect_timeout: Option<Span>,
    pub timeout: Option<Span>,
    pub watch_failures: Option<u32>,
}

/// A failed probe, with the reason that the transport or the rpc gave.
#[derive(Debug)]
pub enum ProbeError {
    /// The connection could not be established.
    Transport(String),
    /// The rpc itself failed.
    Rpc(String),
    /// TLS could not be set up.
    Tls(TlsError),
    /// The connection took too long.
    ConnectTimeout,
    /// The request took too long.
    RequestTimeout,
}

/// What a [`ProbeError`] says.
pub enum ProbeErrorView {
    Transport(Seq<char>),
    Rpc(Seq<char>),
    Tls(TlsErrorView),
    ConnectTimeout,
    RequestTimeout,
}

impl View for ProbeError {
    type V = ProbeErrorView;

    open spec fn view(&self) -> ProbeErrorView {
        match *self {
            ProbeError::Transport(reason) => ProbeErrorView::Transport(reason@),
            ProbeError::Rpc(reason) => ProbeErrorView::Rpc(reason@),
            ProbeError::Tls(err) => ProbeErrorView::Tls(err@),
            ProbeError::ConnectTimeout => ProbeErrorView::ConnectTimeout,
            ProbeError::RequestTimeout => ProbeErrorView::RequestTimeout,
        }
    }
}

impl ProbeErrorView {
    /// The exit code of this error.
    pub open spec fn code(self) -> u8 {
        match self {
            ProbeErrorView::Transport(_) => 1,
            ProbeErrorView::Rpc(_) => 2,
            ProbeErrorView::Tls(_) => 1,
            ProbeErrorView::ConnectTimeout => 4,
            ProbeErrorView::RequestTimeout => 4,
        }
    }

    /// The message of this error.
    pub open spec fn message(self) -> Seq<char> {
        match self {
            ProbeErrorView::Transport(reason) => "connection failed: "@ + reason,
            ProbeErrorView::Rpc(reason) => "rpc error: "@ + reason,
            ProbeErrorView::Tls(err) => err.message(),
            ProbeErrorView::ConnectTimeout => "connection timed out"@,
            ProbeErrorView::RequestTimeout => "request timed out"@,
        }
    }

    /// Whether a connect failure is worth retrying: the connection was not
    /// established, or not in time.
    pub open spec fn transient(self) -> bool {
        self is Transport || self is ConnectTimeout
    }
}

impl ProbeError {
    /// Exit code for a failed probe.
    pub fn exit_code(&self) -> (r: u8)
        ensures
            r == self@.code(),
    {
        match self {
            ProbeError::Transport(_) => 1,
            ProbeError::Rpc(_) => 2,
            ProbeError::Tls(_) => 1,
            ProbeError::ConnectTimeout | ProbeError::RequestTimeout => 4,
        }
    }

    /// The message of this error.
    pub fn to_string(&self) -> (r: String)
        ensures
            r@ == self@.message(),
    {
        match self {
            ProbeError::Transport(reason) => "connection failed: ".to_owned().concat(
                reason.as_str(),
            ),
            ProbeError::Rpc(reason) => "rpc error: ".to_owned().concat(reason.as_str()),
            ProbeError::Tls(err) => err.to_string(),
            ProbeError::ConnectTimeout => "connection timed out".to_owned(),
            ProbeError::RequestTimeout => "request timed out".to_owned(),
        }
    }
}

/// Whether a connect failure is worth retrying.
/// A refused/reset connection or a connect timeout is transient
/// (the server may still be coming up); a TLS setup failure or an rpc error is
/// deterministic. A failed TLS handshake is reported as a failed connection
/// and is retried with those.
pub fn is_retryable(err: &ProbeError) -> (r: bool)
    ensures
        r == err@.transient(),
{
    matches!(err, ProbeError::Transport(_) | ProbeError::ConnectTimeout)
}

/// The retries left after a failure, or `None` where the failure is final.
pub open spec fn retries_after(left: nat, err: ProbeErrorView) -> Option<nat> {
    if left > 0 && err.transient() {
        Some((left - 1) as nat)
    } else {
        None
    }
}

/// The retry policy of one connection: how many retries are left, and how long
/// to pause before each.
#[derive(Debug)]
pub struct Retry {
    remaining: u32,
    delay: Span,
}

impl Retry {
    /// How many retries are left.
    pub closed spec fn left(self) -> nat {
        self.remaining as nat
    }

    /// The pause before each retry, in milliseconds.
    pub closed spec fn pause(self) -> nat {
        self.delay@
    }

    /// A policy of up to `retries` retries, `delay` apart.
    pub fn new(retries: u32, delay: Span) -> (r: Retry)
        ensures
            r.left() == retries,
            r.pause() == delay@,
    {
        Retry { remaining: retries, delay }
    }

    /// Decides what follows a failed attempt: a retry after the returned pause,
    /// or, with `None`, giving up with the failure.
    pub fn after_failure(&mut self, err: &ProbeError) -> (r: Option<Span>)
        ensures
            match retries_after(old(self).left(), err@) {
                Some(left) => r is Some && r->Some_0@ == old(self).pause() && final(self).left()
                    == left,
                None => r is None && final(self).left() == old(self).left(),
            },
            final(self).pause() == old(self).pause(),
    {
        if self.remaining > 0 && is_retryable(err) {
            self.remaining = self.remaining - 1;
            Some(self.delay)
        } else {
            None
        }
    }
}

/// The retries left after a whole series of failed attempts, or `None` where
/// one of them was final.
pub open spec fn retries_after_all(retries: nat, failures: Seq<ProbeErrorView>) -> Option<nat>
    decreases failures.len(),
{
    if failures.len() == 0 {
        Some(retries)
    } else {
        match retries_after_all(retries, failures.drop_last()) {
            Some(left) => retries_after(left, failures.last()),
            None => None,
        }
    }
}

/// After a series of failed attempts another one is made exactly when all the
/// failures are transient and there were at most `retries` of them. So there
/// are never more than `retries + 1` attempts, and a deterministic failure is
/// not retried at all.
pub proof fn law_retry_limit(retries: nat, failures: Seq<ProbeErrorView>)
    ensures
        retries_after_all(retries, failures) is Some <==> failures.len() <= retries && (forall|
            i: int,
        |
            0 <= i < failures.len() ==> (#[trigger] failures[i]).transient()),
        retries_after_all(retries, failures) matches Some(left) ==> left == retries
            - failures.len(),
    decreases failures.len(),
{
    if failures.len() > 0 {
        let front = failures.drop_last();
        law_retry_limit(retries, front);
        if forall|i: int| 0 <= i < failures.len() ==> (#[trigger] failures[i]).transient() {
            assert forall|i: int| 0 <= i < front.len() implies (#[trigger] front[i]).transient() by {
                assert(failures[i].transient());
            }
        }
        if retries_after_all(retries, failures) is Some {
            assert forall|i: int| 0 <= i < failures.len() implies (
            #[trigger] failures[i]).transient() by {
                if i < front.len() {
                    assert(front[i].transient());
                }
            }
        }
    }
}

/// Whether `tonic::transport::Endpoint::from_shared` takes a text for a URI.
pub uninterp spec fn uri_accepted(uri: Seq<char>) -> bool;

/// Calls `tonic::transport::Endpoint::from_shared` and keeps only whether it
/// took the URI, which `uri_accepted` names; its error has a fixed message.
#[verifier::external_body]
fn check_uri(uri: &str) -> (r: Result<(), String>)
    ensures
        r is Ok <==> uri_accepted(uri@),
        r matches Err(e) ==> e@ == "invalid URI"@,
{
    Endpoint::from_shared(uri.to_string()).map(|_endpoint| ()).map_err(|e| e.to_string())
}

/// How to dial a target.
#[derive(Debug)]
pub struct DialPlan {
    /// The URI to dial.
    pub uri: String,
    /// What to set the channel up with.
    pub tls: TlsSetup,
    /// How long establishing the connection may take.
    pub limit: Option<Span>,
}

/// How to call the Health service.
#[derive(Debug)]
pub struct RequestPlan {
    /// The service to ask for; empty for overall health.
    pub service: String,
    /// The headers of the request.
    pub headers: MetadataMap,
    /// How long the request may take.
    pub limit: Option<Span>,
}

/// The outcome of waiting for an operation, with or without a time limit.
pub enum Waited<T> {
    /// The time limit passed first.
    Elapsed,
    /// The operation finished.
    Done(T),
}

/// What a finished wait for a connection means. A connect timeout maps to its
/// own error so it exits 4, not 1.
pub fn connect_result<T>(waited: Waited<Result<T, String>>) -> (r: Result<T, ProbeError>)
    ensures
        match waited {
            Waited::Elapsed => r == Err::<T, ProbeError>(ProbeError::ConnectTimeout),
            Waited::Done(Err(reason)) => r == Err::<T, ProbeError>(ProbeError::Transport(reason)),
            Waited::Done(Ok(channel)) => r == Ok::<T, ProbeError>(channel),
        },
{
    match waited {
        Waited::Elapsed => Err(ProbeError::ConnectTimeout),
        Waited::Done(Err(reason)) => Err(ProbeError::Transport(reason)),
        Waited::Done(Ok(channel)) => Ok(channel),
    }
}

/// What reading the CA certificate file at `path` gave: its contents, or the TLS
/// failure that names the file and the reason.
pub fn ca_result<T>(path: String, read: Result<T, String>) -> (r: Result<T, ProbeError>)
    ensures
        match read {
            Ok(contents) => r == Ok::<T, ProbeError>(contents),
            Err(source) => r == Err::<T, ProbeError>(
                ProbeError::Tls(TlsError::ReadCa { path, source }),
            ),
        },
{
    match read {
        Ok(contents) => Ok(contents),
        Err(source) => Err(ProbeError::Tls(TlsError::ReadCa { path, source })),
    }
}

/// What applying a TLS setup to the channel gave: the channel, or the TLS
/// failure with the reason for which the setup was refused.
pub fn setup_result<T>(applied: Result<T, String>) -> (r: Result<T, ProbeError>)
    ensures
        match applied {
            Ok(channel) => r == Ok::<T, ProbeError>(channel),
            Err(reason) => r == Err::<T, ProbeError>(ProbeError::Tls(TlsError::Config(reason))),
        },
{
    match applied {
        Ok(channel) => Ok(channel),
        Err(reason) => Err(ProbeError::Tls(TlsError::Config(reason))),
    }
}

/// What a finished wait for a call of the Health service means. A request
/// timeout maps to its own error so it exits 4, not 2.
pub fn request_result<T>(waited: Waited<Result<T, String>>) -> (r: Result<T, ProbeError>)
    ensures
        match waited {
            Waited::Elapsed => r == Err::<T, ProbeError>(ProbeError::RequestTimeout),
            Waited::Done(Err(reason)) => r == Err::<T, ProbeError>(ProbeError::Rpc(reason)),
            Waited::Done(Ok(reply)) => r == Ok::<T, ProbeError>(reply),
        },
{
    match waited {
        Waited::Elapsed => Err(ProbeError::RequestTimeout),
        Waited::Done(Err(reason)) => Err(ProbeError::Rpc(reason)),
        Waited::Done(Ok(reply)) => Ok(reply),
    }
}

/// The result of a `grpc.health.v1.Health/Check` call that was answered with a
/// wire status code, failed or took too long.
pub fn check_result(waited: Waited<Result<i32, String>>) -> (r: Result<ServingStatus, ProbeError>)
    ensures
        match waited {
            Waited::Elapsed => r == Err::<ServingStatus, ProbeError>(ProbeError::RequestTimeout),
            Waited::Done(Err(reason)) => r == Err::<ServingStatus, ProbeError>(
                ProbeError::Rpc(reason),
            ),
            Waited::Done(Ok(raw)) => r == Ok::<ServingStatus, ProbeError>(
                crate::status::decoded(raw),
            ),
        },
{
    match request_result(waited) {
        Ok(raw) => Ok(decode_status(raw)),
        Err(err) => Err(err),
    }
}

/// Maps the empty (overall-health) service name to nothing.
pub open spec fn service_named(service: Seq<char>) -> Option<Seq<char>> {
    if service.len() == 0 {
        None
    } else {
        Some(service)
    }
}

/// Maps the empty (overall-health) service name to None for reporting.
pub fn nonempty(service: String) -> (r: Option<String>)
    ensures
        crate::text::opt_text(r) == service_named(service@),
{
    if service.as_str().is_empty() {
        None
    } else {
        Some(service)
    }
}

/// The service names to ask for: those given, or the empty name for overall
/// health where none is given.
pub open spec fn services_to_check(given: Seq<Seq<char>>) -> Seq<Seq<char>> {
    if given.len() == 0 {
        seq![Seq::<char>::empty()]
    } else {
        given
    }
}

/// What is said about metadata that is not protected on its way.
pub open spec fn warning_text(mode: TlsMode, pairs: nat) -> Option<Seq<char>> {
    if pairs == 0 || mode.protects() {
        None
    } else if mode is NoVerify {
        Some("warning: metadata is sent over an unverified TLS connection; drop --tls-no-verify"@)
    } else {
        Some("warning: metadata is sent over an unencrypted connection; add --tls"@)
    }
}

impl ProbeParams {
    /// The URI of the target.
    pub open spec fn uri(self) -> Seq<char> {
        crate::endpoint::dial_uri(
            self.target.host_text(),
            self.target.port_number(),
            self.tls_mode.enabled(),
        )
    }

    /// Whether `plan` dials this target as these parameters ask.
    pub open spec fn dialed_by(self, plan: DialPlan) -> bool {
        &&& plan.uri@ == self.uri()
        &&& plan.tls.serves(self.tls_mode, self.target.host_text())
        &&& plan.limit == self.connect_timeout
    }

    /// Whether `plan` asks for `service` as these parameters ask: with all the
    /// metadata attached, and within the request timeout.
    pub open spec fn asked_by(self, plan: RequestPlan, service: Seq<char>) -> bool {
        &&& plan.service@ == service
        &&& crate::metadata::header_entries(plan.headers) == crate::metadata::headers_of(
            crate::metadata::pairs_view(self.metadata@),
        )
        &&& plan.limit == self.timeout
    }

    /// Services to check, one Health request each. An empty list means
    /// a single overall-health probe (empty service name), matching the no-flag default.
    pub fn service_list(&self) -> (r: Vec<String>)
        ensures
            crate::text::texts(r@) == services_to_check(crate::text::texts(self.services@)),
    {
        if self.services.is_empty() {
            let mut r: Vec<String> = Vec::new();
            r.push(String::new());
            assert(crate::text::texts(r@) == seq![Seq::<char>::empty()]);
            r
        } else {
            let r = self.services.clone();
            assert(crate::text::texts(r@) == crate::text::texts(self.services@));
            r
        }
    }

    /// The single service a `--watch` stream follows; empty means overall health.
    pub fn watch_service(&self) -> (r: String)
        ensures
            r@ == services_to_check(crate::text::texts(self.services@))[0],
    {
        if self.services.is_empty() {
            String::new()
        } else {
            self.services[0].clone()
        }
    }

    /// Whether a request can carry all the metadata: whether its different
    /// header names are within the limit.
    pub fn headers_fit(&self) -> (r: bool)
        ensures
            r == (crate::metadata::header_names(
                crate::metadata::pairs_view(self.metadata@),
            ).len() <= MAX_HEADER_NAMES),
    {
        assert(crate::metadata::names_after(
            crate::metadata::no_headers(),
            crate::metadata::pairs_view(self.metadata@),
        ) =~= crate::metadata::header_names(crate::metadata::pairs_view(self.metadata@)));
        metadata_fits(&MetadataMap::new(), &self.metadata)
    }

    /// The `Check` request for one service.
    pub fn check_plan(&self, service: &str) -> (r: RequestPlan)
        requires
            crate::metadata::header_names(crate::metadata::pairs_view(self.metadata@)).len()
                <= MAX_HEADER_NAMES,
        ensures
            self.asked_by(r, service@),
    {
        let mut headers = MetadataMap::new();
        assert(crate::metadata::names_after(
            crate::metadata::no_headers(),
            crate::metadata::pairs_view(self.metadata@),
        ) =~= crate::metadata::header_names(crate::metadata::pairs_view(self.metadata@)));
        apply_metadata(&mut headers, &self.metadata);
        RequestPlan { service: service.to_owned(), headers, limit: self.timeout }
    }

    /// The request that opens the `Watch` stream. The timeout bounds opening the
    /// stream, not its lifetime.
    pub fn watch_plan(&self) -> (r: RequestPlan)
        requires
            crate::metadata::header_names(crate::metadata::pairs_view(self.metadata@)).len()
                <= MAX_HEADER_NAMES,
        ensures
            self.asked_by(r, services_to_check(crate::text::texts(self.services@))[0]),
    {
        self.check_plan(self.watch_service().as_str())
    }

    /// The retry policy for connecting. Only connection establishment is retried;
    /// once the channel is up, per-service calls are reported as they come.
    pub fn connect_retry(&self) -> (r: Retry)
        ensures
            r.left() == self.retry,
            r.pause() == RETRY_DELAY_SECS * 1000,
    {
        Retry::new(self.retry, Span::from_secs(RETRY_DELAY_SECS))
    }

    /// How to dial the target, given whether its URI was accepted.
    pub fn plan_for(&self, checked: Result<(), String>) -> (r: Result<DialPlan, ProbeError>)
        ensures
            match checked {
                Ok(_) => r is Ok && self.dialed_by(r->Ok_0),
                Err(reason) => r == Err::<DialPlan, ProbeError>(ProbeError::Transport(reason)),
            },
    {
        match checked {
            Ok(_) => Ok(
                DialPlan {
                    uri: self.target.uri(self.tls_mode.is_enabled()),
                    tls: configure(&self.tls_mode, self.target.host()),
                    limit: self.connect_timeout,
                },
            ),
            Err(reason) => Err(ProbeError::Transport(reason)),
        }
    }

    /// How to dial the target, or the connection failure where its URI cannot
    /// be dialed.
    pub fn dial_plan(&self) -> (r: Result<DialPlan, ProbeError>)
        ensures
            r is Ok <==> uri_accepted(self.uri()),
            match r {
                Ok(plan) => self.dialed_by(plan),
                Err(e) => e matches ProbeError::Transport(reason) && reason@ == "invalid URI"@,
            },
    {
        self.plan_for(check_uri(self.target.uri(self.tls_mode.is_enabled()).as_str()))
    }

    /// Metadata commonly carries credentials: the warning to print when it
    /// would travel in the clear or to a server that nobody verified.
    pub fn metadata_warning(&self) -> (r: Option<&'static str>)
        ensures
            match r {
                Some(text) => warning_text(self.tls_mode, self.metadata@.len()) == Some(text@),
                None => warning_text(self.tls_mode, self.metadata@.len()) is None,
            },
    {
        if self.metadata.is_empty() {
            return None;
        }
        match &self.tls_mode {
            TlsMode::Disabled => Some(
                "warning: metadata is sent over an unencrypted connection; add --tls",
            ),
            TlsMode::NoVerify => Some(
                "warning: metadata is sent over an unverified TLS connection; drop --tls-no-verify",
            ),
            TlsMode::SystemRoots | TlsMode::CustomCa(_) => None,
        }
    }
}

/// A probe always asks for some service, and a watch follows the first of the
/// services that a check would ask for.
pub proof fn law_some_service_is_asked_for(given: Seq<Seq<char>>)
    ensures
        services_to_check(given).len() >= 1,
        services_to_check(given).len() == 1 <==> given.len() <= 1,
        given.len() > 0 ==> services_to_check(given) == given,
        given.len() == 0 ==> service_named(services_to_check(given)[0]) is None,
{
}

/// Every request carries the same headers, and each header has all the values
/// that were given for its name, in their order.
pub proof fn law_every_request_carries_metadata(
    params: ProbeParams,
    plan: RequestPlan,
    service: Seq<char>,
    name: Seq<char>,
)
    requires
        params.asked_by(plan, service),
    ensures
        crate::metadata::values_of(crate::metadata::header_entries(plan.headers), name)
            == crate::metadata::values_given(
            crate::metadata::pairs_view(params.metadata@),
            name,
        ),
{
    crate::metadata::law_metadata_is_appended(
        crate::metadata::no_headers(),
        crate::metadata::pairs_view(params.metadata@),
        name,
    );
}

/// A warning is due exactly when there is metadata and the connection is
/// plaintext or its certificate is not verified.
pub proof fn law_warning_when_unprotected(mode: TlsMode, pairs: nat)
    ensures
        warning_text(mode, pairs) is Some <==> pairs > 0 && (mode is Disabled || mode is NoVerify),
{
}

/// Setting up TLS fails as a failed connection does, but for good: the exit code
/// is the same, and there is no retry, however many are left.
pub proof fn law_tls_setup_is_not_retried(err: TlsErrorView, left: nat)
    ensures
        ProbeErrorView::Tls(err).code() == 1,
        retries_after(left, ProbeErrorView::Tls(err)) is None,
{
}

/// Every failure has one of the exit codes for failures, and a timeout has its
/// own.
pub proof fn law_failure_codes(err: ProbeErrorView)
    ensures
        err.code() == 1 || err.code() == 2 || err.code() == 4,
        err.code() == 4 <==> err is ConnectTimeout || err is RequestTimeout,
        err.code() == 2 <==> err is Rpc,
        err.code() == 1 <==> err is Transport || err is Tls,
{
}

/// What a failure says and how it ends: the reason that was given behind the
/// words for its kind, and the exit code of its kind.
pub proof fn law_failures_tell_their_reason(err: ProbeError)
    ensures
        match err {
            ProbeError::Transport(reason) => err@.message() == "connection failed: "@ + reason@
                && err@.code() == 1,
            ProbeError::Rpc(reason) => err@.message() == "rpc error: "@ + reason@ && err@.code()
                == 2,
            ProbeError::Tls(TlsError::ReadCa { path, source }) => err@.message()
                == "failed to read CA certificate "@ + path@ + ": "@ + source@ && err@.code() == 1,
            ProbeError::Tls(TlsError::Config(reason)) => err@.message()
                == "TLS configuration failed: "@ + reason@ && err@.code() == 1,
            ProbeError::ConnectTimeout => err@.message() == "connection timed out"@ && err@.code()
                == 4,
            ProbeError::RequestTimeout => err@.message() == "request timed out"@ && err@.code()
                == 4,
        },
{
}

/// A failure is worth a retry exactly when the connection was not established or
/// not in time, and a retry uses up one of those left, one second later.
pub proof fn law_only_connecting_is_retried(err: ProbeError, left: nat)
    ensures
        err@.transient() <==> err is Transport || err is ConnectTimeout,
        retries_after(left, err@) is Some <==> left > 0 && (err is Transport
            || err is ConnectTimeout),
        retries_after(left, err@) matches Some(rest) ==> rest + 1 == left,
        RETRY_DELAY_SECS == 1,
{
}

/// A plan dials what the flags say: the scheme by the TLS mode, the host and the
/// port of the target, and the TLS setup of the mode for that host. The time to
/// connect is limited by the connect timeout that was given, in every TLS mode,
/// and is without limit only where none was given.
pub proof fn law_dial_plan_follows_flags(params: ProbeParams, plan: DialPlan)
    requires
        params.dialed_by(plan),
    ensures
        plan.limit == params.connect_timeout,
        plan.limit is None <==> params.connect_timeout is None,
        plan.uri@ == (if params.tls_mode is Disabled {
            "http://"@
        } else {
            "https://"@
        }) + crate::endpoint::authority(params.target.host_text(), params.target.port_number()),
        plan.uri@ == params.uri(),
        params.tls_mode is Disabled <==> plan.tls is Plaintext,
        params.tls_mode is SystemRoots ==> (plan.tls matches TlsSetup::SystemRoots { domain }
            && domain@ == params.target.host_text()),
        params.tls_mode matches TlsMode::CustomCa(file) ==> (plan.tls matches TlsSetup::CustomCa {
            path,
            domain,
        } && path == file && domain@ == params.target.host_text()),
        params.tls_mode is NoVerify ==> (plan.tls matches TlsSetup::AcceptAny { domain } && domain@
            == params.target.host_text()),
{
}

/// Plans for the same target that differ only in the TLS mode have the same
/// limit, and plans that differ only in the connect timeout dial alike.
pub proof fn law_dial_plans_compare(
    params: ProbeParams,
    other: ProbeParams,
    plan: DialPlan,
    other_plan: DialPlan,
)
    requires
        params.dialed_by(plan),
        other.dialed_by(other_plan),
    ensures
        params.connect_timeout == other.connect_timeout <==> plan.limit == other_plan.limit,
        params.target == other.target && params.tls_mode == other.tls_mode ==> plan.uri@
            == other_plan.uri@,
{
}

/// A request asks for the service it is made for, by its whole name, and may
/// take as long as the request timeout says, whatever the other flags; it is
/// without limit only where none was given.
pub proof fn law_request_plan_follows_flags(
    params: ProbeParams,
    plan: RequestPlan,
    service: Seq<char>,
)
    requires
        params.asked_by(plan, service),
    ensures
        plan.service@ == service,
        plan.limit == params.timeout,
        plan.limit is None <==> params.timeout is None,
        crate::metadata::header_entries(plan.headers) == crate::metadata::headers_after(
            Map::empty(),
            crate::metadata::pairs_view(params.metadata@),
        ),
{
}

/// Overall health is the empty name, which is asked for where no service is
/// given, and it is the only one that is reported without a name.
pub proof fn law_overall_health_has_no_name(service: Seq<char>, given: Seq<Seq<char>>)
    ensures
        service_named(service) is None <==> service.len() == 0,
        service.len() > 0 ==> service_named(service) == Some(service),
        given.len() == 0 ==> services_to_check(given).len() == 1 && services_to_check(
            given,
        )[0].len() == 0,
        given.len() > 0 ==> services_to_check(given) == given,
{
}

/// The warning says what is wrong with the connection: that it is plaintext, or
/// that nobody verified the server.
pub proof fn law_warning_names_the_cause(mode: TlsMode, pairs: nat)
    ensures
        pairs > 0 && mode is Disabled ==> warning_text(mode, pairs) == Some(
            "warning: metadata is sent over an unencrypted connection; add --tls"@,
        ),
        pairs > 0 && mode is NoVerify ==> warning_text(mode, pairs) == Some(
            "warning: metadata is sent over an unverified TLS connection; drop --tls-no-verify"@,
        ),
        pairs == 0 || mode is SystemRoots || mode is CustomCa ==> warning_text(mode, pairs) is None,
{
}

} // verus!
