//! TLS configuration: what the `--tls` / `--ca-cert` / `--tls-no-verify` flags
//! ask of the channel.

use std::path::PathBuf;
use vstd::prelude::*;
use vstd::string::StringExecFns;

verus! {

/// `std::path::PathBuf`: a path on disk, carried as it was given.
#[verifier::external_type_specification]
#[verifier::external_body]
pub struct ExPathBuf(PathBuf);

/// `PathBuf::clone`: a copy of the path is the same path.
pub assume_specification[ <PathBuf as Clone>::clone ](p: &PathBuf) -> (r: PathBuf)
    ensures
        r == *p,
;

/// How the channel should be secured, derived from the TLS flags.
#[derive(Debug, PartialEq, Eq)]
pub enum TlsMode {
    /// Plaintext `http://`; TLS is off.
    Disabled,
    /// TLS with the platform's trusted roots.
    SystemRoots,
    /// TLS verifying the server against a private CA from a PEM file.
    CustomCa(PathBuf),
    /// TLS with certificate verification disabled (debugging only).
    NoVerify,
}

impl Clone for TlsMode {
    fn clone(&self) -> (r: Self)
        ensures
            r == *self,
    {
        match self {
            TlsMode::Disabled => TlsMode::Disabled,
            TlsMode::SystemRoots => TlsMode::SystemRoots,
            TlsMode::CustomCa(path) => TlsMode::CustomCa(path.clone()),
            TlsMode::NoVerify => TlsMode::NoVerify,
        }
    }
}

impl TlsMode {
    /// Whether TLS is on.
    pub open spec fn enabled(self) -> bool {
        !(self is Disabled)
    }

    /// Whether TLS is on; drives the `https` scheme.
    pub fn is_enabled(&self) -> (r: bool)
        ensures
            r == self.enabled(),
    {
        !matches!(self, TlsMode::Disabled)
    }

    /// Whether what is sent is protected on its way: the channel is encrypted
    /// and the server's certificate is verified.
    pub open spec fn protects(self) -> bool {
        self is SystemRoots || self is CustomCa
    }
}

/// A TLS setup failure: reading the CA file or applying the config to the channel.
#[derive(Debug)]
pub enum TlsError {
    /// The CA file could not be read; holds the path and the reason.
    ReadCa { path: String, source: String },
    /// The channel refused the configuration; holds the reason.
    Config(String),
}

/// What a [`TlsError`] says.
pub enum TlsErrorView {
    ReadCa { path: Seq<char>, source: Seq<char> },
    Config(Seq<char>),
}

impl View for TlsError {
    type V = TlsErrorView;

    open spec fn view(&self) -> TlsErrorView {
        match *self {
            TlsError::ReadCa { path, source } => TlsErrorView::ReadCa {
                path: path@,
                source: source@,
            },
            TlsError::Config(reason) => TlsErrorView::Config(reason@),
        }
    }
}

impl TlsErrorView {
    /// The message of this error.
    pub open spec fn message(self) -> Seq<char> {
        match self {
            TlsErrorView::ReadCa { path, source } => "failed to read CA certificate "@ + path
                + ": "@ + source,
            TlsErrorView::Config(reason) => "TLS configuration failed: "@ + reason,
        }
    }
}

impl TlsError {
    /// The message of this error.
    pub fn to_string(&self) -> (r: String)
        ensures
            r@ == self@.message(),
    {
        match self {
            TlsError::ReadCa { path, source } => "failed to read CA certificate ".to_owned().concat(
                path.as_str(),
            ).concat(": ").concat(source.as_str()),
            TlsError::Config(reason) => "TLS configuration failed: ".to_owned().concat(
                reason.as_str(),
            ),
        }
    }
}

/// What the channel is to be set up with. `domain` is the SNI/authority name.
#[derive(Debug)]
pub enum TlsSetup {
    /// No TLS.
    Plaintext,
    /// Verify the server for `domain` against the platform's trusted roots.
    SystemRoots { domain: String },
    /// Verify the server for `domain` against the CA certificate in the file at `path`.
    CustomCa { path: PathBuf, domain: String },
    /// Name `domain` to the server and accept any certificate.
    AcceptAny { domain: String },
}

impl TlsSetup {
    /// Whether this is the setup that `mode` asks for, for `host`.
    pub open spec fn serves(self, mode: TlsMode, host: Seq<char>) -> bool {
        match mode {
            TlsMode::Disabled => self is Plaintext,
            TlsMode::SystemRoots => self matches TlsSetup::SystemRoots { domain } && domain@ == host,
            TlsMode::CustomCa(file) => self matches TlsSetup::CustomCa { path, domain } && path
                == file && domain@ == host,
            TlsMode::NoVerify => self matches TlsSetup::AcceptAny { domain } && domain@ == host,
        }
    }
}

/// Chooses the TLS setup for a mode. `host` is the SNI/authority name.
pub fn configure(mode: &TlsMode, host: &str) -> (r: TlsSetup)
    ensures
        r.serves(*mode, host@),
{
    match mode {
        TlsMode::Disabled => TlsSetup::Plaintext,
        TlsMode::SystemRoots => TlsSetup::SystemRoots { domain: host.to_owned() },
        TlsMode::CustomCa(path) => TlsSetup::CustomCa {
            path: path.clone(),
            domain: host.to_owned(),
        },
        TlsMode::NoVerify => TlsSetup::AcceptAny { domain: host.to_owned() },
    }
}

/// TLS is on in every mode but the plaintext one, and what is sent is protected
/// exactly where the certificate is verified.
pub proof fn law_tls_modes(mode: TlsMode)
    ensures
        mode.enabled() <==> mode is SystemRoots || mode is CustomCa || mode is NoVerify,
        mode.protects() <==> mode is SystemRoots || mode is CustomCa,
{
}

/// A setup does what its mode says: no TLS only in plaintext mode, the system's
/// roots, the CA file that was given, or any certificate; with TLS it names the
/// host, whole.
pub proof fn law_setup_follows_mode(setup: TlsSetup, mode: TlsMode, host: Seq<char>)
    requires
        setup.serves(mode, host),
    ensures
        setup is Plaintext <==> mode is Disabled,
        setup is SystemRoots <==> mode is SystemRoots,
        setup is CustomCa <==> mode is CustomCa,
        setup is AcceptAny <==> mode is NoVerify,
        setup matches TlsSetup::SystemRoots { domain } ==> domain@ == host,
        setup matches TlsSetup::CustomCa { path, domain } ==> domain@ == host && mode
            == TlsMode::CustomCa(path),
        setup matches TlsSetup::AcceptAny { domain } ==> domain@ == host,
{
}

/// A TLS failure tells the file and the reason, or the reason alone.
pub proof fn law_tls_messages(err: TlsError)
    ensures
        match err {
            TlsError::ReadCa { path, source } => err@.message() == "failed to read CA certificate "@
                + path@ + ": "@ + source@,
            TlsError::Config(reason) => err@.message() == "TLS configuration failed: "@ + reason@,
        },
{
}

} // verus!
