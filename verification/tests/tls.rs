use grpcknock::tls::configure;
use grpcknock::tls::TlsError;
use grpcknock::tls::TlsMode;
use grpcknock::tls::TlsSetup;

#[test]
fn is_enabled_only_when_tls_is_on() {
    assert!(!TlsMode::Disabled.is_enabled());
    assert!(TlsMode::SystemRoots.is_enabled());
    assert!(TlsMode::CustomCa("/tmp/ca.pem".into()).is_enabled());
    assert!(TlsMode::NoVerify.is_enabled());
}

#[test]
fn each_mode_has_its_setup() {
    assert!(matches!(
        configure(&TlsMode::Disabled, "h"),
        TlsSetup::Plaintext
    ));
    match configure(&TlsMode::SystemRoots, "example.test") {
        TlsSetup::SystemRoots { domain } => assert_eq!(domain, "example.test"),
        other => panic!("{other:?}"),
    }
    match configure(&TlsMode::CustomCa("/tmp/ca.pem".into()), "example.test") {
        TlsSetup::CustomCa { path, domain } => {
            assert_eq!(path.to_str(), Some("/tmp/ca.pem"));
            assert_eq!(domain, "example.test");
        }
        other => panic!("{other:?}"),
    }
    match configure(&TlsMode::NoVerify, "::1") {
        TlsSetup::AcceptAny { domain } => assert_eq!(domain, "::1"),
        other => panic!("{other:?}"),
    }
}

#[test]
fn a_cloned_mode_keeps_its_path() {
    let mode = TlsMode::CustomCa("/tmp/ca.pem".into());
    assert_eq!(mode.clone(), mode);
    assert_eq!(TlsMode::NoVerify.clone(), TlsMode::NoVerify);
    assert_eq!(TlsMode::Disabled.clone(), TlsMode::Disabled);
    assert_eq!(TlsMode::SystemRoots.clone(), TlsMode::SystemRoots);
}

#[test]
fn tls_errors_say_what_is_wrong() {
    let err = TlsError::ReadCa {
        path: "/nope.pem".to_string(),
        source: "entity not found".to_string(),
    };
    assert_eq!(
        err.to_string(),
        "failed to read CA certificate /nope.pem: entity not found"
    );
    assert_eq!(
        TlsError::Config("bad roots".to_string()).to_string(),
        "TLS configuration failed: bad roots"
    );
}
