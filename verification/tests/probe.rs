use tonic::transport::Endpoint;

use grpcknock::endpoint::Target;
use grpcknock::metadata::MetaPair;
use grpcknock::probe::ca_result;
use grpcknock::probe::check_result;
use grpcknock::probe::connect_result;
use grpcknock::probe::is_retryable;
use grpcknock::probe::nonempty;
use grpcknock::probe::request_result;
use grpcknock::probe::setup_result;
use grpcknock::probe::ProbeError;
use grpcknock::probe::ProbeParams;
use grpcknock::probe::Retry;
use grpcknock::probe::Waited;
use grpcknock::span::Span;
use grpcknock::status::ServingStatus;
use grpcknock::tls::TlsError;
use grpcknock::tls::TlsMode;
use grpcknock::tls::TlsSetup;

fn params(addr: &str) -> ProbeParams {
    ProbeParams {
        target: Target::parse_addr(addr).unwrap(),
        tls_mode: TlsMode::Disabled,
        services: Vec::new(),
        metadata: Vec::new(),
        retry: 0,
        connect_timeout: None,
        timeout: None,
        watch_failures: None,
    }
}

#[test]
fn transport_error_exits_one() {
    // Any transport error works; we only test the variant -> exit code mapping.
    let err = Endpoint::from_shared("http://[".to_string()).unwrap_err();
    assert_eq!(ProbeError::Transport(err.to_string()).exit_code(), 1);
}

#[test]
fn rpc_error_exits_two() {
    let err = tonic::Status::internal("rpc failed");
    assert_eq!(ProbeError::Rpc(err.to_string()).exit_code(), 2);
}

#[test]
fn timeout_errors_exit_four() {
    assert_eq!(ProbeError::ConnectTimeout.exit_code(), 4);
    assert_eq!(ProbeError::RequestTimeout.exit_code(), 4);
}

#[test]
fn tls_error_exits_one() {
    // A TLS setup failure (e.g. an unreadable CA file) is a connection-level failure,
    // like a refused dial.
    let err = TlsError::ReadCa {
        path: "/nope.pem".to_string(),
        source: std::io::Error::from(std::io::ErrorKind::NotFound).to_string(),
    };
    assert_eq!(ProbeError::Tls(err).exit_code(), 1);
}

#[test]
fn only_transient_connect_failures_retry() {
    let transport = Endpoint::from_shared("http://[".to_string()).unwrap_err();
    assert!(is_retryable(&ProbeError::Transport(transport.to_string())));
    assert!(is_retryable(&ProbeError::ConnectTimeout));
    assert!(!is_retryable(&ProbeError::RequestTimeout));
    assert!(!is_retryable(&ProbeError::Rpc(
        tonic::Status::internal("x").to_string()
    )));
}

#[test]
fn tls_setup_failures_do_not_retry() {
    assert!(!is_retryable(&ProbeError::Tls(TlsError::Config(
        "x".to_string()
    ))));
}

/// Runs `attempt` under the retry policy, without pausing.
fn retry_loop<T>(
    retries: u32,
    mut attempt: impl FnMut() -> Result<T, ProbeError>,
) -> Result<T, ProbeError> {
    let mut retry = Retry::new(retries, Span::from_secs(0));
    loop {
        match attempt() {
            Ok(value) => return Ok(value),
            Err(err) => match retry.after_failure(&err) {
                Some(pause) => assert!(pause.is_zero()),
                None => return Err(err),
            },
        }
    }
}

#[test]
fn retry_loop_stops_after_the_limit() {
    let mut calls = 0;
    let result: Result<(), ProbeError> = retry_loop(3, || {
        calls += 1;
        Err(ProbeError::ConnectTimeout)
    });
    assert!(result.is_err());
    // One initial attempt plus three retries.
    assert_eq!(calls, 4);
}

#[test]
fn retry_loop_does_not_retry_deterministic_errors() {
    let mut calls = 0;
    let result: Result<(), ProbeError> = retry_loop(3, || {
        calls += 1;
        Err(ProbeError::Rpc(tonic::Status::not_found("x").to_string()))
    });
    assert!(result.is_err());
    assert_eq!(calls, 1);
}

#[test]
fn retry_loop_returns_first_success() {
    let mut calls = 0;
    let result: Result<u8, ProbeError> = retry_loop(3, || {
        calls += 1;
        Ok(7u8)
    });
    assert_eq!(result.unwrap(), 7);
    assert_eq!(calls, 1);
}

#[test]
fn a_deterministic_failure_ends_the_retries() {
    let mut calls = 0;
    let result: Result<(), ProbeError> = retry_loop(5, || {
        calls += 1;
        if calls < 3 {
            Err(ProbeError::Transport("refused".to_string()))
        } else {
            Err(ProbeError::Tls(TlsError::Config("bad".to_string())))
        }
    });
    assert_eq!(result.unwrap_err().exit_code(), 1);
    assert_eq!(calls, 3);
}

#[test]
fn retries_are_one_second_apart() {
    let mut p = params("h:1");
    p.retry = 1;
    let mut retry = p.connect_retry();
    assert_eq!(
        retry.after_failure(&ProbeError::ConnectTimeout),
        Some(Span::from_secs(1))
    );
    assert_eq!(retry.after_failure(&ProbeError::ConnectTimeout), None);
}

#[test]
fn failures_say_what_is_wrong() {
    assert_eq!(
        ProbeError::Transport("refused".to_string()).to_string(),
        "connection failed: refused"
    );
    assert_eq!(
        ProbeError::Rpc("gone".to_string()).to_string(),
        "rpc error: gone"
    );
    assert_eq!(
        ProbeError::Tls(TlsError::Config("bad".to_string())).to_string(),
        "TLS configuration failed: bad"
    );
    assert_eq!(
        ProbeError::ConnectTimeout.to_string(),
        "connection timed out"
    );
    assert_eq!(ProbeError::RequestTimeout.to_string(), "request timed out");
}

#[test]
fn waits_have_their_own_results() {
    assert_eq!(connect_result(Waited::Done(Ok(7u8))).unwrap(), 7);
    assert!(matches!(
        connect_result::<u8>(Waited::Elapsed),
        Err(ProbeError::ConnectTimeout)
    ));
    match connect_result::<u8>(Waited::Done(Err("refused".to_string()))) {
        Err(ProbeError::Transport(reason)) => assert_eq!(reason, "refused"),
        other => panic!("{other:?}"),
    }
    assert_eq!(request_result(Waited::Done(Ok(7u8))).unwrap(), 7);
    assert!(matches!(
        request_result::<u8>(Waited::Elapsed),
        Err(ProbeError::RequestTimeout)
    ));
    match request_result::<u8>(Waited::Done(Err("gone".to_string()))) {
        Err(ProbeError::Rpc(reason)) => assert_eq!(reason, "gone"),
        other => panic!("{other:?}"),
    }
}

#[test]
fn check_replies_are_decoded() {
    assert_eq!(
        check_result(Waited::Done(Ok(1))).unwrap(),
        ServingStatus::Serving
    );
    assert_eq!(
        check_result(Waited::Done(Ok(99))).unwrap(),
        ServingStatus::Unknown
    );
    assert!(matches!(
        check_result(Waited::Elapsed),
        Err(ProbeError::RequestTimeout)
    ));
    assert!(matches!(
        check_result(Waited::Done(Err("x".to_string()))),
        Err(ProbeError::Rpc(_))
    ));
}

#[test]
fn the_empty_service_name_is_none() {
    assert_eq!(nonempty(String::new()), None);
    assert_eq!(nonempty("demo".to_string()), Some("demo".to_string()));
}

#[test]
fn without_a_service_overall_health_is_asked_for() {
    let p = params("h:1");
    assert_eq!(p.service_list(), vec![String::new()]);
    assert_eq!(p.watch_service(), "");
}

#[test]
fn services_are_asked_for_in_order() {
    let mut p = params("h:1");
    p.services = vec!["b".to_string(), "a".to_string(), "b".to_string()];
    assert_eq!(p.service_list(), p.services);
    assert_eq!(p.watch_service(), "b");
}

#[test]
fn the_dial_plan_follows_the_flags() {
    let mut p = params("[::1]:50051");
    p.connect_timeout = Some(Span::from_millis(250));
    let plan = p.dial_plan().unwrap();
    assert_eq!(plan.uri, "http://[::1]:50051");
    assert!(matches!(plan.tls, TlsSetup::Plaintext));
    assert_eq!(plan.limit, Some(Span::from_millis(250)));

    p.tls_mode = TlsMode::SystemRoots;
    p.connect_timeout = None;
    let plan = p.dial_plan().unwrap();
    assert_eq!(plan.uri, "https://[::1]:50051");
    match plan.tls {
        TlsSetup::SystemRoots { domain } => assert_eq!(domain, "::1"),
        other => panic!("{other:?}"),
    }
    assert_eq!(plan.limit, None);
}

#[test]
fn a_bad_host_is_a_connection_failure() {
    let err = params("a b:80").dial_plan().unwrap_err();
    assert_eq!(err.to_string(), "connection failed: invalid URI");
    assert_eq!(err.exit_code(), 1);
}

#[test]
fn a_refused_uri_makes_no_plan() {
    let p = params("h:1");
    match p.plan_for(Err("no".to_string())) {
        Err(ProbeError::Transport(reason)) => assert_eq!(reason, "no"),
        other => panic!("{other:?}"),
    }
    assert_eq!(p.plan_for(Ok(())).unwrap().uri, "http://h:1");
}

#[test]
fn unprotected_metadata_is_warned_about() {
    let mut p = params("h:1");
    assert_eq!(p.metadata_warning(), None);
    p.metadata = vec![MetaPair::parse("authorization=secret").unwrap()];
    assert_eq!(
        p.metadata_warning(),
        Some("warning: metadata is sent over an unencrypted connection; add --tls")
    );
    p.tls_mode = TlsMode::NoVerify;
    assert_eq!(
        p.metadata_warning(),
        Some("warning: metadata is sent over an unverified TLS connection; drop --tls-no-verify")
    );
    p.tls_mode = TlsMode::SystemRoots;
    assert_eq!(p.metadata_warning(), None);
    p.tls_mode = TlsMode::CustomCa("/tmp/ca.pem".into());
    assert_eq!(p.metadata_warning(), None);
}

#[test]
fn every_request_carries_the_metadata_and_the_limit() {
    let mut p = params("h:1");
    p.services = vec!["b".to_string(), "a".to_string()];
    p.metadata = vec![
        MetaPair::parse("k=1").unwrap(),
        MetaPair::parse("k=2").unwrap(),
    ];
    p.timeout = Some(Span::from_secs(2));
    p.connect_timeout = Some(Span::from_secs(9));
    for (plan, service) in [(p.check_plan("a"), "a"), (p.watch_plan(), "b")] {
        assert_eq!(plan.service, service);
        assert_eq!(plan.limit, Some(Span::from_secs(2)));
        let values: Vec<&str> = plan
            .headers
            .get_all("k")
            .iter()
            .map(|v| v.to_str().unwrap())
            .collect();
        assert_eq!(values, vec!["1", "2"]);
    }
}

#[test]
fn a_watch_of_overall_health_asks_for_the_empty_name() {
    let plan = params("h:1").watch_plan();
    assert_eq!(plan.service, "");
    assert!(plan.headers.is_empty());
    assert_eq!(plan.limit, None);
}

#[test]
fn a_ca_file_that_cannot_be_read_is_a_tls_failure() {
    let contents = vec![1u8, 2];
    assert_eq!(
        ca_result("/ca.pem".to_string(), Ok(contents.clone())).unwrap(),
        contents
    );
    let err = ca_result::<Vec<u8>>("/nope.pem".to_string(), Err("gone".to_string())).unwrap_err();
    assert!(matches!(
        err,
        ProbeError::Tls(TlsError::ReadCa { .. })
    ));
    assert_eq!(
        err.to_string(),
        "failed to read CA certificate /nope.pem: gone"
    );
    assert_eq!(err.exit_code(), 1);
    assert!(!is_retryable(&err));
}

#[test]
fn a_refused_tls_setup_is_a_tls_failure() {
    assert_eq!(setup_result(Ok(7u8)).unwrap(), 7);
    let err = setup_result::<u8>(Err("bad roots".to_string())).unwrap_err();
    assert!(matches!(err, ProbeError::Tls(TlsError::Config(_))));
    assert_eq!(err.to_string(), "TLS configuration failed: bad roots");
    assert_eq!(err.exit_code(), 1);
    assert!(!is_retryable(&err));
}

#[test]
fn metadata_within_the_limit_fits_a_request() {
    let mut p = params("h:1");
    assert!(p.headers_fit());
    p.metadata = (0..6553)
        .map(|i| MetaPair::parse(&format!("k{i}=v")).unwrap())
        .collect();
    p.metadata.push(MetaPair::parse("k0=again").unwrap());
    assert!(p.headers_fit());
    assert_eq!(p.check_plan("a").headers.keys_len(), 6553);
    p.metadata.push(MetaPair::parse("other=v").unwrap());
    assert!(!p.headers_fit());
}
