use clap::Arg;
use clap::ArgAction;
use clap::Command;

use grpcknock::cli::parse_duration;
use grpcknock::cli::Cli;
use grpcknock::cli::CliError;
use grpcknock::cli::DurationParseError;
use grpcknock::endpoint::Target;
use grpcknock::metadata::MetaPair;
use grpcknock::output::OutputFormat;
use grpcknock::span::Span;
use grpcknock::tls::TlsMode;

fn value(name: &'static str) -> Arg {
    Arg::new(name).long(name).action(ArgAction::Append)
}

fn flag(name: &'static str) -> Arg {
    Arg::new(name).long(name).action(ArgAction::SetTrue)
}

fn command() -> Command {
    Command::new("grpcknock")
        .arg(value("addr"))
        .arg(value("port"))
        .arg(value("service"))
        .arg(value("metadata").visible_alias("rpc-header"))
        .arg(value("retry"))
        .arg(value("connect-timeout"))
        .arg(value("timeout"))
        .arg(value("watch-failures"))
        .arg(flag("verbose").short('v'))
        .arg(flag("json"))
        .arg(flag("quiet").short('q'))
        .arg(flag("tls"))
        .arg(value("ca-cert"))
        .arg(flag("tls-no-verify"))
        .arg(flag("watch"))
}

/// Reads the flags of a command line and applies the library's parsers and
/// rules to them.
fn try_parse_from(args: &[&str]) -> Result<Cli, String> {
    let matches = command()
        .try_get_matches_from(args.iter().map(|arg| arg.to_string()))
        .map_err(|e| e.to_string())?;
    let all = |name: &str| -> Vec<String> {
        matches
            .get_many::<String>(name)
            .map(|values| values.cloned().collect())
            .unwrap_or_default()
    };
    let one = |name: &str| -> Option<String> { all(name).pop() };
    let span = |name: &str| -> Result<Option<Span>, String> {
        match one(name) {
            Some(text) => parse_duration(&text).map(Some).map_err(|e| e.to_string()),
            None => Ok(None),
        }
    };
    let addr = match one("addr") {
        Some(text) => Some(Target::parse_addr(&text).map_err(|e| e.to_string())?),
        None => None,
    };
    let mut metadata = Vec::new();
    for text in all("metadata") {
        metadata.push(MetaPair::parse(&text).map_err(|e| e.to_string())?);
    }
    let cli = Cli {
        addr,
        port: one("port").map(|text| text.parse().unwrap()),
        service: all("service"),
        metadata,
        retry: one("retry").map(|text| text.parse().unwrap()).unwrap_or(0),
        connect_timeout: span("connect-timeout")?,
        timeout: span("timeout")?,
        watch_failures: one("watch-failures").map(|text| text.parse().unwrap()),
        verbose: matches.get_flag("verbose"),
        json: matches.get_flag("json"),
        quiet: matches.get_flag("quiet"),
        tls: matches.get_flag("tls"),
        ca_cert: one("ca-cert").map(|text| text.into()),
        tls_no_verify: matches.get_flag("tls-no-verify"),
        watch: matches.get_flag("watch"),
    };
    if cli.is_consistent() {
        Ok(cli)
    } else {
        Err("the flags do not go together".to_string())
    }
}

#[test]
fn port_resolves_to_localhost() {
    let cli = try_parse_from(&["grpcknock", "--port", "50051"]).unwrap();
    assert_eq!(cli.target().to_string(), "localhost:50051");
}

#[test]
fn addr_passes_through() {
    let cli = try_parse_from(&["grpcknock", "--addr", "example.test:1234"]).unwrap();
    assert_eq!(cli.target().to_string(), "example.test:1234");
}

#[test]
fn addr_without_port_is_rejected_at_parse() {
    let result = try_parse_from(&["grpcknock", "--addr", "example.test"]);
    assert!(result.is_err());
}

#[test]
fn addr_and_port_are_mutually_exclusive() {
    let result = try_parse_from(&["grpcknock", "--addr", "h:1", "--port", "2"]);
    assert!(result.is_err());
}

#[test]
fn a_target_is_required() {
    let result = try_parse_from(&["grpcknock", "--json"]);
    assert!(result.is_err());
}

#[test]
fn no_output_flag_selects_default() {
    let cli = try_parse_from(&["grpcknock", "--port", "1"]).unwrap();
    assert_eq!(cli.output_format(), OutputFormat::Default);
}

#[test]
fn json_flag_selects_json() {
    let cli = try_parse_from(&["grpcknock", "--port", "1", "--json"]).unwrap();
    assert_eq!(cli.output_format(), OutputFormat::Json);
}

#[test]
fn verbose_flag_selects_verbose() {
    let cli = try_parse_from(&["grpcknock", "--port", "1", "--verbose"]).unwrap();
    assert_eq!(cli.output_format(), OutputFormat::Verbose);
}

#[test]
fn quiet_flag_selects_quiet() {
    let cli = try_parse_from(&["grpcknock", "--port", "1", "--quiet"]).unwrap();
    assert_eq!(cli.output_format(), OutputFormat::Quiet);
}

#[test]
fn output_flags_are_mutually_exclusive() {
    let result = try_parse_from(&["grpcknock", "--port", "1", "--json", "--quiet"]);
    assert!(result.is_err());
}

#[test]
fn verbose_excludes_the_other_formats() {
    assert!(try_parse_from(&["grpcknock", "--port", "1", "-v", "--json"]).is_err());
    assert!(try_parse_from(&["grpcknock", "--port", "1", "-v", "-q"]).is_err());
}

#[test]
fn no_tls_flag_is_disabled() {
    let cli = try_parse_from(&["grpcknock", "--port", "1"]).unwrap();
    assert_eq!(cli.tls_mode(), TlsMode::Disabled);
}

#[test]
fn tls_flag_uses_system_roots() {
    let cli = try_parse_from(&["grpcknock", "--port", "1", "--tls"]).unwrap();
    assert_eq!(cli.tls_mode(), TlsMode::SystemRoots);
}

#[test]
fn ca_cert_implies_custom_ca() {
    let cli = try_parse_from(&["grpcknock", "--port", "1", "--ca-cert", "/tmp/ca.pem"]).unwrap();
    assert_eq!(cli.tls_mode(), TlsMode::CustomCa("/tmp/ca.pem".into()));
}

#[test]
fn tls_no_verify_implies_no_verify() {
    let cli = try_parse_from(&["grpcknock", "--port", "1", "--tls-no-verify"]).unwrap();
    assert_eq!(cli.tls_mode(), TlsMode::NoVerify);
}

#[test]
fn ca_cert_and_no_verify_conflict() {
    let result = try_parse_from(&[
        "grpcknock",
        "--port",
        "1",
        "--ca-cert",
        "/tmp/ca.pem",
        "--tls-no-verify",
    ]);
    assert!(result.is_err());
}

#[test]
fn service_flag_collects_multiple_values() {
    let cli = try_parse_from(&[
        "grpcknock",
        "--port",
        "1",
        "--service",
        "a",
        "--service",
        "b",
    ])
    .unwrap();
    assert_eq!(cli.service, vec!["a".to_string(), "b".to_string()]);
}

#[test]
fn rpc_header_is_an_alias_for_metadata() {
    // Both spellings feed the same Vec, so a grpc-health-probe user's
    // --rpc-header keeps working.
    let cli = try_parse_from(&[
        "grpcknock",
        "--port",
        "1",
        "--metadata",
        "a=1",
        "--rpc-header",
        "b=2",
    ])
    .unwrap();
    assert_eq!(cli.metadata.len(), 2);
}

#[test]
fn invalid_metadata_is_rejected_at_parse() {
    let result = try_parse_from(&["grpcknock", "--port", "1", "--metadata", "noeq"]);
    assert!(result.is_err());
}

#[test]
fn duration_flags_accept_units() {
    assert_eq!(parse_duration("500ms").unwrap(), Span::from_millis(500));
    assert_eq!(parse_duration("2s").unwrap(), Span::from_secs(2));
    assert_eq!(parse_duration("1m").unwrap(), Span::from_secs(60));
}

#[test]
fn duration_requires_a_unit() {
    assert!(matches!(
        parse_duration("10"),
        Err(DurationParseError::MissingUnit(_))
    ));
}

#[test]
fn duration_rejects_unknown_unit() {
    assert!(matches!(
        parse_duration("5x"),
        Err(DurationParseError::UnknownUnit { .. })
    ));
}

#[test]
fn duration_rejects_a_missing_number() {
    assert!(matches!(
        parse_duration("ms"),
        Err(DurationParseError::MissingNumber(_))
    ));
}

#[test]
fn duration_rejects_zero() {
    // A zero timeout fires instantly; reject it so it is not a silent footgun.
    assert!(matches!(
        parse_duration("0s"),
        Err(DurationParseError::Zero(_))
    ));
    assert!(matches!(
        parse_duration("0ms"),
        Err(DurationParseError::Zero(_))
    ));
}

#[test]
fn watch_failures_rejects_zero() {
    let result = try_parse_from(&[
        "grpcknock",
        "--port",
        "1",
        "--watch",
        "--watch-failures",
        "0",
    ]);
    assert!(result.is_err());
}

#[test]
fn watch_failures_requires_watch() {
    // Without this pairing the flag would be accepted and silently ignored.
    let result = try_parse_from(&["grpcknock", "--port", "1", "--watch-failures", "3"]);
    assert!(result.is_err());
}

#[test]
fn watch_with_several_services_is_rejected() {
    let cli = try_parse_from(&[
        "grpcknock",
        "--port",
        "1",
        "--watch",
        "--service",
        "a",
        "--service",
        "b",
    ])
    .unwrap();
    assert!(cli.validate().is_err());
    assert_eq!(cli.validate(), Err(CliError::WatchSeveralServices));
    assert_eq!(
        CliError::WatchSeveralServices.to_string(),
        "--watch follows a single service; remove the extra --service values"
    );
}

#[test]
fn watch_with_one_service_is_allowed() {
    let cli = try_parse_from(&["grpcknock", "--port", "1", "--watch", "--service", "a"]).unwrap();
    assert!(cli.validate().is_ok());
}

#[test]
fn a_check_may_name_several_services() {
    let cli = try_parse_from(&[
        "grpcknock",
        "--port",
        "1",
        "--service",
        "a",
        "--service",
        "b",
    ])
    .unwrap();
    assert!(cli.validate().is_ok());
}

#[test]
fn params_take_over_every_flag() {
    let cli = try_parse_from(&[
        "grpcknock",
        "--addr",
        "[::1]:7",
        "--service",
        "demo",
        "--metadata",
        "k=v",
        "--retry",
        "5",
        "--connect-timeout",
        "500ms",
        "--timeout",
        "2m",
        "--watch",
        "--watch-failures",
        "3",
        "--tls",
    ])
    .unwrap();
    let params = cli.probe_params();
    assert_eq!(params.target.to_string(), "[::1]:7");
    assert_eq!(params.tls_mode, TlsMode::SystemRoots);
    assert_eq!(params.services, vec!["demo".to_string()]);
    assert_eq!(params.metadata.len(), 1);
    assert_eq!(params.metadata[0].key(), "k");
    assert_eq!(params.metadata[0].value(), "v");
    assert_eq!(params.retry, 5);
    assert_eq!(params.connect_timeout, Some(Span::from_millis(500)));
    assert_eq!(params.timeout, Some(Span::from_secs(120)));
    assert_eq!(params.watch_failures, Some(3));
}

#[test]
fn no_timeout_flag_means_no_limit() {
    let params = try_parse_from(&["grpcknock", "--port", "1"])
        .unwrap()
        .probe_params();
    assert_eq!(params.connect_timeout, None);
    assert_eq!(params.timeout, None);
    assert_eq!(params.retry, 0);
    assert_eq!(params.watch_failures, None);
}

fn duration_error(raw: &str) -> String {
    parse_duration(raw).unwrap_err().to_string()
}

#[test]
fn duration_errors_say_what_is_wrong() {
    assert_eq!(
        duration_error("10"),
        "duration \"10\" must be a number followed by a unit (ms, s or m)"
    );
    assert_eq!(
        duration_error(""),
        "duration \"\" must be a number followed by a unit (ms, s or m)"
    );
    assert_eq!(
        duration_error("ms"),
        "duration \"ms\" is missing a number"
    );
    assert_eq!(
        duration_error("99999999999999999999s"),
        "duration \"99999999999999999999s\" has an invalid number: number too large to fit in target type"
    );
    assert_eq!(
        duration_error("5\tx"),
        "duration \"5\\tx\" has an unknown unit \"\\tx\" (use ms, s or m)"
    );
    assert_eq!(
        duration_error("18446744073709551615m"),
        "duration \"18446744073709551615m\" is too large"
    );
    assert_eq!(
        duration_error("0m"),
        "duration \"0m\" must be greater than zero (omit the flag for no timeout)"
    );
}

#[test]
fn duration_error_variants() {
    assert!(matches!(
        parse_duration("99999999999999999999s"),
        Err(DurationParseError::InvalidNumber(_, _))
    ));
    assert!(matches!(
        parse_duration("18446744073709551615m"),
        Err(DurationParseError::Overflow(_))
    ));
    match parse_duration("1h30m") {
        Err(DurationParseError::UnknownUnit { raw, unit }) => {
            assert_eq!(raw, "1h30m");
            assert_eq!(unit, "h30m");
        }
        other => panic!("{other:?}"),
    }
}

#[test]
fn duration_limits_are_exact() {
    // The largest number of minutes whose seconds fit in 64 bits.
    let most = u64::MAX / 60;
    assert_eq!(
        parse_duration(&format!("{most}m")).unwrap(),
        Span::from_secs(most * 60)
    );
    assert!(parse_duration(&format!("{}m", most + 1)).is_err());
    assert_eq!(
        parse_duration("18446744073709551615s").unwrap(),
        Span::from_secs(u64::MAX)
    );
    assert_eq!(parse_duration("007ms").unwrap(), Span::from_millis(7));
}

#[test]
fn durations_take_no_sign_space_or_fraction() {
    assert!(parse_duration("+5s").is_err());
    assert!(parse_duration("-5s").is_err());
    assert!(parse_duration(" 5s").is_err());
    assert!(parse_duration("5 s").is_err());
    assert!(parse_duration("1.5s").is_err());
    assert!(parse_duration("5S").is_err());
    assert!(parse_duration("\u{0665}s").is_err());
}

#[test]
fn spans_split_into_seconds_and_milliseconds() {
    let span = Span::from_millis(61_250);
    assert_eq!(span.secs(), 61);
    assert_eq!(span.subsec_millis(), 250);
    assert!(!span.is_zero());
    assert!(Span::from_secs(0).is_zero());
    assert_eq!(Span::from_secs(3), Span::from_millis(3000));
}
