use grpcknock::output::render;
use grpcknock::output::render_run;
use grpcknock::output::Outcome;
use grpcknock::output::OutputFormat;
use grpcknock::output::ProbeReport;
use grpcknock::probe::ProbeError;
use grpcknock::status::ServingStatus;

fn rpc(status: tonic::Status) -> ProbeError {
    ProbeError::Rpc(status.to_string())
}

fn report(outcome: Outcome) -> ProbeReport {
    ProbeReport {
        endpoint: "localhost:50051".to_string(),
        service: None,
        outcome,
    }
}

#[test]
fn exit_code_from_status_and_error() {
    assert_eq!(
        report(Outcome::Status(ServingStatus::Serving)).exit_code(),
        0
    );
    assert_eq!(
        report(Outcome::Status(ServingStatus::NotServing)).exit_code(),
        3
    );
    let err = rpc(tonic::Status::internal("x"));
    assert_eq!(report(Outcome::Error(err)).exit_code(), 2);
}

#[test]
fn default_prints_status_line_on_success() {
    let r = render(
        &report(Outcome::Status(ServingStatus::Serving)),
        OutputFormat::Default,
    );
    assert_eq!(r.stdout.as_deref(), Some("status: SERVING"));
    assert_eq!(r.stderr, None);
}

#[test]
fn default_sends_error_to_stderr() {
    let err = rpc(tonic::Status::internal("boom"));
    let r = render(&report(Outcome::Error(err)), OutputFormat::Default);
    assert_eq!(r.stdout, None);
    assert!(r.stderr.unwrap().contains("rpc error"));
}

#[test]
fn verbose_lists_endpoint_service_status() {
    let r = render(
        &report(Outcome::Status(ServingStatus::Serving)),
        OutputFormat::Verbose,
    );
    let out = r.stdout.unwrap();
    assert!(out.contains("localhost:50051"));
    assert!(out.contains("SERVING"));
    // A missing service renders as the overall-health marker.
    assert!(out.contains("overall"));
}

#[test]
fn json_success_carries_fields() {
    let report = ProbeReport {
        endpoint: "localhost:50051".to_string(),
        service: Some("demo.Serving".to_string()),
        outcome: Outcome::Status(ServingStatus::Serving),
    };
    let r = render(&report, OutputFormat::Json);
    let v: serde_json::Value = serde_json::from_str(&r.stdout.unwrap()).unwrap();
    assert_eq!(v["status"], "SERVING");
    assert_eq!(v["endpoint"], "localhost:50051");
    assert_eq!(v["service"], "demo.Serving");
}

#[test]
fn json_error_carries_error_field() {
    let err = rpc(tonic::Status::internal("boom"));
    let r = render(&report(Outcome::Error(err)), OutputFormat::Json);
    let v: serde_json::Value = serde_json::from_str(&r.stdout.unwrap()).unwrap();
    assert!(v["error"].is_string());
    assert_eq!(v["service"], serde_json::Value::Null);
}

#[test]
fn quiet_prints_nothing() {
    let r = render(
        &report(Outcome::Status(ServingStatus::Serving)),
        OutputFormat::Quiet,
    );
    assert_eq!(r.stdout, None);
    assert_eq!(r.stderr, None);
}

fn service_report(name: &str, status: ServingStatus) -> ProbeReport {
    ProbeReport {
        endpoint: "host:1".to_string(),
        service: Some(name.to_string()),
        outcome: Outcome::Status(status),
    }
}

#[test]
fn single_report_keeps_the_flat_format() {
    // render_run with one service must match the single object.
    let reports = vec![service_report("demo.Serving", ServingStatus::Serving)];
    let r = render_run(&reports, OutputFormat::Json);
    let v: serde_json::Value = serde_json::from_str(&r.stdout.unwrap()).unwrap();
    assert!(v.is_object());
    assert_eq!(v["status"], "SERVING");
}

#[test]
fn many_default_lists_each_service() {
    let reports = vec![
        service_report("a", ServingStatus::Serving),
        service_report("b", ServingStatus::NotServing),
    ];
    let r = render_run(&reports, OutputFormat::Default);
    let out = r.stdout.unwrap();
    assert!(out.contains("a: SERVING"));
    assert!(out.contains("b: NOT_SERVING"));
}

#[test]
fn many_routes_errors_to_stderr() {
    let reports = vec![
        service_report("a", ServingStatus::Serving),
        ProbeReport {
            endpoint: "host:1".to_string(),
            service: Some("b".to_string()),
            outcome: Outcome::Error(rpc(tonic::Status::not_found("x"))),
        },
    ];
    let r = render_run(&reports, OutputFormat::Default);
    assert!(r.stdout.unwrap().contains("a: SERVING"));
    assert!(r.stderr.unwrap().contains("b: rpc error"));
}

#[test]
fn many_json_is_an_array() {
    let reports = vec![
        service_report("a", ServingStatus::Serving),
        service_report("b", ServingStatus::NotServing),
    ];
    let r = render_run(&reports, OutputFormat::Json);
    let v: serde_json::Value = serde_json::from_str(&r.stdout.unwrap()).unwrap();
    assert_eq!(v.as_array().unwrap().len(), 2);
}

fn failure(name: Option<&str>, err: ProbeError) -> ProbeReport {
    ProbeReport {
        endpoint: "host:1".to_string(),
        service: name.map(|name| name.to_string()),
        outcome: Outcome::Error(err),
    }
}

#[test]
fn verbose_texts_are_exact() {
    let r = render(
        &report(Outcome::Status(ServingStatus::ServiceUnknown)),
        OutputFormat::Verbose,
    );
    assert_eq!(
        r.stdout.as_deref(),
        Some("endpoint: localhost:50051\nservice: (overall)\nstatus: SERVICE_UNKNOWN")
    );
    assert_eq!(r.stderr, None);
    let r = render(
        &failure(Some("demo"), ProbeError::RequestTimeout),
        OutputFormat::Verbose,
    );
    assert_eq!(r.stdout, None);
    assert_eq!(
        r.stderr.as_deref(),
        Some("endpoint: host:1\nservice: demo\nerror: request timed out")
    );
}

#[test]
fn json_texts_are_exact() {
    let serving = ProbeReport {
        endpoint: "localhost:50051".to_string(),
        service: Some("demo.Serving".to_string()),
        outcome: Outcome::Status(ServingStatus::Serving),
    };
    assert_eq!(
        render(&serving, OutputFormat::Json).stdout.as_deref(),
        Some(
            "{\"endpoint\":\"localhost:50051\",\"service\":\"demo.Serving\",\"status\":\"SERVING\"}"
        )
    );
    assert_eq!(
        render(&failure(None, ProbeError::ConnectTimeout), OutputFormat::Json)
            .stdout
            .as_deref(),
        Some("{\"endpoint\":\"host:1\",\"error\":\"connection timed out\",\"service\":null}")
    );
}

#[test]
fn json_arrays_hold_the_single_objects() {
    let reports = vec![
        service_report("a", ServingStatus::Serving),
        failure(Some("b"), ProbeError::RequestTimeout),
        failure(None, ProbeError::ConnectTimeout),
    ];
    let objects: Vec<String> = reports
        .iter()
        .map(|report| render(report, OutputFormat::Json).stdout.unwrap())
        .collect();
    let r = render_run(&reports, OutputFormat::Json);
    assert_eq!(r.stdout, Some(format!("[{}]", objects.join(","))));
    assert_eq!(r.stderr, None);
}

#[test]
fn json_escapes_special_characters() {
    let text = "q\" b\\ \u{8}\t\n\u{c}\r \u{0}\u{1}\u{1f} \u{7f} é 𝄞 /";
    let r = render(
        &service_report(text, ServingStatus::Unknown),
        OutputFormat::Json,
    );
    let out = r.stdout.unwrap();
    assert_eq!(
        out,
        "{\"endpoint\":\"host:1\",\"service\":\"q\\\" b\\\\ \\b\\t\\n\\f\\r \\u0000\\u0001\\u001f \u{7f} é 𝄞 /\",\"status\":\"UNKNOWN\"}"
    );
    let v: serde_json::Value = serde_json::from_str(&out).unwrap();
    assert_eq!(v["service"], text);
}

#[test]
fn json_is_a_single_line_that_reads_back() {
    let messages = ["", "\n", "a\"b", "\\u0041", "{\"x\":[1]},", "null"];
    let reports: Vec<ProbeReport> = messages
        .iter()
        .map(|message| failure(Some(message), ProbeError::Rpc(message.to_string())))
        .collect();
    let out = render_run(&reports, OutputFormat::Json).stdout.unwrap();
    assert!(!out.contains('\n'));
    let v: serde_json::Value = serde_json::from_str(&out).unwrap();
    for (i, message) in messages.iter().enumerate() {
        assert_eq!(v[i]["service"], *message);
        assert_eq!(v[i]["error"], format!("rpc error: {message}"));
        assert_eq!(v[i].as_object().unwrap().len(), 3);
    }
}

#[test]
fn many_lines_are_exact() {
    let reports = vec![
        service_report("a", ServingStatus::Serving),
        failure(Some("b"), ProbeError::RequestTimeout),
        service_report("c", ServingStatus::Unknown),
        failure(None, ProbeError::Rpc("gone".to_string())),
    ];
    let r = render_run(&reports, OutputFormat::Default);
    assert_eq!(r.stdout.as_deref(), Some("a: SERVING\nc: UNKNOWN"));
    assert_eq!(
        r.stderr.as_deref(),
        Some("b: request timed out\n(overall): rpc error: gone")
    );
    let r = render_run(&reports, OutputFormat::Verbose);
    assert_eq!(
        r.stdout.as_deref(),
        Some("endpoint: host:1\na: SERVING\nc: UNKNOWN")
    );
    assert_eq!(
        r.stderr.as_deref(),
        Some("b: request timed out\n(overall): rpc error: gone")
    );
}

#[test]
fn many_failures_leave_stdout_empty() {
    let reports = vec![
        failure(Some("a"), ProbeError::RequestTimeout),
        failure(Some("b"), ProbeError::RequestTimeout),
    ];
    let r = render_run(&reports, OutputFormat::Default);
    assert_eq!(r.stdout, None);
    assert_eq!(
        r.stderr.as_deref(),
        Some("a: request timed out\nb: request timed out")
    );
    // The endpoint is still named in verbose mode.
    let r = render_run(&reports, OutputFormat::Verbose);
    assert_eq!(r.stdout.as_deref(), Some("endpoint: host:1"));
}

#[test]
fn many_quiet_prints_nothing() {
    let reports = vec![
        service_report("a", ServingStatus::Serving),
        failure(Some("b"), ProbeError::RequestTimeout),
    ];
    let r = render_run(&reports, OutputFormat::Quiet);
    assert_eq!(r.stdout, None);
    assert_eq!(r.stderr, None);
}

#[test]
fn a_run_without_reports_is_an_empty_array_or_nothing() {
    let r = render_run(&[], OutputFormat::Json);
    assert_eq!(r.stdout.as_deref(), Some("[]"));
    let r = render_run(&[], OutputFormat::Verbose);
    assert_eq!(r.stdout, None);
    assert_eq!(r.stderr, None);
}

#[test]
fn a_single_run_is_written_as_its_report() {
    for format in [
        OutputFormat::Default,
        OutputFormat::Verbose,
        OutputFormat::Json,
        OutputFormat::Quiet,
    ] {
        let one = render(&service_report("a", ServingStatus::NotServing), format);
        let run = render_run(&[service_report("a", ServingStatus::NotServing)], format);
        assert_eq!(one.stdout, run.stdout);
        assert_eq!(one.stderr, run.stderr);
    }
}

#[test]
fn the_overall_service_has_a_label() {
    assert_eq!(
        report(Outcome::Status(ServingStatus::Serving)).service_label(),
        "(overall)"
    );
    assert_eq!(
        service_report("a", ServingStatus::Serving).service_label(),
        "a"
    );
}
