use grpcknock::endpoint::Target;
use grpcknock::output::Outcome;
use grpcknock::output::OutputFormat;
use grpcknock::probe::check_result;
use grpcknock::probe::ProbeError;
use grpcknock::probe::ProbeParams;
use grpcknock::probe::Waited;
use grpcknock::run::check_report;
use grpcknock::run::report;
use grpcknock::run::CheckRun;
use grpcknock::run::WatchEvent;
use grpcknock::run::WatchRun;
use grpcknock::run::WatchStep;
use grpcknock::status::ServingStatus;
use grpcknock::tls::TlsMode;

fn params(services: &[&str]) -> ProbeParams {
    ProbeParams {
        target: Target::localhost(50051),
        tls_mode: TlsMode::Disabled,
        services: services.iter().map(|name| name.to_string()).collect(),
        metadata: Vec::new(),
        retry: 0,
        connect_timeout: None,
        timeout: None,
        watch_failures: None,
    }
}

const FORMATS: [OutputFormat; 4] = [
    OutputFormat::Default,
    OutputFormat::Verbose,
    OutputFormat::Json,
    OutputFormat::Quiet,
];

/// Answers each service that a run asks for.
fn answered(
    params: &ProbeParams,
    mut answer: impl FnMut(&str) -> Waited<Result<i32, String>>,
) -> CheckRun {
    let mut run = CheckRun::new(params);
    loop {
        let result = match run.next_service() {
            Some(service) => check_result(answer(service)),
            None => return run,
        };
        run.record(result);
    }
}

#[test]
fn a_run_asks_for_every_service_once() {
    let p = params(&["b", "a", "b"]);
    let mut asked = Vec::new();
    let run = answered(&p, |service| {
        asked.push(service.to_string());
        Waited::Done(Ok(1))
    });
    assert_eq!(asked, vec!["b", "a", "b"]);
    assert!(run.next_service().is_none());
    let results = run.finish();
    assert_eq!(results.len(), 3);
    assert_eq!(results[0].service.as_deref(), Some("b"));
    assert_eq!(results[1].service.as_deref(), Some("a"));
    assert_eq!(results[2].service.as_deref(), Some("b"));
}

#[test]
fn overall_health_is_reported_without_a_service() {
    let p = params(&[]);
    let results = answered(&p, |service| {
        assert_eq!(service, "");
        Waited::Done(Ok(1))
    })
    .finish();
    assert_eq!(results.len(), 1);
    assert_eq!(results[0].service, None);
    let end = check_report(&p, Ok(results), OutputFormat::Default);
    assert_eq!(end.rendered.stdout.as_deref(), Some("status: SERVING"));
    assert_eq!(end.rendered.stderr, None);
    assert_eq!(end.code, 0);
}

#[test]
fn a_failed_service_does_not_stop_the_others() {
    let p = params(&["a", "b", "c"]);
    let answer = |service: &str| match service {
        "a" => Waited::Elapsed,
        "b" => Waited::Done(Err("gone".to_string())),
        _ => Waited::Done(Ok(1)),
    };
    let end = check_report(&p, Ok(answered(&p, answer).finish()), OutputFormat::Default);
    assert_eq!(end.rendered.stdout.as_deref(), Some("c: SERVING"));
    assert_eq!(
        end.rendered.stderr.as_deref(),
        Some("a: request timed out\nb: rpc error: gone")
    );
    // A hung call is worse than an invocation error.
    assert_eq!(end.code, 4);
}

#[test]
fn several_services_exit_by_the_worst() {
    let p = params(&["demo.Serving", "demo.NotServing"]);
    let answer = |service: &str| {
        Waited::Done(Ok(if service == "demo.Serving" { 1 } else { 2 }))
    };
    let end = check_report(&p, Ok(answered(&p, answer).finish()), OutputFormat::Default);
    assert_eq!(
        end.rendered.stdout.as_deref(),
        Some("demo.Serving: SERVING\ndemo.NotServing: NOT_SERVING")
    );
    assert_eq!(end.code, 3);
}

#[test]
fn a_connect_failure_is_reported_once() {
    let p = params(&["a", "b"]);
    let end = check_report(
        &p,
        Err(ProbeError::Transport("refused".to_string())),
        OutputFormat::Json,
    );
    assert_eq!(
        end.rendered.stdout.as_deref(),
        Some(
            "{\"endpoint\":\"localhost:50051\",\"error\":\"connection failed: refused\",\"service\":null}"
        )
    );
    assert_eq!(end.code, 1);
    assert_eq!(
        check_report(&p, Err(ProbeError::ConnectTimeout), OutputFormat::Quiet).code,
        4
    );
}

#[test]
fn the_exit_code_does_not_depend_on_the_format() {
    let p = params(&["a", "b"]);
    for raw in 0..5 {
        let codes: Vec<u8> = FORMATS
            .iter()
            .map(|format| {
                let results = answered(&p, |_| Waited::Done(Ok(raw))).finish();
                check_report(&p, Ok(results), *format).code
            })
            .collect();
        let expected = if raw == 1 { 0 } else { 3 };
        assert_eq!(codes, vec![expected; 4]);
    }
}

#[test]
fn a_watch_report_names_the_followed_service() {
    let named = report(
        &params(&["demo"]),
        Outcome::Status(ServingStatus::Serving),
    );
    assert_eq!(named.endpoint, "localhost:50051");
    assert_eq!(named.service.as_deref(), Some("demo"));
    assert_eq!(named.exit_code(), 0);
    let overall = report(&params(&[]), Outcome::Error(ProbeError::RequestTimeout));
    assert_eq!(overall.service, None);
    assert_eq!(overall.exit_code(), 4);
}

fn step(run: &mut WatchRun, event: WatchEvent) -> WatchStep {
    run.on_event(event)
}

fn silent(step: &WatchStep) -> bool {
    step.rendered.stdout.is_none() && step.rendered.stderr.is_none()
}

#[test]
fn a_watch_prints_each_update() {
    let mut run = WatchRun::new(&params(&["demo"]), OutputFormat::Json);
    let first = step(&mut run, WatchEvent::Update(1));
    assert_eq!(
        first.rendered.stdout.as_deref(),
        Some("{\"endpoint\":\"localhost:50051\",\"service\":\"demo\",\"status\":\"SERVING\"}")
    );
    assert_eq!(first.exit, None);
    let second = step(&mut run, WatchEvent::Update(2));
    assert_eq!(
        second.rendered.stdout.as_deref(),
        Some("{\"endpoint\":\"localhost:50051\",\"service\":\"demo\",\"status\":\"NOT_SERVING\"}")
    );
    assert_eq!(second.exit, None);
}

#[test]
fn a_closed_watch_exits_by_the_last_status() {
    for (raws, code) in [
        (vec![], 3),
        (vec![1], 0),
        (vec![2], 3),
        (vec![1, 2], 3),
        (vec![2, 3, 1], 0),
        (vec![1, 77], 3),
    ] {
        for shutdown in [false, true] {
            let mut run = WatchRun::new(&params(&[]), OutputFormat::Default);
            for raw in &raws {
                assert_eq!(step(&mut run, WatchEvent::Update(*raw)).exit, None);
            }
            let end = if shutdown {
                step(&mut run, WatchEvent::Shutdown)
            } else {
                step(&mut run, WatchEvent::Closed)
            };
            assert!(silent(&end));
            assert_eq!(end.exit, Some(code));
        }
    }
}

#[test]
fn a_watch_stops_after_consecutive_failures() {
    let mut p = params(&[]);
    p.watch_failures = Some(2);
    let mut run = WatchRun::new(&p, OutputFormat::Default);
    assert_eq!(step(&mut run, WatchEvent::Update(2)).exit, None);
    // A return to SERVING clears the streak.
    assert_eq!(step(&mut run, WatchEvent::Update(1)).exit, None);
    assert_eq!(step(&mut run, WatchEvent::Update(0)).exit, None);
    let last = step(&mut run, WatchEvent::Update(3));
    assert_eq!(last.exit, Some(3));
    // The update that ends the watch is still printed.
    assert_eq!(
        last.rendered.stdout.as_deref(),
        Some("status: SERVICE_UNKNOWN")
    );
}

#[test]
fn a_limit_of_one_stops_at_the_first_failure() {
    let mut p = params(&[]);
    p.watch_failures = Some(1);
    let mut run = WatchRun::new(&p, OutputFormat::Quiet);
    assert_eq!(step(&mut run, WatchEvent::Update(1)).exit, None);
    let last = step(&mut run, WatchEvent::Update(2));
    assert!(silent(&last));
    assert_eq!(last.exit, Some(3));
}

#[test]
fn a_watch_without_a_limit_goes_on() {
    let mut run = WatchRun::new(&params(&[]), OutputFormat::Quiet);
    for _ in 0..1000 {
        assert_eq!(step(&mut run, WatchEvent::Update(2)).exit, None);
    }
}

#[test]
fn a_stream_error_exits_two() {
    for format in FORMATS {
        let mut run = WatchRun::new(&params(&["demo"]), format);
        assert_eq!(step(&mut run, WatchEvent::Update(1)).exit, None);
        let end = step(&mut run, WatchEvent::Failed("reset".to_string()));
        assert_eq!(end.exit, Some(2));
        if format == OutputFormat::Default {
            assert_eq!(end.rendered.stderr.as_deref(), Some("rpc error: reset"));
            assert_eq!(end.rendered.stdout, None);
        }
    }
}

#[test]
fn a_watch_that_cannot_open_exits_by_its_failure() {
    for (err, code, text) in [
        (
            ProbeError::Transport("refused".to_string()),
            1,
            "connection failed: refused",
        ),
        (ProbeError::Rpc("gone".to_string()), 2, "rpc error: gone"),
        (ProbeError::ConnectTimeout, 4, "connection timed out"),
        (ProbeError::RequestTimeout, 4, "request timed out"),
    ] {
        let mut run = WatchRun::new(&params(&["demo"]), OutputFormat::Verbose);
        let end = step(&mut run, WatchEvent::OpenFailed(err));
        assert_eq!(end.exit, Some(code));
        assert_eq!(
            end.rendered.stderr,
            Some(format!(
                "endpoint: localhost:50051\nservice: demo\nerror: {text}"
            ))
        );
    }
}

#[test]
fn when_a_watch_ends_does_not_depend_on_the_format() {
    let mut p = params(&[]);
    p.watch_failures = Some(3);
    for raws in [[2, 2, 2, 1], [2, 1, 2, 2], [1, 2, 2, 2]] {
        let mut ends = Vec::new();
        for format in FORMATS {
            let mut run = WatchRun::new(&p, format);
            let exits: Vec<Option<u8>> = raws
                .iter()
                .map(|raw| step(&mut run, WatchEvent::Update(*raw)).exit)
                .collect();
            ends.push(exits);
        }
        assert_eq!(ends[0], ends[1]);
        assert_eq!(ends[0], ends[2]);
        assert_eq!(ends[0], ends[3]);
    }
}
