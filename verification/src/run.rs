//! The course of a probe: a one-shot check of several services, and a watch.

use vstd::prelude::*;

use crate::output::render;
use crate::output::render_run;
use crate::output::Outcome;
use crate::output::OutcomeView;
use crate::output::OutputFormat;
use crate::output::ProbeReport;
use crate::output::Rendered;
use crate::output::RenderedView;
use crate::output::ReportView;
use crate::probe::nonempty;
use crate::probe::ProbeError;
use crate::probe::ProbeErrorView;
use crate::probe::ProbeParams;
use crate::status::decode_status;
use crate::status::watch_exit_code;
use crate::status::worst_exit_code;
use crate::status::ServingStatus;
use crate::text::clone_opt;

verus! {

/// The result of probing one service: the service name checked
/// (None for the overall health) and either its status or the failure of that single call.
#[derive(Debug)]
pub struct ServiceResult {
    pub service: Option<String>,
    pub result: Result<ServingStatus, ProbeError>,
}

/// What a [`ServiceResult`] says.
pub struct ResultView {
    pub service: Option<Seq<char>>,
    pub outcome: OutcomeView,
}

/// What the result of a call says.
pub open spec fn outcome_of(result: Result<ServingStatus, ProbeError>) -> OutcomeView {
    match result {
        Ok(status) => OutcomeView::Status(status),
        Err(err) => OutcomeView::Error(err@),
    }
}

impl View for ServiceResult {
    type V = ResultView;

    open spec fn view(&self) -> ResultView {
        ResultView { service: crate::text::opt_text(self.service), outcome: outcome_of(self.result) }
    }
}

/// What a list of results says.
pub open spec fn results_view(results: Seq<ServiceResult>) -> Seq<ResultView> {
    results.map_values(|result: ServiceResult| result@)
}

/// The checks over one connection: the services to ask for, and the results of
/// those that were asked so far.
#[derive(Debug)]
pub struct CheckRun {
    services: Vec<String>,
    results: Vec<ServiceResult>,
}

impl CheckRun {
    #[verifier::type_invariant]
    spec fn wf(self) -> bool {
        &&& self.results@.len() <= self.services@.len()
        &&& forall|i: int|
            0 <= i < self.results@.len() ==> (#[trigger] self.results@[i])@.service
                == crate::probe::service_named(self.services@[i]@)
    }

    /// The service names to ask for.
    pub closed spec fn asked(self) -> Seq<Seq<char>> {
        crate::text::texts(self.services@)
    }

    /// The results so far.
    pub closed spec fn answers(self) -> Seq<ResultView> {
        results_view(self.results@)
    }

    /// The checks that `params` asks for, with no result yet.
    pub fn new(params: &ProbeParams) -> (r: CheckRun)
        ensures
            r.asked() == crate::probe::services_to_check(crate::text::texts(params.services@)),
            r.answers() == Seq::<ResultView>::empty(),
    {
        let r = CheckRun { services: params.service_list(), results: Vec::new() };
        assert(r.answers() =~= Seq::<ResultView>::empty());
        r
    }

    /// The service to ask for next, or `None` when every service was asked for.
    pub fn next_service(&self) -> (r: Option<&str>)
        ensures
            match r {
                Some(service) => self.answers().len() < self.asked().len() && service@
                    == self.asked()[self.answers().len() as int],
                None => self.answers().len() == self.asked().len(),
            },
    {
        proof {
            use_type_invariant(self);
        }
        if self.results.len() < self.services.len() {
            Some(self.services[self.results.len()].as_str())
        } else {
            None
        }
    }

    /// Records the result for the service that was next. A failure of one
    /// service does not keep the others from being asked for.
    pub fn record(&mut self, result: Result<ServingStatus, ProbeError>)
        requires
            old(self).answers().len() < old(self).asked().len(),
        ensures
            final(self).asked() == old(self).asked(),
            final(self).answers() == old(self).answers().push(
                ResultView {
                    service: crate::probe::service_named(
                        old(self).asked()[old(self).answers().len() as int],
                    ),
                    outcome: outcome_of(result),
                },
            ),
    {
        proof {
            use_type_invariant(&*self);
        }
        let ghost before = self.results@;
        let service: Option<String> = nonempty(self.services[self.results.len()].clone());
        let entry = ServiceResult { service, result };
        let mut results: Vec<ServiceResult> = Vec::new();
        std::mem::swap(&mut results, &mut self.results);
        results.push(entry);
        assert(results_view(results@) =~= results_view(before).push(entry@));
        self.results = results;
    }

    /// The results, in the order in which the services were asked for.
    pub fn finish(self) -> (r: Vec<ServiceResult>)
        ensures
            results_view(r@) == self.answers(),
            r@.len() <= self.asked().len(),
            forall|i: int|
                0 <= i < r@.len() ==> (#[trigger] r@[i])@.service == crate::probe::service_named(
                    self.asked()[i],
                ),
    {
        proof {
            use_type_invariant(&self);
        }
        self.results
    }
}

/// The end of a run: what to write, and the exit code.
#[derive(Debug)]
pub struct Finished {
    pub rendered: Rendered,
    pub code: u8,
}

/// How a run of checks went: the results of the services, or the failure to
/// connect.
pub enum RunView {
    Checked(Seq<ResultView>),
    Failed(ProbeErrorView),
}

/// What the outcome of a run says.
pub open spec fn run_view(outcome: Result<Vec<ServiceResult>, ProbeError>) -> RunView {
    match outcome {
        Ok(results) => RunView::Checked(results_view(results@)),
        Err(err) => RunView::Failed(err@),
    }
}

/// The reports of a run against an endpoint: one for each service, or a single
/// one for a failure to connect.
pub open spec fn run_reports(endpoint: Seq<char>, run: RunView) -> Seq<ReportView> {
    match run {
        RunView::Checked(results) => results.map_values(
            |result: ResultView| ReportView {
                endpoint,
                service: result.service,
                outcome: result.outcome,
            },
        ),
        RunView::Failed(err) => seq![
            ReportView { endpoint, service: None, outcome: OutcomeView::Error(err) },
        ],
    }
}

/// The exit codes of several reports.
pub open spec fn report_codes(reports: Seq<ReportView>) -> Seq<u8> {
    reports.map_values(|report: ReportView| report.outcome.code())
}

/// What a run writes and the code it exits with.
pub open spec fn run_end(endpoint: Seq<char>, run: RunView, format: OutputFormat) -> (
    RenderedView,
    u8,
) {
    let reports = run_reports(endpoint, run);
    (
        crate::output::rendering_run(reports, format),
        crate::status::worst(report_codes(reports)),
    )
}

/// Reports a one-shot check across every requested service: each of them, or a
/// connect-level failure once, and the exit code of the worst outcome.
pub fn check_report(
    params: &ProbeParams,
    outcome: Result<Vec<ServiceResult>, ProbeError>,
    format: OutputFormat,
) -> (r: Finished)
    ensures
        (r.rendered@, r.code) == run_end(
            crate::endpoint::authority(params.target.host_text(), params.target.port_number()),
            run_view(outcome),
            format,
        ),
{
    let ghost endpoint = crate::endpoint::authority(
        params.target.host_text(),
        params.target.port_number(),
    );
    let mut reports: Vec<ProbeReport> = Vec::new();
    let mut codes: Vec<u8> = Vec::new();
    let ghost wanted = run_reports(endpoint, run_view(outcome));
    match outcome {
        Ok(results) => {
            let ghost all = results@;
            for result in it: results
                invariant
                    it.seq() == all,
                    wanted == run_reports(endpoint, RunView::Checked(results_view(all))),
                    endpoint == crate::endpoint::authority(
                        params.target.host_text(),
                        params.target.port_number(),
                    ),
                    reports@.len() == it.index(),
                    codes@.len() == it.index(),
                    forall|j: int|
                        0 <= j < reports@.len() ==> (#[trigger] reports@[j])@ == wanted[j],
                    forall|j: int|
                        0 <= j < codes@.len() ==> #[trigger] codes@[j] == wanted[j].outcome.code(),
            {
                let ghost k = reports@.len() as int;
                assert(result == all[k]);
                let report = ProbeReport {
                    endpoint: params.target.to_string(),
                    service: result.service,
                    outcome: match result.result {
                        Ok(status) => Outcome::Status(status),
                        Err(err) => Outcome::Error(err),
                    },
                };
                assert(report@ == wanted[k]);
                codes.push(report.exit_code());
                reports.push(report);
            }
        },
        Err(err) => {
            let report = ProbeReport {
                endpoint: params.target.to_string(),
                service: None,
                outcome: Outcome::Error(err),
            };
            codes.push(report.exit_code());
            reports.push(report);
        },
    }
    assert(crate::output::reports_view(reports@) =~= wanted);
    assert(codes@ =~= report_codes(wanted));
    Finished { rendered: render_run(&reports, format), code: worst_exit_code(&codes) }
}

/// The exit code of a run never depends on the output format.
pub proof fn law_exit_code_ignores_format(
    endpoint: Seq<char>,
    run: RunView,
    a: OutputFormat,
    b: OutputFormat,
)
    ensures
        run_end(endpoint, run, a).1 == run_end(endpoint, run, b).1,
{
}

/// A run exits with 0 exactly when every service that was checked is SERVING;
/// otherwise it exits with the code of one of its outcomes, none of which is
/// more severe.
pub proof fn law_run_exits_with_worst(
    endpoint: Seq<char>,
    results: Seq<ServiceResult>,
    format: OutputFormat,
)
    ensures
        run_end(endpoint, RunView::Checked(results_view(results)), format).1 == 0 <==> (forall|
            i: int,
        |
            0 <= i < results.len() ==> (#[trigger] results[i]).result == Ok::<
                ServingStatus,
                ProbeError,
            >(ServingStatus::Serving)),
        results.len() > 0 ==> exists|i: int|
            0 <= i < results.len() && (#[trigger] results[i])@.outcome.code() == run_end(
                endpoint,
                RunView::Checked(results_view(results)),
                format,
            ).1,
        forall|i: int|
            0 <= i < results.len() ==> crate::status::rank(
                (#[trigger] results[i])@.outcome.code(),
            ) <= crate::status::rank(
                run_end(endpoint, RunView::Checked(results_view(results)), format).1,
            ),
{
    let run = RunView::Checked(results_view(results));
    let codes = report_codes(run_reports(endpoint, run));
    crate::status::law_worst_is_most_severe(codes);
    crate::status::law_success_needs_every_service(codes);
    assert forall|i: int| 0 <= i < results.len() implies codes[i] == (
    #[trigger] results[i])@.outcome.code() by {}
    if crate::status::worst(codes) == 0 {
        assert forall|i: int| 0 <= i < results.len() implies (#[trigger] results[i]).result == Ok::<
            ServingStatus,
            ProbeError,
        >(ServingStatus::Serving) by {
            assert(codes[i] == 0);
        }
    } else {
        let i = choose|i: int| 0 <= i < codes.len() && codes[i] == crate::status::worst(codes);
        assert(results[i]@.outcome.code() != 0);
    }
    if results.len() > 0 {
        let i = choose|i: int| 0 <= i < codes.len() && codes[i] == crate::status::worst(codes);
        assert(results[i]@.outcome.code() == crate::status::worst(codes));
    }
    assert forall|i: int| 0 <= i < results.len() implies crate::status::rank(
        (#[trigger] results[i])@.outcome.code(),
    ) <= crate::status::rank(crate::status::worst(codes)) by {
        assert(codes[i] == results[i]@.outcome.code());
    }
}

/// A failure to connect is reported once, for no service in particular, and the
/// run exits with its code.
pub proof fn law_connect_failure_is_reported_once(
    endpoint: Seq<char>,
    err: ProbeErrorView,
    format: OutputFormat,
)
    ensures
        run_end(endpoint, RunView::Failed(err), format) == (
            crate::output::rendering(
                ReportView {
                    endpoint,
                    service: None,
                    outcome: OutcomeView::Error(err),
                },
                format,
            ),
            err.code(),
        ),
{
    let reports = run_reports(endpoint, RunView::Failed(err));
    let codes = report_codes(reports);
    assert(codes =~= seq![err.code()]);
    crate::status::law_worst_is_most_severe(codes);
    assert(codes.contains(crate::status::worst(codes)));
}

/// A run exits with 0 exactly when the connection was established and every
/// service that was checked is SERVING.
pub proof fn law_success_means_healthy(
    endpoint: Seq<char>,
    outcome: Result<Vec<ServiceResult>, ProbeError>,
    format: OutputFormat,
)
    ensures
        run_end(endpoint, run_view(outcome), format).1 == 0 <==> (outcome matches Ok(results)
            && forall|i: int|
            0 <= i < results@.len() ==> (#[trigger] results@[i]).result == Ok::<
                ServingStatus,
                ProbeError,
            >(ServingStatus::Serving)),
{
    match outcome {
        Ok(results) => law_run_exits_with_worst(endpoint, results@, format),
        Err(err) => law_connect_failure_is_reported_once(endpoint, err@, format),
    }
}

/// Builds a single-service report for the watch stream against the probed target.
pub fn report(params: &ProbeParams, outcome: Outcome) -> (r: ProbeReport)
    ensures
        r@ == (ReportView {
            endpoint: crate::endpoint::authority(
                params.target.host_text(),
                params.target.port_number(),
            ),
            service: crate::probe::service_named(
                crate::probe::services_to_check(crate::text::texts(params.services@))[0],
            ),
            outcome: outcome@,
        }),
{
    ProbeReport {
        endpoint: params.target.to_string(),
        service: nonempty(params.watch_service()),
        outcome,
    }
}

/// What happens to a watch.
#[derive(Debug)]
pub enum WatchEvent {
    /// The stream could not be opened.
    OpenFailed(ProbeError),
    /// The server sent a wire status code.
    Update(i32),
    /// The server closed the stream.
    Closed,
    /// The stream failed, for the reason that is held.
    Failed(String),
    /// Ctrl-C / SIGTERM
    Shutdown,
}

/// What follows an event of a watch: what to write, and the exit code where the
/// watch is over.
#[derive(Debug)]
pub struct WatchStep {
    pub rendered: Rendered,
    pub exit: Option<u8>,
}

/// A watch stream in progress.
#[derive(Debug)]
pub struct WatchRun {
    endpoint: String,
    service: Option<String>,
    format: OutputFormat,
    limit: Option<u32>,
    last: Option<ServingStatus>,
    streak: u32,
}

/// What a [`WatchRun`] knows: what it watches and how it reports, and of the
/// updates the last one and how many in a row were not SERVING, counted up to
/// `u32::MAX`.
pub struct WatchView {
    pub endpoint: Seq<char>,
    pub service: Option<Seq<char>>,
    pub format: OutputFormat,
    pub limit: Option<u32>,
    pub last: Option<ServingStatus>,
    pub streak: nat,
}

impl View for WatchRun {
    type V = WatchView;

    closed spec fn view(&self) -> WatchView {
        WatchView {
            endpoint: self.endpoint@,
            service: crate::text::opt_text(self.service),
            format: self.format,
            limit: self.limit,
            last: self.last,
            streak: self.streak as nat,
        }
    }
}

impl WatchView {
    /// What is written for an outcome.
    pub open spec fn shown(self, outcome: OutcomeView) -> RenderedView {
        crate::output::rendering(
            ReportView { endpoint: self.endpoint, service: self.service, outcome },
            self.format,
        )
    }

    /// The watch after an update. A return to SERVING clears the streak.
    pub open spec fn updated(self, status: ServingStatus) -> WatchView {
        WatchView {
            last: Some(status),
            streak: if status == ServingStatus::Serving {
                0
            } else if self.streak < u32::MAX {
                self.streak + 1
            } else {
                self.streak
            },
            ..self
        }
    }

    /// Whether the streak has reached the limit.
    pub open spec fn gives_up(self) -> bool {
        self.last != Some(ServingStatus::Serving) && (self.limit matches Some(limit)
            && self.streak >= limit)
    }

    /// The watch after an event.
    pub open spec fn after(self, event: WatchEvent) -> WatchView {
        match event {
            WatchEvent::Update(raw) => self.updated(crate::status::decoded(raw)),
            _ => self,
        }
    }

    /// What is written for an event.
    pub open spec fn output(self, event: WatchEvent) -> RenderedView {
        match event {
            WatchEvent::OpenFailed(err) => self.shown(OutcomeView::Error(err@)),
            WatchEvent::Update(raw) => self.shown(
                OutcomeView::Status(crate::status::decoded(raw)),
            ),
            WatchEvent::Closed => crate::output::silence(),
            WatchEvent::Failed(reason) => self.shown(
                OutcomeView::Error(ProbeErrorView::Rpc(reason@)),
            ),
            WatchEvent::Shutdown => crate::output::silence(),
        }
    }

    /// The exit code after an event, where the watch is over.
    pub open spec fn exit(self, event: WatchEvent) -> Option<u8> {
        match event {
            WatchEvent::OpenFailed(err) => Some(err@.code()),
            WatchEvent::Update(raw) => if self.after(event).gives_up() {
                Some(crate::status::watch_code(self.after(event).last))
            } else {
                None
            },
            WatchEvent::Closed => Some(crate::status::watch_code(self.last)),
            WatchEvent::Failed(_) => Some(2),
            WatchEvent::Shutdown => Some(crate::status::watch_code(self.last)),
        }
    }
}

/// The watch that `params` asks for, before any update.
pub open spec fn watch_start(params: ProbeParams, format: OutputFormat) -> WatchView {
    WatchView {
        endpoint: crate::endpoint::authority(
            params.target.host_text(),
            params.target.port_number(),
        ),
        service: crate::probe::service_named(
            crate::probe::services_to_check(crate::text::texts(params.services@))[0],
        ),
        format,
        limit: params.watch_failures,
        last: None,
        streak: 0,
    }
}

impl WatchRun {
    /// A watch of the service that `params` name, before any update.
    pub fn new(params: &ProbeParams, format: OutputFormat) -> (r: WatchRun)
        ensures
            r@ == watch_start(*params, format),
    {
        WatchRun {
            endpoint: params.target.to_string(),
            service: nonempty(params.watch_service()),
            format,
            limit: params.watch_failures,
            last: None,
            streak: 0,
        }
    }

    /// What is written for an outcome.
    fn show(&self, outcome: Outcome) -> (r: Rendered)
        ensures
            r@ == self@.shown(outcome@),
    {
        let report = ProbeReport {
            endpoint: self.endpoint.clone(),
            service: clone_opt(&self.service),
            outcome,
        };
        render(&report, self.format)
    }

    /// Takes in an event of the stream. Each update is written out, and the
    /// watch ends by the last status observed when the server closes the
    /// stream, on a shutdown signal, or after as many non-serving updates in a
    /// row as `--watch-failures` says; a failure is written out and ends it too.
    pub fn on_event(&mut self, event: WatchEvent) -> (r: WatchStep)
        ensures
            final(self)@ == old(self)@.after(event),
            r.rendered@ == old(self)@.output(event),
            r.exit == old(self)@.exit(event),
    {
        match event {
            WatchEvent::OpenFailed(err) => {
                let code: u8 = err.exit_code();
                WatchStep { rendered: self.show(Outcome::Error(err)), exit: Some(code) }
            },
            WatchEvent::Update(raw) => {
                let status: ServingStatus = decode_status(raw);
                let rendered = self.show(Outcome::Status(status));
                self.last = Some(status);
                if status == ServingStatus::Serving {
                    self.streak = 0;
                    return WatchStep { rendered, exit: None };
                }
                if self.streak < u32::MAX {
                    self.streak = self.streak + 1;
                }
                let exit: Option<u8> = match self.limit {
                    Some(limit) => if self.streak >= limit {
                        Some(watch_exit_code(self.last))
                    } else {
                        None
                    },
                    None => None,
                };
                WatchStep { rendered, exit }
            },
            WatchEvent::Closed | WatchEvent::Shutdown => WatchStep {
                rendered: Rendered { stdout: None, stderr: None },
                exit: Some(watch_exit_code(self.last)),
            },
            WatchEvent::Failed(reason) => {
                let err = ProbeError::Rpc(reason);
                let code: u8 = err.exit_code();
                WatchStep { rendered: self.show(Outcome::Error(err)), exit: Some(code) }
            },
        }
    }
}

/// A watch after a series of updates.
pub open spec fn after_updates(start: WatchView, raws: Seq<i32>) -> WatchView
    decreases raws.len(),
{
    if raws.len() == 0 {
        start
    } else {
        after_updates(start, raws.drop_last()).after(WatchEvent::Update(raws.last()))
    }
}

/// How many of the last updates in a row were not SERVING.
pub open spec fn failing_tail(raws: Seq<i32>) -> nat
    decreases raws.len(),
{
    if raws.len() == 0 || crate::status::decoded(raws.last()) == ServingStatus::Serving {
        0
    } else {
        1 + failing_tail(raws.drop_last())
    }
}

/// A watch remembers the last update and how many updates in a row were not
/// SERVING, and nothing else changes.
pub proof fn law_watch_remembers(params: ProbeParams, format: OutputFormat, raws: Seq<i32>)
    ensures
        after_updates(watch_start(params, format), raws) == (WatchView {
            last: if raws.len() == 0 {
                None
            } else {
                Some(crate::status::decoded(raws.last()))
            },
            streak: if failing_tail(raws) <= u32::MAX {
                failing_tail(raws)
            } else {
                u32::MAX as nat
            },
            ..watch_start(params, format)
        }),
    decreases raws.len(),
{
    if raws.len() > 0 {
        law_watch_remembers(params, format, raws.drop_last());
    }
}

/// `--watch-failures N` ends the watch exactly at the update that makes the
/// last N updates non-serving, with exit code 3; without the flag no update
/// ends it. A SERVING update never does.
pub proof fn law_watch_failures(params: ProbeParams, format: OutputFormat, raws: Seq<i32>, raw: i32)
    ensures
        ({
            let before = after_updates(watch_start(params, format), raws);
            let tail = failing_tail(raws.push(raw));
            &&& before.exit(WatchEvent::Update(raw)) is Some <==> tail > 0 && (
            params.watch_failures matches Some(limit) && tail >= limit)
            &&& before.exit(WatchEvent::Update(raw)) matches Some(code) ==> code == 3
            &&& crate::status::decoded(raw) == ServingStatus::Serving ==> tail == 0
        }),
{
    law_watch_remembers(params, format, raws);
    assert(raws.push(raw).drop_last() == raws);
}

/// A watch that the server closes or a signal ends exits by the last status
/// observed, and with 3 where there was none.
pub proof fn law_watch_exits_by_last_status(
    params: ProbeParams,
    format: OutputFormat,
    raws: Seq<i32>,
)
    ensures
        ({
            let state = after_updates(watch_start(params, format), raws);
            let code = if raws.len() > 0 && crate::status::decoded(raws.last())
                == ServingStatus::Serving {
                0u8
            } else {
                3u8
            };
            &&& state.exit(WatchEvent::Closed) == Some(code)
            &&& state.exit(WatchEvent::Shutdown) == Some(code)
        }),
{
    law_watch_remembers(params, format, raws);
}

/// When and how a watch ends never depends on the output format.
pub proof fn law_watch_exit_ignores_format(
    params: ProbeParams,
    a: OutputFormat,
    b: OutputFormat,
    raws: Seq<i32>,
    event: WatchEvent,
)
    ensures
        after_updates(watch_start(params, a), raws).exit(event) == after_updates(
            watch_start(params, b),
            raws,
        ).exit(event),
{
    law_watch_remembers(params, a, raws);
    law_watch_remembers(params, b, raws);
}

/// What a result says: its service, and exactly the status or the error it holds.
pub proof fn law_results_say_all(result: ServiceResult, results: Seq<ServiceResult>)
    ensures
        result.service matches Some(service) ==> result@.service == Some(service@),
        result.service is None ==> result@.service is None,
        result.result matches Ok(status) ==> result@.outcome == OutcomeView::Status(status)
            && outcome_of(result.result) == OutcomeView::Status(status),
        result.result matches Err(err) ==> result@.outcome == OutcomeView::Error(err@)
            && outcome_of(result.result) == OutcomeView::Error(err@),
        results_view(results).len() == results.len(),
        forall|i: int| 0 <= i < results.len() ==> #[trigger] results_view(results)[i] == results[i]@,
{
}

/// A finished run has one report for each result, in their order: it has the
/// endpoint, the service of the result, and the very status or error that the
/// result holds. What is written is these reports, and the exit code is the worst
/// of theirs.
pub proof fn law_run_reports_each_result(
    endpoint: Seq<char>,
    results: Vec<ServiceResult>,
    reports: Seq<ReportView>,
    codes: Seq<u8>,
    format: OutputFormat,
)
    requires
        reports.len() == results@.len(),
        codes.len() == results@.len(),
        forall|i: int|
            0 <= i < reports.len() ==> {
                &&& (#[trigger] reports[i]).endpoint == endpoint
                &&& reports[i].service == crate::text::opt_text(results@[i].service)
                &&& match results@[i].result {
                    Ok(status) => reports[i].outcome == OutcomeView::Status(status),
                    Err(err) => reports[i].outcome == OutcomeView::Error(err@),
                }
            },
        forall|i: int|
            0 <= i < codes.len() ==> #[trigger] codes[i] == match results@[i].result {
                Ok(status) => crate::status::status_code(status),
                Err(err) => err@.code(),
            },
    ensures
        run_reports(endpoint, run_view(Ok(results))) == reports,
        run_end(endpoint, run_view(Ok(results)), format).0 == crate::output::rendering_run(
            reports,
            format,
        ),
        run_end(endpoint, run_view(Ok(results)), format).1 == crate::status::worst(codes),
{
    let made = run_reports(endpoint, run_view(Ok(results)));
    assert forall|i: int| 0 <= i < made.len() implies made[i] == reports[i] by {
        assert(reports[i].endpoint == endpoint);
    }
    assert(made =~= reports);
    assert(report_codes(reports) =~= codes) by {
        assert forall|i: int| 0 <= i < codes.len() implies report_codes(reports)[i] == codes[i] by {
            assert(reports[i].endpoint == endpoint);
        }
    }
}

/// A failure to connect is one report without a service, with that very error.
pub proof fn law_run_reports_its_failure(
    endpoint: Seq<char>,
    err: ProbeError,
    report: ReportView,
    format: OutputFormat,
)
    requires
        report.endpoint == endpoint,
        report.service is None,
        report.outcome == OutcomeView::Error(err@),
    ensures
        run_end(endpoint, run_view(Err(err)), format) == (
            crate::output::rendering(report, format),
            err@.code(),
        ),
{
    law_connect_failure_is_reported_once(endpoint, err@, format);
}

/// A single service that is checked is written by its very status: in plain mode
/// runs of different statuses write different texts.
pub proof fn law_runs_are_told_apart(
    endpoint: Seq<char>,
    a: ServiceResult,
    b: ServiceResult,
    format: OutputFormat,
)
    requires
        format != OutputFormat::Quiet,
        a@.service == b@.service,
        run_end(endpoint, RunView::Checked(seq![a@]), format).0 == run_end(
            endpoint,
            RunView::Checked(seq![b@]),
            format,
        ).0,
    ensures
        a.result is Ok <==> b.result is Ok,
        a.result matches Ok(status) ==> b.result == Ok::<ServingStatus, ProbeError>(status),
        a.result matches Err(err) ==> (b.result matches Err(other) && other@.message()
            == err@.message()),
{
    let x = ReportView { endpoint, service: a@.service, outcome: a@.outcome };
    let y = ReportView { endpoint, service: b@.service, outcome: b@.outcome };
    assert(run_reports(endpoint, RunView::Checked(seq![a@])) =~= seq![x]);
    assert(run_reports(endpoint, RunView::Checked(seq![b@])) =~= seq![y]);
    crate::output::law_outcomes_are_told_apart(x, y, format);
}

/// A watch begins with no update seen, and reports the target's endpoint and the
/// first service that was given, in the format that was chosen.
pub proof fn law_watch_begins(params: ProbeParams, format: OutputFormat)
    ensures
        ({
            let start = watch_start(params, format);
            &&& start.endpoint == crate::endpoint::authority(
                params.target.host_text(),
                params.target.port_number(),
            )
            &&& params.services@.len() == 0 ==> start.service is None
            &&& params.services@.len() > 0 && params.services@[0]@.len() == 0
                ==> start.service is None
            &&& params.services@.len() > 0 && params.services@[0]@.len() > 0 ==> start.service
                == Some(params.services@[0]@)
            &&& start.format == format
            &&& start.limit == params.watch_failures
            &&& start.last is None
            &&& start.streak == 0
        }),
{
}

/// Every update is written, whatever came before it: as a report of the watched
/// endpoint and service with the status that was sent, in the chosen format. Only
/// quiet mode is silent.
pub proof fn law_each_update_is_written(state: WatchView, other: WatchView, raw: i32)
    ensures
        state.output(WatchEvent::Update(raw)) == crate::output::rendering(
            ReportView {
                endpoint: state.endpoint,
                service: state.service,
                outcome: OutcomeView::Status(crate::status::decoded(raw)),
            },
            state.format,
        ),
        state.format != OutputFormat::Quiet ==> state.output(WatchEvent::Update(raw)).stdout is Some
            && state.output(WatchEvent::Update(raw)).stderr is None,
        state.endpoint == other.endpoint && state.service == other.service && state.format
            == other.format ==> state.output(WatchEvent::Update(raw)) == other.output(
            WatchEvent::Update(raw),
        ),
{
}

/// After any series of updates a further one is written as if it were the first.
pub proof fn law_updates_do_not_hide_others(
    params: ProbeParams,
    format: OutputFormat,
    raws: Seq<i32>,
    raw: i32,
)
    ensures
        after_updates(watch_start(params, format), raws).output(WatchEvent::Update(raw))
            == crate::output::rendering(
            ReportView {
                endpoint: crate::endpoint::authority(
                    params.target.host_text(),
                    params.target.port_number(),
                ),
                service: watch_start(params, format).service,
                outcome: OutcomeView::Status(crate::status::decoded(raw)),
            },
            format,
        ),
        after_updates(watch_start(params, format), raws).output(WatchEvent::Update(raw))
            == watch_start(params, format).output(WatchEvent::Update(raw)),
        format != OutputFormat::Quiet ==> after_updates(watch_start(params, format), raws).output(
            WatchEvent::Update(raw),
        ).stdout is Some,
{
    law_watch_remembers(params, format, raws);
}

/// An update becomes the last status. SERVING sets the streak back to 0 and goes
/// on; any other status lengthens the streak by one and ends the watch, with 3,
/// exactly when there is a limit and the streak has reached it.
pub proof fn law_update_is_counted(state: WatchView, raw: i32)
    requires
        state.streak <= u32::MAX,
    ensures
        ({
            let status = crate::status::decoded(raw);
            let after = state.after(WatchEvent::Update(raw));
            let exit = state.exit(WatchEvent::Update(raw));
            &&& after.last == Some(status)
            &&& status == ServingStatus::Serving ==> after.streak == 0 && exit is None
            &&& status != ServingStatus::Serving && state.streak < u32::MAX ==> after.streak
                == state.streak + 1
            &&& status != ServingStatus::Serving && state.streak == u32::MAX ==> after.streak
                == u32::MAX
            &&& status != ServingStatus::Serving ==> (exit is Some <==> (
            state.limit matches Some(limit) && after.streak >= limit))
            &&& exit matches Some(code) ==> code == 3
            &&& after.endpoint == state.endpoint && after.service == state.service && after.format
                == state.format && after.limit == state.limit
        }),
{
}

/// A stream that is closed, or a signal, writes nothing and ends the watch by the
/// last status: with 0 if that is SERVING, and with 3 if it is another or there
/// was none.
pub proof fn law_end_of_watch(state: WatchView)
    ensures
        ({
            let code: u8 = if state.last == Some(ServingStatus::Serving) {
                0
            } else {
                3
            };
            &&& state.exit(WatchEvent::Closed) == Some(code)
            &&& state.exit(WatchEvent::Shutdown) == Some(code)
            &&& state.output(WatchEvent::Closed).stdout is None
            &&& state.output(WatchEvent::Closed).stderr is None
            &&& state.output(WatchEvent::Shutdown).stdout is None
            &&& state.output(WatchEvent::Shutdown).stderr is None
            &&& state.after(WatchEvent::Closed) == state
            &&& state.after(WatchEvent::Shutdown) == state
        }),
{
}

/// A stream that fails, or cannot be opened, is written as a report with that very
/// error and ends the watch: with 2 if it fails, and with the code of its error if
/// it cannot be opened.
pub proof fn law_failed_watch(state: WatchView, err: ProbeError, reason: String)
    ensures
        state.exit(WatchEvent::OpenFailed(err)) == Some(err@.code()),
        state.output(WatchEvent::OpenFailed(err)) == crate::output::rendering(
            ReportView {
                endpoint: state.endpoint,
                service: state.service,
                outcome: OutcomeView::Error(err@),
            },
            state.format,
        ),
        state.after(WatchEvent::OpenFailed(err)) == state,
        state.exit(WatchEvent::Failed(reason)) == Some(2u8),
        state.output(WatchEvent::Failed(reason)) == crate::output::rendering(
            ReportView {
                endpoint: state.endpoint,
                service: state.service,
                outcome: OutcomeView::Error(ProbeError::Rpc(reason)@),
            },
            state.format,
        ),
        state.after(WatchEvent::Failed(reason)) == state,
{
}

} // verus!
