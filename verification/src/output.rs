//! Rendering of probe results into the format selected on the command line.

use vstd::prelude::*;
use vstd::string::StringExecFns;

use crate::json::array_text;
use crate::json::object_text;
use crate::probe::ProbeError;
use crate::probe::ProbeErrorView;
use crate::status::status_exit_code;
use crate::status::status_name;
use crate::status::ServingStatus;
use crate::text::clone_opt;
use crate::text::join;

verus! {

/// How a probe result is written out. The exit code does not depend on the
/// format.
#[derive(Debug, Clone, Copy, PartialEq, Eq, Structural)]
pub enum OutputFormat {
    /// Status word on success, error text on stderr (default).
    Default,
    /// Human-readable detail: endpoint, service and status.
    Verbose,
    /// A single machine-readable JSON object.
    Json,
    /// Nothing printed; rely on the exit code alone.
    Quiet,
}

/// A single probe result: the endpoint dialed, the service checked, and the
/// outcome.
#[derive(Debug)]
pub struct ProbeReport {
    pub endpoint: String,
    pub service: Option<String>,
    pub outcome: Outcome,
}

/// The outcome of one probe: a reported serving status or a failure.
#[derive(Debug)]
pub enum Outcome {
    Status(ServingStatus),
    Error(ProbeError),
}

/// What to write to each stream; `None` means nothing goes to that stream.
#[derive(Debug)]
pub struct Rendered {
    pub stdout: Option<String>,
    pub stderr: Option<String>,
}

/// What a [`ProbeReport`] says.
pub struct ReportView {
    pub endpoint: Seq<char>,
    pub service: Option<Seq<char>>,
    pub outcome: OutcomeView,
}

/// What an [`Outcome`] says: a status or a failure.
pub enum OutcomeView {
    Status(ServingStatus),
    Error(ProbeErrorView),
}

/// What a [`Rendered`] writes.
#[verifier::ext_equal]
pub struct RenderedView {
    pub stdout: Option<Seq<char>>,
    pub stderr: Option<Seq<char>>,
}

impl View for Outcome {
    type V = OutcomeView;

    open spec fn view(&self) -> OutcomeView {
        match *self {
            Outcome::Status(status) => OutcomeView::Status(status),
            Outcome::Error(err) => OutcomeView::Error(err@),
        }
    }
}

impl View for ProbeReport {
    type V = ReportView;

    open spec fn view(&self) -> ReportView {
        ReportView {
            endpoint: self.endpoint@,
            service: crate::text::opt_text(self.service),
            outcome: self.outcome@,
        }
    }
}

impl View for Rendered {
    type V = RenderedView;

    open spec fn view(&self) -> RenderedView {
        RenderedView {
            stdout: crate::text::opt_text(self.stdout),
            stderr: crate::text::opt_text(self.stderr),
        }
    }
}

/// What a list of reports says.
pub open spec fn reports_view(reports: Seq<ProbeReport>) -> Seq<ReportView> {
    reports.map_values(|report: ProbeReport| report@)
}

impl OutcomeView {
    /// The exit code of this outcome.
    pub open spec fn code(self) -> u8 {
        match self {
            OutcomeView::Status(status) => crate::status::status_code(status),
            OutcomeView::Error(err) => err.code(),
        }
    }
}

impl ReportView {
    /// The service, or the marker for overall health.
    pub open spec fn label(self) -> Seq<char> {
        match self.service {
            Some(service) => service,
            None => "(overall)"@,
        }
    }

    /// The fields of this report as a JSON object.
    pub open spec fn fields(self) -> Seq<(Seq<char>, Option<Seq<char>>)> {
        match self.outcome {
            OutcomeView::Status(status) => seq![
                ("endpoint"@, Some(self.endpoint)),
                ("service"@, self.service),
                ("status"@, Some(crate::status::status_word(status))),
            ],
            OutcomeView::Error(err) => seq![
                ("endpoint"@, Some(self.endpoint)),
                ("error"@, Some(err.message())),
                ("service"@, self.service),
            ],
        }
    }
}

/// Nothing on either stream.
pub open spec fn silence() -> RenderedView {
    RenderedView { stdout: None, stderr: None }
}

/// A text on stdout alone.
pub open spec fn to_stdout(text: Seq<char>) -> RenderedView {
    RenderedView { stdout: Some(text), stderr: None }
}

/// A text on stderr alone.
pub open spec fn to_stderr(text: Seq<char>) -> RenderedView {
    RenderedView { stdout: None, stderr: Some(text) }
}

/// The lines that verbose mode starts with.
pub open spec fn verbose_head(report: ReportView) -> Seq<char> {
    "endpoint: "@ + report.endpoint + "\nservice: "@ + report.label()
}

/// What is written for one report.
pub open spec fn rendering(report: ReportView, format: OutputFormat) -> RenderedView {
    match format {
        OutputFormat::Default => match report.outcome {
            OutcomeView::Status(status) => to_stdout(
                "status: "@ + crate::status::status_word(status),
            ),
            OutcomeView::Error(err) => to_stderr(err.message()),
        },
        OutputFormat::Verbose => match report.outcome {
            OutcomeView::Status(status) => to_stdout(
                verbose_head(report) + "\nstatus: "@ + crate::status::status_word(status),
            ),
            OutcomeView::Error(err) => to_stderr(
                verbose_head(report) + "\nerror: "@ + err.message(),
            ),
        },
        OutputFormat::Json => to_stdout(crate::json::json_object(report.fields())),
        OutputFormat::Quiet => silence(),
    }
}

/// The line of each report that has a status.
pub open spec fn status_lines(reports: Seq<ReportView>) -> Seq<Seq<char>>
    decreases reports.len(),
{
    if reports.len() == 0 {
        seq![]
    } else {
        let front = status_lines(reports.drop_last());
        match reports.last().outcome {
            OutcomeView::Status(status) => front.push(
                reports.last().label() + ": "@ + crate::status::status_word(status),
            ),
            OutcomeView::Error(_) => front,
        }
    }
}

/// The line of each report that is a failure.
pub open spec fn error_lines(reports: Seq<ReportView>) -> Seq<Seq<char>>
    decreases reports.len(),
{
    if reports.len() == 0 {
        seq![]
    } else {
        let front = error_lines(reports.drop_last());
        match reports.last().outcome {
            OutcomeView::Status(_) => front,
            OutcomeView::Error(err) => front.push(
                reports.last().label() + ": "@ + err.message(),
            ),
        }
    }
}

/// The line that verbose mode puts before the services of a run.
pub open spec fn endpoint_lines(reports: Seq<ReportView>, verbose: bool) -> Seq<Seq<char>> {
    if verbose && reports.len() > 0 {
        seq!["endpoint: "@ + reports[0].endpoint]
    } else {
        seq![]
    }
}

/// Several lines as one text, or nothing where there is no line.
pub open spec fn block(lines: Seq<Seq<char>>) -> Option<Seq<char>> {
    if lines.len() == 0 {
        None
    } else {
        Some(crate::text::joined(lines, "\n"@))
    }
}

/// What the text modes write for several reports: one line for each, statuses
/// on stdout and failures on stderr.
pub open spec fn listing(reports: Seq<ReportView>, verbose: bool) -> RenderedView {
    RenderedView {
        stdout: block(endpoint_lines(reports, verbose) + status_lines(reports)),
        stderr: block(error_lines(reports)),
    }
}

/// What is written for several reports.
pub open spec fn rendering_many(reports: Seq<ReportView>, format: OutputFormat) -> RenderedView {
    match format {
        OutputFormat::Quiet => silence(),
        OutputFormat::Json => to_stdout(
            crate::json::json_array(reports.map_values(|report: ReportView| report.fields())),
        ),
        OutputFormat::Default => listing(reports, false),
        OutputFormat::Verbose => listing(reports, true),
    }
}

/// What is written for a whole run.
pub open spec fn rendering_run(reports: Seq<ReportView>, format: OutputFormat) -> RenderedView {
    if reports.len() == 1 {
        rendering(reports[0], format)
    } else {
        rendering_many(reports, format)
    }
}

impl ProbeReport {
    /// Process exit code for this result.
    pub fn exit_code(&self) -> (r: u8)
        ensures
            r == self@.outcome.code(),
    {
        match &self.outcome {
            Outcome::Status(status) => status_exit_code(*status),
            Outcome::Error(err) => err.exit_code(),
        }
    }

    /// Service label for human-readable output, or "(overall)" when no service is set.
    pub fn service_label(&self) -> (r: &str)
        ensures
            r@ == self@.label(),
    {
        match &self.service {
            Some(service) => service.as_str(),
            None => "(overall)",
        }
    }
}

/// Renders a whole run. One service keeps the flat single-result format that
/// scripts already parse; several services list each one, and JSON becomes an
/// array.
pub fn render_run(reports: &[ProbeReport], format: OutputFormat) -> (r: Rendered)
    ensures
        r@ == rendering_run(reports_view(reports@), format),
{
    if reports.len() == 1 {
        render(&reports[0], format)
    } else {
        render_many(reports, format)
    }
}

/// Renders a probe result in the requested format.
pub fn render(report: &ProbeReport, format: OutputFormat) -> (r: Rendered)
    ensures
        r@ == rendering(report@, format),
{
    match format {
        OutputFormat::Default => render_default(report),
        OutputFormat::Verbose => render_verbose(report),
        OutputFormat::Json => Rendered {
            stdout: Some(object_text(&report_fields(report))),
            stderr: None,
        },
        OutputFormat::Quiet => Rendered { stdout: None, stderr: None },
    }
}

/// Plain mode: the status word on stdout, or the error on stderr.
fn render_default(report: &ProbeReport) -> (r: Rendered)
    ensures
        r@ == rendering(report@, OutputFormat::Default),
{
    match &report.outcome {
        Outcome::Status(status) => Rendered {
            stdout: Some("status: ".to_owned().concat(status_name(*status))),
            stderr: None,
        },
        Outcome::Error(err) => Rendered { stdout: None, stderr: Some(err.to_string()) },
    }
}

/// Verbose mode: endpoint and service on lines of their own, then status or error.
fn render_verbose(report: &ProbeReport) -> (r: Rendered)
    ensures
        r@ == rendering(report@, OutputFormat::Verbose),
{
    let head = "endpoint: ".to_owned().concat(report.endpoint.as_str()).concat(
        "\nservice: ",
    ).concat(report.service_label());
    match &report.outcome {
        Outcome::Status(status) => Rendered {
            stdout: Some(head.concat("\nstatus: ").concat(status_name(*status))),
            stderr: None,
        },
        Outcome::Error(err) => Rendered {
            stdout: None,
            stderr: Some(head.concat("\nerror: ").concat(err.to_string().as_str())),
        },
    }
}

/// One report as the fields of a JSON object. Success and failure share the
/// object shape so a parser reads the same fields either way; reused for the
/// single-object and the multi-service array forms.
fn report_fields(report: &ProbeReport) -> (r: Vec<(String, Option<String>)>)
    ensures
        describes(r, *report),
{
    let mut r: Vec<(String, Option<String>)> = Vec::new();
    r.push(("endpoint".to_owned(), Some(report.endpoint.clone())));
    match &report.outcome {
        Outcome::Status(status) => {
            r.push(("service".to_owned(), clone_opt(&report.service)));
            r.push(("status".to_owned(), Some(status_name(*status).to_owned())));
        },
        Outcome::Error(err) => {
            r.push(("error".to_owned(), Some(err.to_string())));
            r.push(("service".to_owned(), clone_opt(&report.service)));
        },
    }
    proof {
        lemma_fields_ascend(report@);
    }
    assert(crate::json::fields_view(r@) =~= report@.fields());
    r
}

/// Whether `fields` are the fields of `report`, in the order of their names.
spec fn describes(fields: Vec<(String, Option<String>)>, report: ProbeReport) -> bool {
    &&& crate::json::fields_view(fields@) == report@.fields()
    &&& crate::json::names_ascend(report@.fields())
}

/// The fields of a report stand in the order of their names.
proof fn lemma_fields_ascend(report: ReportView)
    ensures
        crate::json::names_ascend(report.fields()),
{
    reveal_strlit("endpoint");
    reveal_strlit("error");
    reveal_strlit("service");
    reveal_strlit("status");
    assert("endpoint"@.take(0) == "service"@.take(0));
    assert("error"@.take(0) == "service"@.take(0));
    assert("endpoint"@.take(1) == "error"@.take(1));
    assert("service"@.take(1) == "status"@.take(1));
}

/// Renders several services at once. JSON is an array of per-service objects;
/// the text modes list one line per service, statuses on stdout and errors on
/// stderr, with verbose prefixing the shared endpoint once.
fn render_many(reports: &[ProbeReport], format: OutputFormat) -> (r: Rendered)
    ensures
        r@ == rendering_many(reports_view(reports@), format),
{
    match format {
        OutputFormat::Quiet => Rendered { stdout: None, stderr: None },
        OutputFormat::Json => {
            let mut objects: Vec<Vec<(String, Option<String>)>> = Vec::new();
            let mut i: usize = 0;
            while i < reports.len()
                invariant
                    i <= reports.len(),
                    objects.len() == i,
                    forall|j: int| 0 <= j < i ==> describes(#[trigger] objects@[j], reports@[j]),
                decreases reports.len() - i,
            {
                let ghost before = objects@;
                let fields = report_fields(&reports[i]);
                objects.push(fields);
                proof {
                    assert forall|j: int| 0 <= j < i + 1 implies describes(
                        #[trigger] objects@[j],
                        reports@[j],
                    ) by {
                        if j < i {
                            assert(objects@[j] == before[j]);
                        } else {
                            assert(objects@[j] == fields);
                        }
                    }
                }
                i += 1;
            }
            proof {
                assert(crate::json::objects_view(objects@) =~= reports_view(reports@).map_values(
                    |report: ReportView| report.fields(),
                ));
            }
            Rendered { stdout: Some(array_text(&objects)), stderr: None }
        },
        OutputFormat::Default => render_many_lines(reports, false),
        OutputFormat::Verbose => render_many_lines(reports, true),
    }
}

/// Builds per-service lines for the text modes.
fn render_many_lines(reports: &[ProbeReport], verbose: bool) -> (r: Rendered)
    ensures
        r@ == listing(reports_view(reports@), verbose),
{
    let ghost all = reports_view(reports@);
    let mut out: Vec<String> = Vec::new();
    let mut err: Vec<String> = Vec::new();
    if verbose && reports.len() > 0 {
        out.push("endpoint: ".to_owned().concat(reports[0].endpoint.as_str()));
    }
    assert(crate::text::texts(out@) =~= endpoint_lines(all, verbose));
    let mut i: usize = 0;
    while i < reports.len()
        invariant
            i <= reports.len(),
            all == reports_view(reports@),
            crate::text::texts(out@) == endpoint_lines(all, verbose) + status_lines(
                all.take(i as int),
            ),
            crate::text::texts(err@) == error_lines(all.take(i as int)),
        decreases reports.len() - i,
    {
        let report: &ProbeReport = &reports[i];
        proof {
            assert(all.take(i + 1).drop_last() == all.take(i as int));
            assert(all.take(i + 1).last() == report@);
        }
        let head = report.service_label().to_owned().concat(": ");
        let ghost out_before = out@;
        let ghost err_before = err@;
        match &report.outcome {
            Outcome::Status(status) => {
                let line = head.concat(status_name(*status));
                out.push(line);
                assert(crate::text::texts(out@) =~= crate::text::texts(out_before).push(line@));
            },
            Outcome::Error(e) => {
                let line = head.concat(e.to_string().as_str());
                err.push(line);
                assert(crate::text::texts(err@) =~= crate::text::texts(err_before).push(line@));
            },
        }
        assert(crate::text::texts(out@) =~= endpoint_lines(all, verbose) + status_lines(
            all.take(i + 1),
        ));
        i += 1;
    }
    proof {
        assert(all.take(all.len() as int) == all);
    }
    Rendered { stdout: join_block(&out), stderr: join_block(&err) }
}

/// Joins lines into one text, or nothing where there is no line.
fn join_block(lines: &Vec<String>) -> (r: Option<String>)
    ensures
        crate::text::opt_text(r) == block(crate::text::texts(lines@)),
{
    if lines.is_empty() {
        None
    } else {
        Some(join(lines, "\n"))
    }
}

/// `--quiet` writes nothing, whatever the result.
pub proof fn law_quiet_is_silent(reports: Seq<ReportView>)
    ensures
        rendering_run(reports, OutputFormat::Quiet) == silence(),
{
}

/// A run of one service is written exactly as a single result.
pub proof fn law_single_report_is_flat(report: ReportView, format: OutputFormat)
    ensures
        rendering_run(seq![report], format) == rendering(report, format),
{
}

/// The text modes write a status to stdout and a failure to stderr, and to no
/// other stream.
pub proof fn law_statuses_and_errors_part(report: ReportView, format: OutputFormat)
    requires
        format == OutputFormat::Default || format == OutputFormat::Verbose,
    ensures
        rendering(report, format).stdout is Some <==> report.outcome is Status,
        rendering(report, format).stderr is Some <==> report.outcome is Error,
{
}

/// In a listing every report has its line, statuses among the status lines and
/// failures among the error lines, in the order of the reports.
pub proof fn law_every_report_is_listed(reports: Seq<ReportView>, i: int)
    requires
        0 <= i < reports.len(),
    ensures
        status_lines(reports).len() + error_lines(reports).len() == reports.len(),
        match reports[i].outcome {
            OutcomeView::Status(status) => status_lines(reports.take(i)).len() < status_lines(
                reports,
            ).len() && status_lines(reports)[status_lines(reports.take(i)).len() as int]
                == reports[i].label() + ": "@ + crate::status::status_word(status),
            OutcomeView::Error(err) => error_lines(reports.take(i)).len() < error_lines(
                reports,
            ).len() && error_lines(reports)[error_lines(reports.take(i)).len() as int]
                == reports[i].label() + ": "@ + err.message(),
        },
    decreases reports.len(),
{
    let front = reports.drop_last();
    assert(front.take(front.len() as int) == front);
    if i < front.len() {
        law_every_report_is_listed(front, i);
        assert(front.take(i) == reports.take(i));
    } else {
        assert(reports.take(i) == front);
        if front.len() > 0 {
            law_every_report_is_listed(front, 0);
        }
    }
}

/// JSON goes to stdout alone, as a single line: one object for one service, and
/// for several an array of the objects that each would be on its own.
pub proof fn law_json_objects(reports: Seq<ReportView>)
    ensures
        rendering_run(reports, OutputFormat::Json).stderr is None,
        reports.len() == 1 ==> rendering_run(reports, OutputFormat::Json) == to_stdout(
            crate::json::json_object(reports[0].fields()),
        ),
        reports.len() != 1 ==> rendering_run(reports, OutputFormat::Json) == to_stdout(
            "["@ + crate::text::joined(
                reports.map_values(
                    |report: ReportView| rendering(report, OutputFormat::Json).stdout->Some_0,
                ),
                ","@,
            ) + "]"@,
        ),
        crate::json::single_line(rendering_run(reports, OutputFormat::Json).stdout->Some_0),
{
    assert(reports.map_values(|report: ReportView| report.fields()).map_values(
        |fields: Seq<(Seq<char>, Option<Seq<char>>)>| crate::json::json_object(fields),
    ) =~= reports.map_values(
        |report: ReportView| rendering(report, OutputFormat::Json).stdout->Some_0,
    ));
    if reports.len() == 1 {
        crate::json::law_json_object_is_a_line(reports[0].fields());
    } else {
        crate::json::law_json_array_is_a_line(
            reports.map_values(|report: ReportView| report.fields()),
        );
    }
}

/// Success and failure share the shape of their JSON object: the endpoint, the
/// service (null for overall health), and either the status or the error.
pub proof fn law_json_shape(report: ReportView)
    ensures
        report.fields().len() == 3,
        report.fields().contains(("endpoint"@, Some(report.endpoint))),
        report.fields().contains(("service"@, report.service)),
        match report.outcome {
            OutcomeView::Status(status) => report.fields().contains(
                ("status"@, Some(crate::status::status_word(status))),
            ),
            OutcomeView::Error(err) => report.fields().contains(
                ("error"@, Some(err.message())),
            ),
        },
{
    assert(report.fields()[0] == ("endpoint"@, Some(report.endpoint)));
    match report.outcome {
        OutcomeView::Status(status) => {
            assert(report.fields()[1] == ("service"@, report.service));
            assert(report.fields()[2] == ("status"@, Some(crate::status::status_word(status))));
        },
        OutcomeView::Error(err) => {
            assert(report.fields()[1] == ("error"@, Some(err.message())));
            assert(report.fields()[2] == ("service"@, report.service));
        },
    }
}

/// Whether two reports say the same, a failure by its message.
pub open spec fn says_the_same(a: ReportView, b: ReportView) -> bool {
    &&& a.endpoint == b.endpoint
    &&& a.service == b.service
    &&& match (a.outcome, b.outcome) {
        (OutcomeView::Status(s), OutcomeView::Status(t)) => s == t,
        (OutcomeView::Error(e), OutcomeView::Error(f)) => e.message() == f.message(),
        _ => false,
    }
}

/// Reports with the same fields say the same.
proof fn lemma_fields_tell_report(a: ReportView, b: ReportView)
    requires
        a.fields() == b.fields(),
    ensures
        says_the_same(a, b),
{
    reveal_strlit("error");
    reveal_strlit("service");
    reveal_strlit("UNKNOWN");
    reveal_strlit("SERVING");
    reveal_strlit("NOT_SERVING");
    reveal_strlit("SERVICE_UNKNOWN");
    assert("error"@[0] != "service"@[0]);
    assert("UNKNOWN"@[0] != "SERVING"@[0]);
    let f = a.fields();
    let g = b.fields();
    assert(f[0] == g[0] && f[1] == g[1] && f[2] == g[2]);
    match (a.outcome, b.outcome) {
        (OutcomeView::Status(s), OutcomeView::Status(t)) => {
            assert(f[1] == ("service"@, a.service) && g[1] == ("service"@, b.service));
            assert(f[2].1 == Some(crate::status::status_word(s)));
            assert(g[2].1 == Some(crate::status::status_word(t)));
            assert(crate::status::status_word(s).len() == crate::status::status_word(t).len());
            assert(crate::status::status_word(s)[0] == crate::status::status_word(t)[0]);
        },
        (OutcomeView::Error(d), OutcomeView::Error(e)) => {
            assert(f[1].1 == Some(d.message()) && g[1].1 == Some(e.message()));
            assert(f[2] == ("service"@, a.service) && g[2] == ("service"@, b.service));
        },
        _ => {
            assert(f[1].0[0] == g[1].0[0]);
        },
    }
}

/// JSON is machine-readable: it gives back how many services were checked and,
/// for each of them, the endpoint, the service and the status or the error.
pub proof fn law_json_tells_reports(a: Seq<ReportView>, b: Seq<ReportView>)
    requires
        rendering_run(a, OutputFormat::Json) == rendering_run(b, OutputFormat::Json),
    ensures
        a.len() == b.len(),
        forall|i: int| 0 <= i < a.len() ==> says_the_same(#[trigger] a[i], b[i]),
{
    reveal_strlit("{");
    reveal_strlit("[");
    let f = a.map_values(|report: ReportView| report.fields());
    let g = b.map_values(|report: ReportView| report.fields());
    let s = rendering_run(a, OutputFormat::Json).stdout->Some_0;
    let t = rendering_run(b, OutputFormat::Json).stdout->Some_0;
    assert(s[0] == if a.len() == 1 {
        '{'
    } else {
        '['
    });
    assert(t[0] == if b.len() == 1 {
        '{'
    } else {
        '['
    });
    if a.len() == 1 {
        crate::json::law_json_object_tells_fields(a[0].fields(), b[0].fields());
        lemma_fields_tell_report(a[0], b[0]);
    } else {
        crate::json::law_json_array_tells_objects(f, g);
        assert(f.len() == g.len());
        assert forall|i: int| 0 <= i < a.len() implies says_the_same(#[trigger] a[i], b[i]) by {
            assert(f[i] == g[i]);
            lemma_fields_tell_report(a[i], b[i]);
        }
    }
}

/// A result exits with 0 exactly when it is a SERVING status, and with a code
/// of at most 4 in any case.
pub proof fn law_zero_means_serving(outcome: OutcomeView)
    ensures
        outcome.code() == 0 <==> outcome == OutcomeView::Status(ServingStatus::Serving),
        outcome.code() <= 4,
{
}

/// A report says its endpoint, its service and its outcome, each whole, and what
/// is rendered is what goes to each stream.
pub proof fn law_reports_say_all(report: ProbeReport, rendered: Rendered, reports: Seq<ProbeReport>)
    ensures
        report@.endpoint == report.endpoint@,
        report.service matches Some(service) ==> report@.service == Some(service@),
        report.service is None ==> report@.service is None,
        report.outcome matches Outcome::Status(status) ==> report@.outcome == OutcomeView::Status(
            status,
        ) && report@.outcome.code() == crate::status::status_code(status),
        report.outcome matches Outcome::Error(err) ==> report@.outcome == OutcomeView::Error(err@)
            && report@.outcome.code() == err@.code(),
        rendered@.stdout == crate::text::opt_text(rendered.stdout),
        rendered@.stderr == crate::text::opt_text(rendered.stderr),
        reports_view(reports).len() == reports.len(),
        forall|i: int| 0 <= i < reports.len() ==> #[trigger] reports_view(reports)[i] == reports[i]@,
        report.service matches Some(service) ==> report@.label() == service@,
        report.service is None ==> report@.label() == "(overall)"@,
{
}

/// Plain mode prints the protocol's name of the very status behind `status: `, on
/// stdout alone, and the message of an error, on stderr alone.
pub proof fn law_plain_text(report: ProbeReport)
    ensures
        ({
            let r = rendering(report@, OutputFormat::Default);
            match report.outcome {
                Outcome::Status(status) => r.stderr is None && r.stdout == Some(
                    match status {
                        ServingStatus::Unknown => "status: UNKNOWN"@,
                        ServingStatus::Serving => "status: SERVING"@,
                        ServingStatus::NotServing => "status: NOT_SERVING"@,
                        ServingStatus::ServiceUnknown => "status: SERVICE_UNKNOWN"@,
                    },
                ),
                Outcome::Error(err) => r.stdout is None && r.stderr == Some(err@.message()),
            }
        }),
{
    reveal_strlit("status: ");
    reveal_strlit("UNKNOWN");
    reveal_strlit("SERVING");
    reveal_strlit("NOT_SERVING");
    reveal_strlit("SERVICE_UNKNOWN");
    reveal_strlit("status: UNKNOWN");
    reveal_strlit("status: SERVING");
    reveal_strlit("status: NOT_SERVING");
    reveal_strlit("status: SERVICE_UNKNOWN");
    assert("status: "@ + "UNKNOWN"@ == "status: UNKNOWN"@);
    assert("status: "@ + "SERVING"@ == "status: SERVING"@);
    assert("status: "@ + "NOT_SERVING"@ == "status: NOT_SERVING"@);
    assert("status: "@ + "SERVICE_UNKNOWN"@ == "status: SERVICE_UNKNOWN"@);
}

/// Verbose mode prints the endpoint and the service on lines of their own, and
/// then the status or the error.
pub proof fn law_verbose_text(report: ProbeReport)
    ensures
        ({
            let r = rendering(report@, OutputFormat::Verbose);
            let service = match report.service {
                Some(service) => service@,
                None => "(overall)"@,
            };
            let head = "endpoint: "@ + report.endpoint@ + "\nservice: "@ + service;
            match report.outcome {
                Outcome::Status(status) => r.stderr is None && r.stdout == Some(
                    head + "\nstatus: "@ + crate::status::status_word(status),
                ),
                Outcome::Error(err) => r.stdout is None && r.stderr == Some(
                    head + "\nerror: "@ + err@.message(),
                ),
            }
        }),
{
}

/// A JSON object in the order of its names: the endpoint, the service or null,
/// and the status; or the endpoint, the error, and the service or null.
pub proof fn law_json_text(report: ProbeReport)
    ensures
        ({
            let r = rendering(report@, OutputFormat::Json);
            let service = match report.service {
                Some(service) => crate::json::json_string(service@),
                None => "null"@,
            };
            let head = "{\"endpoint\":"@ + crate::json::json_string(report.endpoint@);
            &&& r.stderr is None
            &&& match report.outcome {
                Outcome::Status(status) => r.stdout == Some(
                    head + ",\"service\":"@ + service + ",\"status\":\""@
                        + crate::status::status_word(status) + "\"}"@,
                ),
                Outcome::Error(err) => r.stdout == Some(
                    head + ",\"error\":"@ + crate::json::json_string(err@.message())
                        + ",\"service\":"@ + service + "}"@,
                ),
            }
        }),
{
    match report.outcome {
        Outcome::Status(status) => lemma_status_object(report@, status),
        Outcome::Error(err) => lemma_error_object(report@, err@),
    }
}

proof fn lemma_status_object(report: ReportView, status: ServingStatus)
    requires
        report.outcome == OutcomeView::Status(status),
    ensures
        crate::json::json_object(report.fields()) == "{\"endpoint\":"@ + crate::json::json_string(
            report.endpoint,
        ) + ",\"service\":"@ + field_text(("service"@, report.service)) + ",\"status\":\""@
            + crate::status::status_word(status) + "\"}"@,
{
    let word = crate::status::status_word(status);
    let head = "{\"endpoint\":"@ + crate::json::json_string(report.endpoint) + ",\"service\":"@
        + field_text(("service"@, report.service));
    lemma_json_names();
    lemma_three_fields(report.fields());
    lemma_quoted_word(status);
    lemma_status_ends(word);
    lemma_last_three(head, ",\"status\":"@, "\""@ + word + "\""@, "}"@);
    lemma_last_three(head, ",\"status\":\""@, word, "\"}"@);
}

proof fn lemma_error_object(report: ReportView, err: ProbeErrorView)
    requires
        report.outcome == OutcomeView::Error(err),
    ensures
        crate::json::json_object(report.fields()) == "{\"endpoint\":"@ + crate::json::json_string(
            report.endpoint,
        ) + ",\"error\":"@ + crate::json::json_string(err.message()) + ",\"service\":"@
            + field_text(("service"@, report.service)) + "}"@,
{
    lemma_json_names();
    lemma_three_fields(report.fields());
}

proof fn lemma_last_three(head: Seq<char>, a: Seq<char>, b: Seq<char>, c: Seq<char>)
    ensures
        head + a + b + c == head + (a + b + c),
{
}

/// The name of a field, with what stands before and behind it.
proof fn lemma_json_names()
    ensures
        "{"@ + crate::json::json_string("endpoint"@) + ":"@ == "{\"endpoint\":"@,
        ","@ + crate::json::json_string("service"@) + ":"@ == ",\"service\":"@,
        ","@ + crate::json::json_string("status"@) + ":"@ == ",\"status\":"@,
        ","@ + crate::json::json_string("error"@) + ":"@ == ",\"error\":"@,
{
    reveal_strlit("{");
    reveal_strlit(",");
    reveal_strlit(":");
    reveal_strlit("\"");
    assert("{"@ + crate::json::json_string("endpoint"@) + ":"@ == "{\"endpoint\":"@) by {
        reveal_strlit("endpoint");
        reveal_strlit("{\"endpoint\":");
        crate::json::law_json_plain_text("endpoint"@);
    }
    assert(","@ + crate::json::json_string("service"@) + ":"@ == ",\"service\":"@) by {
        reveal_strlit("service");
        reveal_strlit(",\"service\":");
        crate::json::law_json_plain_text("service"@);
    }
    assert(","@ + crate::json::json_string("status"@) + ":"@ == ",\"status\":"@) by {
        reveal_strlit("status");
        reveal_strlit(",\"status\":");
        crate::json::law_json_plain_text("status"@);
    }
    assert(","@ + crate::json::json_string("error"@) + ":"@ == ",\"error\":"@) by {
        reveal_strlit("error");
        reveal_strlit(",\"error\":");
        crate::json::law_json_plain_text("error"@);
    }
}

/// The text of a field: a string or null.
spec fn field_text(field: (Seq<char>, Option<Seq<char>>)) -> Seq<char> {
    match field.1 {
        Some(text) => crate::json::json_string(text),
        None => "null"@,
    }
}

/// An object of three fields, piece by piece.
proof fn lemma_three_fields(f: Seq<(Seq<char>, Option<Seq<char>>)>)
    requires
        f.len() == 3,
    ensures
        crate::json::json_object(f) == ("{"@ + crate::json::json_string(f[0].0) + ":"@)
            + field_text(f[0]) + (","@ + crate::json::json_string(f[1].0) + ":"@) + field_text(f[1])
            + (","@ + crate::json::json_string(f[2].0) + ":"@) + field_text(f[2]) + "}"@,
{
    let lines = f.map_values(
        |field: (Seq<char>, Option<Seq<char>>)| crate::json::json_field(field),
    );
    let a = crate::json::json_field(f[0]);
    let b = crate::json::json_field(f[1]);
    let c = crate::json::json_field(f[2]);
    assert(lines =~= seq![a, b, c]);
    assert(lines.drop_last() =~= seq![a, b]);
    assert(seq![a, b].drop_last() =~= seq![a]);
    assert(crate::text::joined(seq![a], ","@) == a);
    assert(crate::text::joined(seq![a, b], ","@) == a + ","@ + b);
    assert(crate::text::joined(lines, ","@) == a + ","@ + b + ","@ + c);
    lemma_regroup(
        "{"@,
        crate::json::json_string(f[0].0),
        field_text(f[0]),
        crate::json::json_string(f[1].0),
        field_text(f[1]),
        crate::json::json_string(f[2].0),
        field_text(f[2]),
        ":"@,
        ","@,
    );
}

/// Putting texts together does not depend on which are put together first.
proof fn lemma_regroup(
    open: Seq<char>,
    k: Seq<char>,
    t: Seq<char>,
    l: Seq<char>,
    u: Seq<char>,
    m: Seq<char>,
    v: Seq<char>,
    colon: Seq<char>,
    comma: Seq<char>,
)
    ensures
        open + ((k + colon + t) + comma + (l + colon + u) + comma + (m + colon + v)) == (open + k
            + colon) + t + (comma + l + colon) + u + (comma + m + colon) + v,
{
    let x = (k + colon + t) + comma + (l + colon + u);
    assert(x + comma + (m + colon + v) == x + (comma + m + colon) + v);
    assert(x == (k + colon + t) + (comma + l + colon) + u);
    assert(open + x == open + (k + colon + t) + (comma + l + colon) + u);
    assert(open + (k + colon + t) == (open + k + colon) + t);
    assert(open + (x + (comma + m + colon) + v) == (open + x) + (comma + m + colon) + v);
}

/// The name of a status needs no escapes.
proof fn lemma_quoted_word(status: ServingStatus)
    ensures
        crate::json::json_string(crate::status::status_word(status)) == "\""@
            + crate::status::status_word(status) + "\""@,
{
    reveal_strlit("UNKNOWN");
    reveal_strlit("SERVING");
    reveal_strlit("NOT_SERVING");
    reveal_strlit("SERVICE_UNKNOWN");
    crate::json::law_json_plain_text(crate::status::status_word(status));
}

proof fn lemma_status_ends(word: Seq<char>)
    ensures
        ",\"status\":"@ + ("\""@ + word + "\""@) + "}"@ == ",\"status\":\""@ + word + "\"}"@,
{
    reveal_strlit(",\"status\":");
    reveal_strlit(",\"status\":\"");
    reveal_strlit("\"");
    reveal_strlit("}");
    reveal_strlit("\"}");
    assert(",\"status\":\""@ == ",\"status\":"@ + "\""@);
    assert("\"}"@ == "\""@ + "}"@);
}

/// In every format but quiet, reports of one service at one endpoint that are
/// written alike have the same status, or fail with the same message.
pub proof fn law_outcomes_are_told_apart(a: ReportView, b: ReportView, format: OutputFormat)
    requires
        format != OutputFormat::Quiet,
        a.endpoint == b.endpoint,
        a.service == b.service,
        rendering(a, format) == rendering(b, format),
    ensures
        a.outcome is Status <==> b.outcome is Status,
        a.outcome matches OutcomeView::Status(status) ==> b.outcome == OutcomeView::Status(status),
        a.outcome matches OutcomeView::Error(err) ==> (b.outcome matches OutcomeView::Error(other)
            && other.message() == err.message()),
{
    if format == OutputFormat::Json {
        assert(rendering_run(seq![a], format) == rendering_run(seq![b], format));
        law_json_tells_reports(seq![a], seq![b]);
        assert(says_the_same(seq![a][0], seq![b][0]));
    } else {
        match (a.outcome, b.outcome) {
            (OutcomeView::Status(s), OutcomeView::Status(t)) => {
                crate::status::law_status_words(s, t);
                let x = crate::status::status_word(s);
                let y = crate::status::status_word(t);
                let head = if format == OutputFormat::Default {
                    "status: "@
                } else {
                    verbose_head(a) + "\nstatus: "@
                };
                assert(head + x == head + y);
                assert((head + x).skip(head.len() as int) == x);
                assert((head + y).skip(head.len() as int) == y);
            },
            (OutcomeView::Error(d), OutcomeView::Error(e)) => {
                let head = if format == OutputFormat::Default {
                    Seq::<char>::empty()
                } else {
                    verbose_head(a) + "\nerror: "@
                };
                assert(d.message() == Seq::<char>::empty() + d.message());
                assert(e.message() == Seq::<char>::empty() + e.message());
                assert(head + d.message() == head + e.message());
                assert((head + d.message()).skip(head.len() as int) == d.message());
                assert((head + e.message()).skip(head.len() as int) == e.message());
            },
            _ => {},
        }
    }
}

/// Quiet writes nothing, and every other format writes something for a report,
/// to exactly one stream.
pub proof fn law_only_quiet_is_silent(report: ReportView, format: OutputFormat)
    ensures
        format == OutputFormat::Quiet <==> rendering(report, format).stdout is None && rendering(
            report,
            format,
        ).stderr is None,
        rendering(report, format).stdout is None || rendering(report, format).stderr is None,
        silence().stdout is None,
        silence().stderr is None,
{
}

/// In a listing a report is one line, `service: STATUS` among the statuses or
/// `service: error` among the errors, and the lines of two lists put together are
/// those of the first and then those of the second.
pub proof fn law_listing_lines(report: ProbeReport, a: Seq<ReportView>, b: Seq<ReportView>)
    ensures
        ({
            let service = match report.service {
                Some(service) => service@,
                None => "(overall)"@,
            };
            match report.outcome {
                Outcome::Status(status) => status_lines(seq![report@]) == seq![
                    service + ": "@ + crate::status::status_word(status),
                ] && error_lines(seq![report@]).len() == 0,
                Outcome::Error(err) => error_lines(seq![report@]) == seq![
                    service + ": "@ + err@.message(),
                ] && status_lines(seq![report@]).len() == 0,
            }
        }),
        status_lines(a + b) == status_lines(a) + status_lines(b),
        error_lines(a + b) == error_lines(a) + error_lines(b),
    decreases b.len(),
{
    assert(seq![report@].drop_last() == Seq::<ReportView>::empty());
    assert(status_lines(Seq::<ReportView>::empty()) == Seq::<Seq<char>>::empty());
    assert(error_lines(Seq::<ReportView>::empty()) == Seq::<Seq<char>>::empty());
    if b.len() == 0 {
        assert(a + b == a);
    } else {
        law_listing_lines(report, a, b.drop_last());
        assert((a + b).drop_last() == a + b.drop_last());
    }
}

/// The text modes print the status lines of several reports on stdout and the
/// error lines on stderr, one below the other, and leave a stream alone that
/// would have none. Verbose mode puts the endpoint on a line before the statuses.
pub proof fn law_listing_text(reports: Seq<ReportView>, format: OutputFormat)
    requires
        reports.len() != 1,
        format == OutputFormat::Default || format == OutputFormat::Verbose,
    ensures
        ({
            let r = rendering_run(reports, format);
            let first = if format == OutputFormat::Verbose && reports.len() > 0 {
                seq!["endpoint: "@ + reports[0].endpoint]
            } else {
                seq![]
            };
            let out = first + status_lines(reports);
            let err = error_lines(reports);
            &&& r.stdout is None <==> out.len() == 0
            &&& r.stderr is None <==> err.len() == 0
            &&& r.stdout matches Some(text) ==> text == crate::text::joined(out, "\n"@)
            &&& r.stderr matches Some(text) ==> text == crate::text::joined(err, "\n"@)
        }),
{
}

} // verus!
