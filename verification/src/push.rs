//! Pushing: the gates a push goes through, and what it reports.
use vstd::prelude::*;

use crate::comparing;
use crate::daemon_report;
use crate::daemon_report::{DaemonReport, DaemonUnavailableReason};
use crate::diff;
use crate::diff::{
    DiffError, GuardrailOutput, PushPipelineResult, PushPlanOutput, ValidationIssueOutput,
};
use crate::failures;
use crate::failures::{ConnectorResolveError, connector_failure, diff_failure, locality_failure};
use crate::model;
use crate::model::{Failure, LocalityError};
use crate::requests::PushOptions;
use crate::text;

verus! {

/// What came of pushing one file.
#[derive(Debug, PartialEq, Eq)]
pub struct PushReport {
    pub ok: bool,
    pub command: &'static str,
    pub via: String,
    pub path: String,
    pub mount_id: String,
    pub entity_id: String,
    pub validation: Vec<ValidationIssueOutput>,
    pub plan: Option<PushPlanOutput>,
    pub guardrail: GuardrailOutput,
    pub action: String,
    pub pipeline_action: String,
    pub push_id: Option<String>,
    pub journal_status: Option<String>,
    pub changed_remote_ids: Vec<String>,
    pub reconciled_remote_ids: Vec<String>,
    pub apply_effect_count: usize,
    pub completed_stages: Vec<String>,
    pub message: Option<String>,
    pub unsupported: Vec<String>,
    pub suggested_fix: Option<String>,
}

/// The exit code of a push: 0 where it is done or there was nothing to do, 3
/// where the file is not valid, 4 where a confirmation is missing, else 5.
pub open spec fn exit_code_of(ok: bool, action: Seq<char>) -> i32 {
    if ok || action == "noop"@ {
        0
    } else if action == "fix_validation"@ {
        3
    } else if action == "confirm_plan"@ || action == "confirm_dangerous_plan"@ {
        4
    } else {
        5
    }
}

/// The exit code of a push.
pub fn push_report_exit_code(report: &PushReport) -> (r: i32)
    ensures
        r == exit_code_of(report.ok, report.action@),
{
    if report.ok || text::same_text(&report.action, "noop") {
        0
    } else if text::same_text(&report.action, "fix_validation") {
        3
    } else if text::same_text(&report.action, "confirm_plan") || text::same_text(
        &report.action,
        "confirm_dangerous_plan",
    ) {
        4
    } else {
        5
    }
}

/// The exit code of several pushes: that of the first one that is not 0.
pub open spec fn first_exit_code(reports: Seq<PushReport>) -> i32
    decreases reports.len(),
{
    if reports.len() == 0 {
        0
    } else if exit_code_of(reports[0].ok, reports[0].action@) != 0 {
        exit_code_of(reports[0].ok, reports[0].action@)
    } else {
        first_exit_code(reports.skip(1))
    }
}

/// The exit code of several pushes.
pub fn push_reports_exit_code(reports: &Vec<PushReport>) -> (r: i32)
    ensures
        r == first_exit_code(reports@),
{
    let mut i: usize = 0;
    assert(reports@.skip(0) == reports@);
    while i < reports.len()
        invariant
            i <= reports.len(),
            first_exit_code(reports@) == first_exit_code(reports@.skip(i as int)),
        decreases reports.len() - i,
    {
        assert(reports@.skip(i as int)[0] == reports@[i as int]);
        assert(reports@.skip(i as int).skip(1) == reports@.skip(i + 1));
        let exit_code: i32 = push_report_exit_code(&reports[i]);
        if exit_code != 0 {
            return exit_code;
        }
        i += 1;
    }
    0
}

/// Several pushes succeed exactly where each of them does.
pub proof fn law_all_pushes_have_to_succeed(reports: Seq<PushReport>)
    ensures
        first_exit_code(reports) == 0 <==> forall|i: int|
            0 <= i < reports.len() ==> exit_code_of(
                (#[trigger] reports[i]).ok,
                reports[i].action@,
            ) == 0,
    decreases reports.len(),
{
    if reports.len() > 0 {
        let rest = reports.skip(1);
        law_all_pushes_have_to_succeed(rest);
        if first_exit_code(reports) == 0 {
            assert forall|i: int| 0 <= i < reports.len() implies exit_code_of(
                (#[trigger] reports[i]).ok,
                reports[i].action@,
            ) == 0 by {
                if i > 0 {
                    assert(reports[i] == rest[i - 1]);
                }
            }
        } else if forall|i: int|
            0 <= i < reports.len() ==> exit_code_of((#[trigger] reports[i]).ok, reports[i].action@)
                == 0 {
            assert forall|i: int| 0 <= i < rest.len() implies exit_code_of(
                (#[trigger] rest[i]).ok,
                rest[i].action@,
            ) == 0 by {
                assert(rest[i] == reports[i + 1]);
            }
            assert(exit_code_of(reports[0].ok, reports[0].action@) == 0);
        }
    }
}

/// A person is asked only where a plan waits for a plain yes that was not given
/// beforehand, and someone is there to answer.
pub fn should_prompt_for_push_confirmation(
    report: &PushReport,
    options: &PushOptions,
    json: bool,
    stdin_is_terminal: bool,
) -> (r: bool)
    ensures
        r == (report.action@ == "confirm_plan"@ && !options.assume_yes && !json
            && stdin_is_terminal),
{
    text::same_text(&report.action, "confirm_plan") && !options.assume_yes && !json
        && stdin_is_terminal
}

/// What a line says to a question; nothing where it is neither yes nor no.
pub open spec fn answer_of(line: Seq<char>) -> Option<bool> {
    let word = text::lowered(text::trimmed(line));
    if word == "y"@ || word == "yes"@ {
        Some(true)
    } else if word == ""@ || word == "n"@ || word == "no"@ {
        Some(false)
    } else {
        None
    }
}

/// What a line says to a question.
pub fn push_answer(line: &str) -> (r: Option<bool>)
    ensures
        r == answer_of(line@),
{
    let word = text::to_lowercase(text::trim(line).as_str());
    if text::same_text(&word, "y") || text::same_text(&word, "yes") {
        Some(true)
    } else if text::same_text(&word, "") || text::same_text(&word, "n") || text::same_text(
        &word,
        "no",
    ) {
        Some(false)
    } else {
        None
    }
}

/// The question before a push.
pub const PUSH_PROMPT: &'static str = "Proceed with push? [y/N] ";

/// What is said to a line that is neither yes nor no.
pub const PUSH_PROMPT_AGAIN: &'static str = "Please answer y or n.";

/// A question that was asked until it was answered.
#[derive(Debug, PartialEq, Eq)]
pub struct PromptOutcome {
    pub approved: bool,
    pub output: String,
}

/// The answer that lines give: that of the first one that is yes or no; no
/// where they end before.
pub open spec fn prompt_answer(lines: Seq<Seq<char>>) -> bool
    decreases lines.len(),
{
    if lines.len() == 0 {
        false
    } else {
        match answer_of(lines[0]) {
            Some(approved) => approved,
            None => prompt_answer(lines.skip(1)),
        }
    }
}

/// What is written while lines are read: the question for each of them, and a
/// hint behind each that is neither yes nor no.
pub open spec fn prompt_output(lines: Seq<Seq<char>>) -> Seq<char>
    decreases lines.len(),
{
    if lines.len() == 0 {
        "Proceed with push? [y/N] "@
    } else {
        match answer_of(lines[0]) {
            Some(_) => "Proceed with push? [y/N] "@,
            None => "Proceed with push? [y/N] "@ + "Please answer y or n."@ + "\n"@
                + prompt_output(lines.skip(1)),
        }
    }
}

/// Asks before a push until a line is yes or no.
pub fn prompt_for_push_confirmation(lines: &Vec<String>) -> (r: PromptOutcome)
    ensures
        r.approved == prompt_answer(text::texts(lines@)),
        r.output@ == prompt_output(text::texts(lines@)),
{
    let ghost all = text::texts(lines@);
    let mut output = String::new();
    let mut i: usize = 0;
    assert(all.skip(0) == all);
    assert(output@ + prompt_output(all) =~= prompt_output(all));
    while i < lines.len()
        invariant
            i <= lines.len(),
            all == text::texts(lines@),
            prompt_answer(all) == prompt_answer(all.skip(i as int)),
            prompt_output(all) == output@ + prompt_output(all.skip(i as int)),
        decreases lines.len() - i,
    {
        let ghost before = output@;
        let ghost rest = all.skip(i as int);
        assert(rest[0] == lines[i as int]@);
        assert(rest.skip(1) == all.skip(i + 1));
        output.append(PUSH_PROMPT);
        if let Some(approved) = push_answer(&lines[i]) {
            assert(output@ =~= prompt_output(all));
            return PromptOutcome { approved, output };
        }
        output.append(PUSH_PROMPT_AGAIN);
        output.append("\n");
        assert(before + prompt_output(rest) =~= output@ + prompt_output(rest.skip(1)));
        i += 1;
    }
    assert(all.skip(i as int) == Seq::<Seq<char>>::empty());
    output.append(PUSH_PROMPT);
    PromptOutcome { approved: false, output }
}

/// Which files a path stands for.
#[derive(Debug, PartialEq, Eq)]
pub struct PushTargetSelection {
    pub requested_path: String,
    pub scoped: bool,
    pub targets: Vec<String>,
}

/// What came of pushing several files.
#[derive(Debug, PartialEq, Eq)]
pub struct PushBatchReport {
    pub ok: bool,
    pub command: &'static str,
    pub path: String,
    pub scoped: bool,
    pub target_count: usize,
    pub reports: Vec<PushReport>,
}

impl PushBatchReport {
    /// The report where there is nothing to push.
    pub fn empty(selection: &PushTargetSelection) -> (r: Self)
        ensures
            r.ok,
            r.command@ == "push"@,
            r.path == selection.requested_path,
            r.scoped == selection.scoped,
            r.target_count == 0,
            r.reports@.len() == 0,
    {
        PushBatchReport {
            ok: true,
            command: "push",
            path: selection.requested_path.clone(),
            scoped: selection.scoped,
            target_count: 0,
            reports: Vec::new(),
        }
    }

    /// The report on several pushes.
    pub fn from_reports(selection: &PushTargetSelection, reports: Vec<PushReport>) -> (r: Self)
        ensures
            r.ok == (forall|i: int| 0 <= i < reports@.len() ==> (#[trigger] reports@[i]).ok),
            r.command@ == "push"@,
            r.path == selection.requested_path,
            r.scoped == selection.scoped,
            r.target_count == reports@.len(),
            r.reports == reports,
    {
        let mut ok = true;
        let mut i: usize = 0;
        while i < reports.len()
            invariant
                i <= reports.len(),
                ok == (forall|k: int| 0 <= k < i ==> (#[trigger] reports@[k]).ok),
            decreases reports.len() - i,
        {
            if !reports[i].ok {
                ok = false;
            }
            i += 1;
        }
        PushBatchReport {
            ok,
            command: "push",
            path: selection.requested_path.clone(),
            scoped: selection.scoped,
            target_count: reports.len(),
            reports,
        }
    }
}

/// What `push` prints for a program.
#[derive(Debug, PartialEq, Eq)]
pub enum PushOutput {
    One(PushReport),
    Batch(PushBatchReport),
}

/// What `push` prints for a program: the report on the file where one file was
/// asked for, else the report on all of them.
pub fn push_output(selection: &PushTargetSelection, reports: Vec<PushReport>) -> (r: PushOutput)
    ensures
        if !selection.scoped && reports@.len() == 1 {
            r == PushOutput::One(reports@[0])
        } else {
            r matches PushOutput::Batch(b) && b.reports == reports && b.path
                == selection.requested_path && b.scoped == selection.scoped && b.target_count
                == reports@.len() && b.command@ == "push"@ && b.ok == (forall|i: int|
                0 <= i < reports@.len() ==> (#[trigger] reports@[i]).ok)
        },
{
    if !selection.scoped && reports.len() == 1 {
        let mut reports = reports;
        let one = reports.remove(0);
        return PushOutput::One(one);
    }
    PushOutput::Batch(PushBatchReport::from_reports(selection, reports))
}

/// Whether nothing is left to push below a path that was asked for as a whole.
pub fn nothing_to_push(selection: &PushTargetSelection) -> (r: bool)
    ensures
        r == (selection.scoped && selection.targets@.len() == 0),
{
    selection.scoped && selection.targets.len() == 0
}

/// Whether two reports show the same plan.
pub open spec fn shows_same_plan(a: PushReport, b: PushReport) -> bool {
    &&& comparing::same_issues(a.validation@, b.validation@)
    &&& comparing::same_plans(a.plan, b.plan)
    &&& comparing::same_guardrail(a.guardrail, b.guardrail)
}

/// Whether two reports show the same plan.
pub fn push_preview_plan_matches(cli_preview: &PushReport, daemon_preview: &PushReport) -> (r: bool)
    ensures
        r == shows_same_plan(*cli_preview, *daemon_preview),
{
    let same_plan = match (&cli_preview.plan, &daemon_preview.plan) {
        (Some(a), Some(b)) => comparing::plans_match(a, b),
        (None, None) => true,
        _ => false,
    };
    same_plan && comparing::issues_match(&cli_preview.validation, &daemon_preview.validation)
        && comparing::guardrails_match(&cli_preview.guardrail, &daemon_preview.guardrail)
}

/// Whether the fields of a report that a plan shows in are those of a pipeline
/// result.
pub open spec fn shows_result(result: PushPipelineResult, report: PushReport) -> bool {
    &&& report.validation@ == Seq::new(
        result.validation@.len(),
        |i: int| diff::issue_output(result.validation@[i]),
    )
    &&& match (result.plan, report.plan) {
        (Some(plan), Some(shown)) => diff::shows_plan(plan, shown),
        (None, None) => true,
        _ => false,
    }
    &&& diff::shows_guardrail(result.guardrail, report.guardrail)
}

/// Two reports on one pipeline result show the same plan.
pub proof fn law_one_result_shows_one_plan(
    result: PushPipelineResult,
    a: PushReport,
    b: PushReport,
)
    requires
        shows_result(result, a),
        shows_result(result, b),
    ensures
        shows_same_plan(a, b),
{
    match (result.plan, a.plan, b.plan) {
        (Some(plan), Some(x), Some(y)) => {
            comparing::law_shown_plan_is_same(plan, x, y);
        },
        _ => {},
    }
}

/// What a push does next.
#[derive(Debug, PartialEq, Eq)]
pub enum PushStep {
    /// Ask the daemon for its plan, without any approval.
    VerifyPlan(PushReport),
    /// Ask the daemon to push, with the approvals that were given.
    Submit(Option<DaemonUnavailableReason>),
    /// Push without the daemon, which cannot be had for this reason.
    PushDirectly(DaemonUnavailableReason),
    /// Done.
    Finish(Result<PushReport, Failure>),
}

/// What follows on the preview of a push: it goes on only where the pipeline
/// has nothing left to ask.
pub fn after_preview(preview: Result<PushReport, DiffError>) -> (r: PushStep)
    ensures
        match preview {
            Err(e) => r matches PushStep::Finish(Err(f)) && failures::tells_diff_error(
                f,
                "push"@,
                e,
            ),
            Ok(report) => if report.pipeline_action@ == "proceed_to_apply"@ {
                r == PushStep::VerifyPlan(report)
            } else {
                r == PushStep::Finish(Ok(report))
            },
        },
{
    match preview {
        Err(e) => PushStep::Finish(Err(diff_failure("push", &e))),
        Ok(report) => if text::same_text(&report.pipeline_action, "proceed_to_apply") {
            PushStep::VerifyPlan(report)
        } else {
            PushStep::Finish(Ok(report))
        },
    }
}

fn daemon_failure(error: daemon_report::DaemonCommandError) -> (r: Failure)
    ensures
        model::is_failure(r, "push"@, error.code@, error.message@, error.exit_code),
{
    Failure::new("push", &error.code, error.message, error.exit_code)
}

/// What follows on the plan of the daemon: the push is submitted only where
/// that plan is the one that was shown, or where the daemon is not there.
pub fn verify_daemon_push_plan_matches_cli_preview(
    reply: DaemonReport<PushReport>,
    cli_preview: &PushReport,
    timeout_ms: u64,
) -> (r: PushStep)
    ensures
        match reply {
            DaemonReport::Report(daemon_preview) => if shows_same_plan(
                *cli_preview,
                daemon_preview,
            ) {
                r == PushStep::Submit(None)
            } else {
                r matches PushStep::Finish(Err(f)) && model::is_failure(
                    f,
                    "push"@,
                    "daemon_plan_mismatch"@,
                    "daemon push plan differs from the CLI diff plan; restart localityd so push uses the same planner as diff"@,
                    1,
                )
            },
            DaemonReport::Unavailable(DaemonUnavailableReason::TimedOut) => r matches
                PushStep::Finish(Err(f)) && model::is_failure(
                f,
                "push"@,
                "daemon_timeout"@,
                "localityd did not respond within "@ + text::decimal(timeout_ms as nat)
                    + "ms while verifying the push plan; refusing direct fallback to avoid racing daemon writes"@,
                1,
            ),
            DaemonReport::Unavailable(reason) => r == PushStep::Submit(Some(reason)),
            DaemonReport::Error(e) => r matches PushStep::Finish(Err(f)) && model::is_failure(
                f,
                "push"@,
                e.code@,
                e.message@,
                e.exit_code,
            ),
        },
{
    match reply {
        DaemonReport::Report(daemon_preview) => if push_preview_plan_matches(
            cli_preview,
            &daemon_preview,
        ) {
            PushStep::Submit(None)
        } else {
            PushStep::Finish(
                Err(
                    Failure::new(
                        "push",
                        "daemon_plan_mismatch",
                        "daemon push plan differs from the CLI diff plan; restart localityd so push uses the same planner as diff".to_string(),
                        1,
                    ),
                ),
            )
        },
        DaemonReport::Unavailable(DaemonUnavailableReason::TimedOut) => PushStep::Finish(
            Err(
                Failure::new(
                    "push",
                    "daemon_timeout",
                    text::concat3(
                        "localityd did not respond within ",
                        text::decimal_text(timeout_ms as u128).as_str(),
                        "ms while verifying the push plan; refusing direct fallback to avoid racing daemon writes",
                    ),
                    1,
                ),
            ),
        ),
        DaemonReport::Unavailable(reason) => PushStep::Submit(Some(reason)),
        DaemonReport::Error(e) => PushStep::Finish(Err(daemon_failure(e))),
    }
}

/// What follows on a submitted push. Where no answer came in time the daemon
/// may still be at it, so the push is not done again without it.
pub open spec fn follows_submission(
    reply: DaemonReport<PushReport>,
    timeout_ms: u64,
    r: PushStep,
) -> bool {
    match reply {
        DaemonReport::Report(report) => r == PushStep::Finish(Ok(report)),
        DaemonReport::Unavailable(DaemonUnavailableReason::TimedOut) => r matches PushStep::Finish(
            Err(f),
        ) && model::is_failure(
            f,
            "push"@,
            "daemon_timeout"@,
            "localityd did not respond within "@ + text::decimal(timeout_ms as nat)
                + "ms after the push request was submitted; refusing direct fallback to avoid duplicate remote writes"@,
            1,
        ),
        DaemonReport::Unavailable(reason) => r == PushStep::PushDirectly(reason),
        DaemonReport::Error(e) => r matches PushStep::Finish(Err(f)) && model::is_failure(
            f,
            "push"@,
            e.code@,
            e.message@,
            e.exit_code,
        ),
    }
}

/// What follows on a submitted push.
pub fn after_submission(reply: DaemonReport<PushReport>, timeout_ms: u64) -> (r: PushStep)
    ensures
        follows_submission(reply, timeout_ms, r),
{
    match reply {
        DaemonReport::Report(report) => PushStep::Finish(Ok(report)),
        DaemonReport::Unavailable(DaemonUnavailableReason::TimedOut) => PushStep::Finish(
            Err(
                Failure::new(
                    "push",
                    "daemon_timeout",
                    text::concat3(
                        "localityd did not respond within ",
                        text::decimal_text(timeout_ms as u128).as_str(),
                        "ms after the push request was submitted; refusing direct fallback to avoid duplicate remote writes",
                    ),
                    1,
                ),
            ),
        ),
        DaemonReport::Unavailable(reason) => PushStep::PushDirectly(reason),
        DaemonReport::Error(e) => PushStep::Finish(Err(daemon_failure(e))),
    }
}

/// A push is done without the daemon only where the daemon never had it.
pub proof fn law_push_is_not_done_twice(
    reply: DaemonReport<PushReport>,
    timeout_ms: u64,
    r: PushStep,
)
    requires
        follows_submission(reply, timeout_ms, r),
    ensures
        r is PushDirectly ==> reply == DaemonReport::<PushReport>::Unavailable(
            DaemonUnavailableReason::NotAvailable,
        ) || reply == DaemonReport::<PushReport>::Unavailable(DaemonUnavailableReason::Disabled),
{
}

/// What came of pushing without the daemon.
#[derive(Debug, PartialEq, Eq)]
pub enum DirectPush {
    NoSource(ConnectorResolveError),
    Failed(LocalityError),
    Pushed(PushReport),
}

/// What follows on a push without the daemon.
pub fn after_direct_push(outcome: DirectPush) -> (r: PushStep)
    ensures
        match outcome {
            DirectPush::NoSource(e) => r matches PushStep::Finish(Err(f))
                && failures::tells_connector_error(f, "push"@, e),
            DirectPush::Failed(e) => r matches PushStep::Finish(Err(f))
                && failures::tells_locality_error(f, "push"@, e),
            DirectPush::Pushed(report) => r == PushStep::Finish(Ok(report)),
        },
{
    match outcome {
        DirectPush::NoSource(e) => PushStep::Finish(Err(connector_failure("push", &e))),
        DirectPush::Failed(e) => PushStep::Finish(Err(locality_failure("push", &e))),
        DirectPush::Pushed(report) => PushStep::Finish(Ok(report)),
    }
}

} // verus!
