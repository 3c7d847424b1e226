//! How a push ends, and when it goes ahead.
use crate::comparing;
use crate::daemon_report::{DaemonReport, DaemonUnavailableReason};
use crate::diff;
use crate::diff::{
    PropertyEntry, PropertyUpdateOutput, PropertyValue, PropertyValueOutput, PushOperation,
    PushOperationOutput, PushPipelineResult, PushPlan, PushPlanOutput,
};
use crate::laws::preview;
use crate::model::{CommandError, EntityRecord, MountConfig, StoreError};
use crate::paths;
use crate::paths::PathStyle;
use crate::pull;
use crate::push;
use crate::push::{PushReport, PushStep, PushTargetSelection};
use crate::push_flow;
use crate::push_flow::{PushAction, PushProgress, TargetProgress};
use crate::repair;
use crate::repair::{TargetEntities, TargetPage};
use crate::requests::PushOptions;
use crate::text;
use crate::undo::IndexedEntity;
use vstd::prelude::*;

verus! {

proof fn lemma_action_words()
    ensures
        "noop"@ != "fix_validation"@,
        "noop"@ != "confirm_plan"@,
        "noop"@ != "confirm_dangerous_plan"@,
        "fix_validation"@ != "confirm_plan"@,
        "fix_validation"@ != "confirm_dangerous_plan"@,
{
    reveal_strlit("noop");
    reveal_strlit("fix_validation");
    reveal_strlit("confirm_plan");
    reveal_strlit("confirm_dangerous_plan");
    assert("noop"@.len() == 4);
    assert("fix_validation"@.len() == 14);
    assert("confirm_plan"@.len() == 12);
    assert("confirm_dangerous_plan"@.len() == 22);
}

/// A push ends with a code of its own for each way in which it can end: it went well or there
/// was nothing to do, the file has to be mended, the plan has to be confirmed, or it
/// failed otherwise.
pub proof fn law_push_exit_codes(ok: bool, action: Seq<char>)
    ensures
        push::exit_code_of(ok, action) == 0 <==> ok || action == "noop"@,
        push::exit_code_of(ok, action) == 3 <==> !ok && action == "fix_validation"@,
        push::exit_code_of(ok, action) == 4 <==> !ok && (action == "confirm_plan"@ || action
            == "confirm_dangerous_plan"@),
        push::exit_code_of(ok, action) == 5 <==> !ok && action != "noop"@ && action
            != "fix_validation"@ && action != "confirm_plan"@ && action
            != "confirm_dangerous_plan"@,
{
    lemma_action_words();
}

/// Several pushes end with the code of the first that did not go well.
pub proof fn law_pushes_end_as_the_first_that_fails(reports: Seq<PushReport>, i: int)
    requires
        0 <= i < reports.len(),
        push::exit_code_of(reports[i].ok, reports[i].action@) != 0,
        forall|k: int|
            0 <= k < i ==> push::exit_code_of((#[trigger] reports[k]).ok, reports[k].action@) == 0,
    ensures
        push::first_exit_code(reports) == push::exit_code_of(reports[i].ok, reports[i].action@),
    decreases i,
{
    if i > 0 {
        let rest = reports.skip(1);
        assert(rest[i - 1] == reports[i]);
        assert forall|k: int| 0 <= k < i - 1 implies push::exit_code_of(
            (#[trigger] rest[k]).ok,
            rest[k].action@,
        ) == 0 by {
            assert(rest[k] == reports[k + 1]);
        }
        law_pushes_end_as_the_first_that_fails(rest, i - 1);
    }
}

/// Whether a line says yes.
pub open spec fn says_yes(line: Seq<char>) -> bool {
    text::lowered(text::trimmed(line)) == "y"@ || text::lowered(text::trimmed(line)) == "yes"@
}

/// Whether a line says no; an empty one does.
pub open spec fn says_no(line: Seq<char>) -> bool {
    ||| text::trimmed(line).len() == 0
    ||| text::lowered(text::trimmed(line)) == "n"@
    ||| text::lowered(text::trimmed(line)) == "no"@
}

proof fn lemma_answer(line: Seq<char>)
    ensures
        push::answer_of(line) == (if says_yes(line) {
            Some(true)
        } else if says_no(line) {
            Some(false)
        } else {
            None
        }),
{
    reveal_strlit("");
    let word = text::lowered(text::trimmed(line));
    assert(word.len() == text::trimmed(line).len());
    if word.len() == 0 {
        assert(word =~= ""@);
    }
    reveal_strlit("y");
    reveal_strlit("yes");
    assert("y"@.len() == 1);
    assert("yes"@.len() == 3);
}

/// A push is approved exactly where the first line that says yes or no says yes; where the
/// lines end before that, it is not.
pub proof fn law_a_push_is_approved_by_yes_alone(lines: Seq<Seq<char>>)
    ensures
        push::prompt_answer(lines) <==> exists|i: int|
            0 <= i < lines.len() && says_yes(#[trigger] lines[i]) && forall|k: int|
                0 <= k < i ==> !says_yes(#[trigger] lines[k]) && !says_no(lines[k]),
    decreases lines.len(),
{
    if lines.len() > 0 {
        lemma_answer(lines[0]);
        let rest = lines.skip(1);
        law_a_push_is_approved_by_yes_alone(rest);
        if push::answer_of(lines[0]) is None {
            if push::prompt_answer(rest) {
                let i = choose|i: int|
                    0 <= i < rest.len() && says_yes(#[trigger] rest[i]) && forall|k: int|
                        0 <= k < i ==> !says_yes(#[trigger] rest[k]) && !says_no(rest[k]);
                assert(lines[i + 1] == rest[i]);
                assert forall|k: int| 0 <= k < i + 1 implies !says_yes(#[trigger] lines[k])
                    && !says_no(lines[k]) by {
                    if k > 0 {
                        assert(lines[k] == rest[k - 1]);
                    }
                }
            }
            if exists|i: int|
                0 <= i < lines.len() && says_yes(#[trigger] lines[i]) && forall|k: int|
                    0 <= k < i ==> !says_yes(#[trigger] lines[k]) && !says_no(lines[k]) {
                let i = choose|i: int|
                    0 <= i < lines.len() && says_yes(#[trigger] lines[i]) && forall|k: int|
                        0 <= k < i ==> !says_yes(#[trigger] lines[k]) && !says_no(lines[k]);
                assert(rest[i - 1] == lines[i]);
                assert forall|k: int| 0 <= k < i - 1 implies !says_yes(#[trigger] rest[k])
                    && !says_no(rest[k]) by {
                    assert(rest[k] == lines[k + 1]);
                }
            }
        } else if says_yes(lines[0]) {
            assert(says_yes(lines[0]) && forall|k: int|
                0 <= k < 0 ==> !says_yes(#[trigger] lines[k]) && !says_no(lines[k]));
        } else {
            assert forall|i: int| 0 <= i < lines.len() && says_yes(#[trigger] lines[i]) implies !(
            forall|k: int|
                0 <= k < i ==> !says_yes(#[trigger] lines[k]) && !says_no(lines[k])) by {
                assert(says_no(lines[0]));
            }
        }
    }
}

/// Whoever is asked about a push is asked again after each line that says neither yes nor no,
/// and not after any other.
pub proof fn law_the_question_is_repeated_until_answered(lines: Seq<Seq<char>>)
    requires
        lines.len() > 0,
    ensures
        says_yes(lines[0]) || says_no(lines[0]) ==> push::prompt_output(lines)
            == "Proceed with push? [y/N] "@,
        !says_yes(lines[0]) && !says_no(lines[0]) ==> push::prompt_output(lines)
            == "Proceed with push? [y/N] "@ + "Please answer y or n."@ + "\n"@
            + push::prompt_output(lines.skip(1)),
{
    lemma_answer(lines[0]);
}

/// A push goes on exactly as it stands: nothing to push is said where a scope has no targets,
/// the reports are shown once every target is done, and else the current target is
/// taken up.
pub proof fn law_pushes_take_up_every_target(
    options: PushOptions,
    json: bool,
    stdin_is_terminal: bool,
    selection: PushTargetSelection,
    progress: PushProgress,
    action: PushAction,
)
    requires
        push_flow::follows_push(options, json, stdin_is_terminal, selection, progress, action),
    ensures
        action is SayNothingToPush <==> selection.scoped && selection.targets@.len() == 0,
        action is Show <==> !(action is SayNothingToPush) && progress.done
            >= selection.targets@.len(),
        action is Keep ==> progress.done < selection.targets@.len() && (progress.current
            is Reported || progress.current is PushedAgain),
        action is Cancel ==> (progress.current matches TargetProgress::Answered(_, approved)
            && !approved),
        progress.done < selection.targets@.len() && progress.current is Untouched
            ==> action is PushTarget,
        progress.done < selection.targets@.len() && (
        progress.current matches TargetProgress::Answered(_, approved) && !approved)
            ==> action is Cancel,
{
}

/// A person is asked exactly about a plan that waits for confirmation, where neither an
/// approval was given nor a machine reads along, and where they can answer.
pub proof fn law_plans_that_wait_are_asked_about(
    options: PushOptions,
    json: bool,
    stdin_is_terminal: bool,
    selection: PushTargetSelection,
    progress: PushProgress,
    action: PushAction,
)
    requires
        push_flow::follows_push(options, json, stdin_is_terminal, selection, progress, action),
        progress.done < selection.targets@.len(),
        progress.current is Reported,
    ensures
        action is Ask <==> (progress.current->Reported_0.action@ == "confirm_plan"@
            && !options.assume_yes && !json && stdin_is_terminal),
        !(action is Ask) ==> action is Keep,
{
}

/// Leaving a push ends with the code of the plan that was declined.
pub proof fn law_declined_pushes_end_as_reported(
    options: PushOptions,
    json: bool,
    stdin_is_terminal: bool,
    selection: PushTargetSelection,
    progress: PushProgress,
    code: i32,
)
    requires
        push_flow::follows_push(
            options,
            json,
            stdin_is_terminal,
            selection,
            progress,
            PushAction::Cancel(code),
        ),
    ensures
        progress.current matches TargetProgress::Answered(report, approved) && !approved && {
            &&& report.action@ == "confirm_plan"@ && !report.ok ==> code == 4
            &&& report.ok ==> code == 0
        },
{
    lemma_action_words();
}

/// After the daemon was asked to push, its report is the result, its error is the failure, and
/// no answer in time is a failure too: only a daemon that cannot be had lets the push be done
/// without it.
pub proof fn law_the_answer_to_a_push_is_kept(
    reply: DaemonReport<PushReport>,
    timeout_ms: u64,
    r: PushStep,
)
    requires
        push::follows_submission(reply, timeout_ms, r),
    ensures
        match reply {
            DaemonReport::Report(report) => r matches PushStep::Finish(Ok(shown)) && shown
                == report,
            DaemonReport::Error(e) => r matches PushStep::Finish(Err(f)) && {
                &&& !f.error.ok
                &&& f.error.command@ == "push"@
                &&& f.error.code@ == e.code@
                &&& f.error.message@ == e.message@
                &&& f.exit_code == e.exit_code
            },
            DaemonReport::Unavailable(DaemonUnavailableReason::TimedOut) => r matches
                PushStep::Finish(Err(f)) && !f.error.ok && f.error.code@ == "daemon_timeout"@
                && f.exit_code == 1,
            DaemonReport::Unavailable(reason) => r matches PushStep::PushDirectly(why) && why
                == reason,
        },
{
}

proof fn lemma_value_matches(a: PropertyValue, b: PropertyValueOutput, c: PropertyValueOutput)
    requires
        preview::same_value(a, b),
        comparing::same_property(b, c),
    ensures
        preview::same_value(a, c),
    decreases a,
{
    match (a, b, c) {
        (
            PropertyValue::Array(x),
            PropertyValueOutput::Array(y),
            PropertyValueOutput::Array(z),
        ) => {
            assert forall|i: int| 0 <= i < x@.len() implies preview::same_value(
                #[trigger] x@[i],
                z@[i],
            ) by {
                assert(comparing::same_property(y@[i], z@[i]));
                lemma_value_matches(x@[i], y@[i], z@[i]);
            }
        },
        (
            PropertyValue::Object(x),
            PropertyValueOutput::Object(y),
            PropertyValueOutput::Object(z),
        ) => {
            assert forall|i: int| 0 <= i < x@.len() implies (#[trigger] x@[i]).key@ == z@[i].key@
                && preview::same_value(x@[i].value, z@[i].value) by {
                assert(y@[i].key@ == z@[i].key@);
                lemma_value_matches(x@[i].value, y@[i].value, z@[i].value);
            }
        },
        _ => {},
    }
}

proof fn lemma_properties_match(
    a: Seq<PropertyEntry>,
    b: Seq<PropertyUpdateOutput>,
    c: Seq<PropertyUpdateOutput>,
)
    requires
        preview::same_properties(a, b),
        comparing::same_entries(b, c),
    ensures
        preview::same_properties(a, c),
{
    assert forall|i: int| 0 <= i < a.len() implies (#[trigger] a[i]).key@ == c[i].key@
        && preview::same_value(a[i].value, c[i].value) by {
        assert(b[i].key@ == c[i].key@);
        lemma_value_matches(a[i].value, b[i].value, c[i].value);
    }
}

proof fn lemma_keys_match(a: Seq<PropertyEntry>, b: Seq<String>, c: Seq<String>)
    requires
        preview::names_the_keys(a, b),
        text::texts(b) == text::texts(c),
    ensures
        preview::names_the_keys(a, c),
{
    assert(text::texts(b).len() == b.len());
    assert(text::texts(c).len() == c.len());
    assert forall|i: int| 0 <= i < c.len() implies (#[trigger] c[i])@ == a[i].key@ by {
        assert(text::texts(c)[i] == c[i]@);
        assert(text::texts(b)[i] == b[i]@);
    }
}

proof fn lemma_operation_matches(
    a: PushOperation,
    b: PushOperationOutput,
    c: PushOperationOutput,
)
    requires
        preview::same_operation(a, b),
        comparing::same_operation(b, c),
    ensures
        preview::same_operation(a, c),
{
    match (a, b, c) {
        (
            PushOperation::UpdateProperties { properties: x, .. },
            PushOperationOutput::UpdateProperties { properties: y, keys: k, .. },
            PushOperationOutput::UpdateProperties { properties: z, keys: l, .. },
        ) => {
            lemma_properties_match(x@, y@, z@);
            lemma_keys_match(x@, k@, l@);
        },
        (
            PushOperation::CreateEntity { properties: x, .. },
            PushOperationOutput::CreateEntity { properties: y, keys: k, .. },
            PushOperationOutput::CreateEntity { properties: z, keys: l, .. },
        ) => {
            lemma_properties_match(x@, y@, z@);
            lemma_keys_match(x@, k@, l@);
        },
        _ => {},
    }
}

/// Whether what is shown is the plan: its counts, the entities that it affects and its
/// operations in their order.
pub open spec fn is_the_plan(plan: PushPlan, shown: PushPlanOutput) -> bool {
    &&& preview::counts_the_same(plan.summary, shown.summary)
    &&& text::texts(plan.affected_entities@) == text::texts(shown.affected_entities@)
    &&& plan.operations@.len() == shown.operations@.len()
    &&& forall|i: int|
        0 <= i < plan.operations@.len() ==> preview::same_operation(
            #[trigger] plan.operations@[i],
            shown.operations@[i],
        )
    &&& plan.degradations@.len() == shown.degradations@.len()
    &&& forall|i: int|
        0 <= i < plan.degradations@.len() ==> (#[trigger] plan.degradations@[i]).message@
            == shown.degradations@[i].message@
}

/// What is pushed is what was shown: where the plan of the daemon matches the one that a person
/// has seen, it is that plan, operation for operation and count for count, with the same
/// guardrail and the same issues.
pub proof fn law_what_is_pushed_is_what_was_shown(
    result: PushPipelineResult,
    seen: PushReport,
    of_daemon: PushReport,
)
    requires
        push::shows_result(result, seen),
        push::shows_same_plan(seen, of_daemon),
    ensures
        match (result.plan, of_daemon.plan) {
            (Some(plan), Some(shown)) => is_the_plan(plan, shown),
            (None, None) => true,
            _ => false,
        },
        of_daemon.validation@.len() == result.validation@.len(),
        forall|i: int|
            0 <= i < result.validation@.len() ==> {
                let issue = #[trigger] result.validation@[i];
                let shown = of_daemon.validation@[i];
                &&& shown.code@ == issue.code@
                &&& shown.file@ == issue.file@
                &&& shown.line == issue.line
                &&& shown.message@ == issue.message@
                &&& text::opt_text(shown.suggested_fix) == text::opt_text(issue.suggested_fix)
            },
        of_daemon.guardrail.decision@ == (if result.guardrail is Proceed {
            "proceed"@
        } else {
            "confirm_required"@
        }),
        result.guardrail matches diff::GuardrailDecision::ConfirmRequired { reasons }
            ==> text::texts(of_daemon.guardrail.reasons@) == text::texts(reasons@),
{
    if let (Some(plan), Some(a), Some(b)) = (result.plan, seen.plan, of_daemon.plan) {
        assert forall|i: int| 0 <= i < plan.operations@.len() implies preview::same_operation(
            #[trigger] plan.operations@[i],
            b.operations@[i],
        ) by {
            assert(diff::shows_operation(plan.operations@[i], a.operations@[i]));
            preview::lemma_same_operation(plan.operations@[i], a.operations@[i]);
            assert(comparing::same_operation(a.operations@[i], b.operations@[i]));
            lemma_operation_matches(plan.operations@[i], a.operations@[i], b.operations@[i]);
        }
        assert forall|i: int| 0 <= i < plan.degradations@.len() implies (
        #[trigger] plan.degradations@[i]).message@ == b.degradations@[i].message@ by {
            assert(diff::shows_degradation(plan.degradations@[i], a.degradations@[i]));
            assert(comparing::same_degradation(a.degradations@[i], b.degradations@[i]));
        }
        preview::law_counts_are_told_under_their_names(plan.summary);
    }
    assert forall|i: int| 0 <= i < result.validation@.len() implies ({
        let issue = #[trigger] result.validation@[i];
        let shown = of_daemon.validation@[i];
        &&& shown.code@ == issue.code@
        &&& shown.file@ == issue.file@
        &&& shown.line == issue.line
        &&& shown.message@ == issue.message@
        &&& text::opt_text(shown.suggested_fix) == text::opt_text(issue.suggested_fix)
    }) by {
        assert(comparing::same_issue(seen.validation@[i], of_daemon.validation@[i]));
    }
}

/// A pull is done without the daemon exactly where it is switched off, or cannot be had and no
/// virtual filesystem shows the mount; a daemon that did not answer in time is never
/// passed over.
pub proof fn law_pulls_pass_the_daemon_over_where_they_may(
    reason: DaemonUnavailableReason,
    mount: Option<MountConfig>,
)
    ensures
        pull::may_pull_directly(reason, mount) <==> {
            ||| reason is Disabled
            ||| reason is NotAvailable && match mount {
                Some(m) => m.projection is PlainFiles,
                None => true,
            }
        },
{
}

/// After a pull that changed what is listed, the folder that shows it is asked to look again: the
/// whole mount, the page or database that was pulled, the folder of a page, or the mount
/// point where none of these is known.
pub proof fn law_pulls_signal_the_folder_that_changed(
    style: PathStyle,
    relative: Seq<char>,
    entity: Option<EntityRecord>,
    pages: Seq<IndexedEntity>,
    root: Seq<char>,
    mount_point: Seq<char>,
)
    ensures
        ({
            let told = pull::signal_target(style, relative, entity, pages, root, mount_point);
            &&& relative.len() == 0 ==> told == root
            &&& relative.len() > 0 ==> match entity {
                Some(e) => if e.kind is Page || e.kind is Database {
                    told == e.remote_id@
                } else {
                    told == "path:"@ + e.path@
                },
                None => {
                    ||| told == mount_point && forall|i: int|
                        0 <= i < pages.len() ==> !((#[trigger] pages[i]).record.kind is Page
                            && paths::same(style, pages[i].container@, relative))
                    ||| exists|i: int|
                        0 <= i < pages.len() && (#[trigger] pages[i]).record.kind is Page
                            && paths::same(style, pages[i].container@, relative) && told
                            == "children:"@ + pages[i].record.remote_id@
                },
            }
        }),
{
    lemma_container(style, pages, relative);
}

proof fn lemma_container(style: PathStyle, pages: Seq<IndexedEntity>, relative: Seq<char>)
    ensures
        match pull::first_container(style, pages, relative) {
            Some(page) => exists|i: int|
                0 <= i < pages.len() && #[trigger] pages[i] == page && page.record.kind is Page
                    && paths::same(style, page.container@, relative),
            None => forall|i: int|
                0 <= i < pages.len() ==> !((#[trigger] pages[i]).record.kind is Page
                    && paths::same(style, pages[i].container@, relative)),
        },
    decreases pages.len(),
{
    if pages.len() > 0 && !pull::contains_children_at(style, pages[0], relative) {
        let rest = pages.skip(1);
        lemma_container(style, rest, relative);
        match pull::first_container(style, rest, relative) {
            Some(page) => {
                let i = choose|i: int|
                    0 <= i < rest.len() && #[trigger] rest[i] == page && page.record.kind is Page
                        && paths::same(style, page.container@, relative);
                assert(pages[i + 1] == page);
            },
            None => {
                assert forall|i: int| 0 <= i < pages.len() implies !((
                #[trigger] pages[i]).record.kind is Page && paths::same(
                    style,
                    pages[i].container@,
                    relative,
                )) by {
                    if i > 0 {
                        assert(pages[i] == rest[i - 1]);
                    }
                }
            },
        }
    }
}

/// A pull that may not pass the daemon over says whether it did not answer in time or is needed for
/// the mount, and to restart it.
pub proof fn law_refused_pulls_say_what_is_missing(
    error: CommandError,
    reason: DaemonUnavailableReason,
    mount: Option<MountConfig>,
    timeout_ms: u64,
)
    requires
        pull::refuses_direct_pull(error, reason, mount, timeout_ms),
    ensures
        !error.ok,
        error.command@ == "pull"@,
        text::opt_text(error.suggested_command) == Some("loc daemon restart"@),
        reason is TimedOut || reason is NotAvailable && mount is Some,
        reason is TimedOut ==> error.code@ == "daemon_timeout"@,
        reason is NotAvailable ==> error.code@ == "daemon_required"@,
        reason is TimedOut ==> text::begins_with(
            error.message@,
            "localityd did not respond within "@ + text::decimal(timeout_ms as nat) + "ms"@,
        ),
        reason is NotAvailable ==> text::begins_with(
            error.message@,
            "mount `"@ + mount->0.mount_id@ + "` uses projection `"@ + mount->0.projection.name()
                + "`"@,
        ),
{
    reveal_strlit("localityd did not respond within ");
    reveal_strlit("ms");
    reveal_strlit(
        "ms after the pull request was submitted; refusing direct fallback to avoid racing daemon hydration",
    );
    reveal_strlit("mount `");
    reveal_strlit("` uses projection `");
    reveal_strlit("`");
    reveal_strlit(
        "`; pull for virtual projections must run through localityd so the provider cache stays serialized",
    );
    if reason is TimedOut {
        let head = "localityd did not respond within "@ + text::decimal(timeout_ms as nat) + "ms"@;
        assert(error.message@.subrange(0, head.len() as int) =~= head);
    } else {
        let m = mount->0;
        let head = "mount `"@ + m.mount_id@ + "` uses projection `"@ + m.projection.name() + "`"@;
        assert(error.message@.subrange(0, head.len() as int) =~= head);
    }
}

/// A path of a Notion mount stands for the page that is recorded at it, or for the page of the
/// directory at it, and for nothing else. Only an index that cannot be read fails.
pub proof fn law_paths_stand_for_their_pages(
    mount: MountConfig,
    found: TargetEntities,
    command: Seq<char>,
    r: Result<Option<TargetPage>, CommandError>,
)
    requires
        repair::is_target_page(mount, found, command, r),
    ensures
        r is Ok && r->Ok_0 is Some ==> {
            let page = r->Ok_0->0;
            &&& mount.connector@ == "notion"@
            &&& page.entity.kind is Page
            &&& !page.in_directory ==> found.at_path == Ok::<_, StoreError>(Some(page.entity))
            &&& page.in_directory ==> found.is_directory && found.at_path == Ok::<_, StoreError>(
                None::<EntityRecord>,
            ) && found.at_page_document == Ok::<_, StoreError>(Some(page.entity))
        },
        mount.connector@ == "notion"@ && found.at_path is Ok && found.at_path->Ok_0 is Some
            && found.at_path->Ok_0->0.kind is Page ==> r is Ok && r->Ok_0 is Some,
        mount.connector@ == "notion"@ && found.at_path is Ok && found.at_path->Ok_0 is None
            && found.is_directory && found.at_page_document is Ok
            && found.at_page_document->Ok_0 is Some && found.at_page_document->Ok_0->0.kind is Page
            ==> r is Ok && r->Ok_0 is Some,
        r is Err <==> mount.connector@ == "notion"@ && (found.at_path is Err || (
        found.at_path->Ok_0 is None && found.is_directory && found.at_page_document is Err)),
        r matches Err(error) ==> {
            &&& error.command@ == command
            &&& error.code@ == "store_error"@
            &&& error.message@ == (if found.at_path is Err {
                found.at_path->Err_0.message@
            } else {
                found.at_page_document->Err_0.message@
            })
        },
{
}

} // verus!
