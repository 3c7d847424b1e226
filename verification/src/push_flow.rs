//! One `push` over the targets of a selection: what to do next with each target.
use vstd::prelude::*;

use crate::push;
use crate::push::{
    nothing_to_push, push_report_exit_code, should_prompt_for_push_confirmation, PushReport,
    PushTargetSelection,
};
use crate::requests::PushOptions;

verus! {

/// How far the current target has come.
pub enum TargetProgress {
    /// Nothing has been done with it.
    Untouched,
    /// It was pushed with the options of the command.
    Reported(PushReport),
    /// The person was asked about the report, and this is the answer.
    Answered(PushReport, bool),
    /// It was pushed again after the person had approved of the plan.
    PushedAgain(PushReport),
}

/// How far a push has come: so many targets are done, and one is at work.
pub struct PushProgress {
    pub done: usize,
    pub current: TargetProgress,
}

/// What to do next.
pub enum PushAction {
    /// Say that there is nothing to push.
    SayNothingToPush,
    /// Push the current target with these options.
    PushTarget(PushOptions),
    /// Show the plan of the current report and ask whether to go on.
    Ask,
    /// Keep the current report and take up the next target.
    Keep,
    /// Say that the push was cancelled, and leave with this code.
    Cancel(i32),
    /// Every target is done: show the reports.
    Show,
}

/// What follows once the current target has come this far.
pub open spec fn follows_target(
    options: PushOptions,
    json: bool,
    stdin_is_terminal: bool,
    current: TargetProgress,
    action: PushAction,
) -> bool {
    match current {
        TargetProgress::Untouched => action == PushAction::PushTarget(options),
        TargetProgress::Reported(report) => if report.action@ == "confirm_plan"@
            && !options.assume_yes && !json && stdin_is_terminal {
            action is Ask
        } else {
            action is Keep
        },
        TargetProgress::Answered(report, true) => action == PushAction::PushTarget(
            PushOptions { assume_yes: true, confirm_dangerous: options.confirm_dangerous },
        ),
        TargetProgress::Answered(report, false) => action == PushAction::Cancel(
            push::exit_code_of(report.ok, report.action@),
        ),
        TargetProgress::PushedAgain(report) => action is Keep,
    }
}

/// What a push does next, after so much has been done.
pub open spec fn follows_push(
    options: PushOptions,
    json: bool,
    stdin_is_terminal: bool,
    selection: PushTargetSelection,
    progress: PushProgress,
    action: PushAction,
) -> bool {
    if selection.scoped && selection.targets@.len() == 0 {
        action is SayNothingToPush
    } else if progress.done >= selection.targets@.len() {
        action is Show
    } else {
        follows_target(options, json, stdin_is_terminal, progress.current, action)
    }
}

/// The next thing that a push over `selection` has to do.
pub fn push(
    options: &PushOptions,
    json: bool,
    stdin_is_terminal: bool,
    selection: &PushTargetSelection,
    progress: &PushProgress,
) -> (r: PushAction)
    ensures
        follows_push(*options, json, stdin_is_terminal, *selection, *progress, r),
{
    if nothing_to_push(selection) {
        return PushAction::SayNothingToPush;
    }
    if progress.done >= selection.targets.len() {
        return PushAction::Show;
    }
    let as_given = PushOptions {
        assume_yes: options.assume_yes,
        confirm_dangerous: options.confirm_dangerous,
    };
    match &progress.current {
        TargetProgress::Untouched => PushAction::PushTarget(as_given),
        TargetProgress::Reported(report) => {
            if should_prompt_for_push_confirmation(report, options, json, stdin_is_terminal) {
                PushAction::Ask
            } else {
                PushAction::Keep
            }
        },
        TargetProgress::Answered(report, approved) => {
            if *approved {
                PushAction::PushTarget(
                    PushOptions { assume_yes: true, confirm_dangerous: options.confirm_dangerous },
                )
            } else {
                PushAction::Cancel(push_report_exit_code(report))
            }
        },
        TargetProgress::PushedAgain(_) => PushAction::Keep,
    }
}

/// A target is pushed as approved only where the command line approved of every plan or the
/// person answered yes to the plan of that very target, and no answer ever confirms a dangerous
/// plan.
pub proof fn law_approval_is_given_by_a_person(
    options: PushOptions,
    json: bool,
    stdin_is_terminal: bool,
    selection: PushTargetSelection,
    progress: PushProgress,
    action: PushAction,
    with: PushOptions,
)
    requires
        follows_push(options, json, stdin_is_terminal, selection, progress, action),
        action == PushAction::PushTarget(with),
    ensures
        with.assume_yes ==> options.assume_yes || (progress.current is Answered
            && progress.current->Answered_1),
        with.confirm_dangerous == options.confirm_dangerous,
{
}

/// Where nobody can answer, or the output is for a program, or the command line approved of every
/// plan, nobody is asked.
pub proof fn law_asks_only_who_can_answer(
    options: PushOptions,
    json: bool,
    stdin_is_terminal: bool,
    selection: PushTargetSelection,
    progress: PushProgress,
    action: PushAction,
)
    requires
        follows_push(options, json, stdin_is_terminal, selection, progress, action),
        json || !stdin_is_terminal || options.assume_yes,
    ensures
        !(action is Ask),
{
}

/// Nobody is asked twice about one target: after an answer its plan is applied and kept, or the
/// push ends.
pub proof fn law_asks_once(
    options: PushOptions,
    json: bool,
    stdin_is_terminal: bool,
    selection: PushTargetSelection,
    progress: PushProgress,
    action: PushAction,
)
    requires
        follows_push(options, json, stdin_is_terminal, selection, progress, action),
        progress.current is Answered || progress.current is PushedAgain,
    ensures
        !(action is Ask),
        progress.current is PushedAgain ==> !(action is PushTarget),
{
}

} // verus!
