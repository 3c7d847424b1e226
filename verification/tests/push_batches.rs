use loc_cli::diff::GuardrailOutput;
use loc_cli::printing::push_reports_lines;
use loc_cli::push::{PushReport, PushTargetSelection};
use loc_cli::push_flow::{push, PushAction, PushProgress, TargetProgress};
use loc_cli::requests::PushOptions;

fn report(path: &str, action: &str, ok: bool) -> PushReport {
    PushReport {
        ok,
        command: "push",
        via: "daemon".to_string(),
        path: path.to_string(),
        mount_id: "m".to_string(),
        entity_id: "e".to_string(),
        validation: Vec::new(),
        plan: None,
        guardrail: GuardrailOutput::proceed(),
        action: action.to_string(),
        pipeline_action: action.to_string(),
        push_id: Some("push-1".to_string()),
        journal_status: None,
        changed_remote_ids: Vec::new(),
        reconciled_remote_ids: Vec::new(),
        apply_effect_count: 0,
        completed_stages: Vec::new(),
        message: None,
        unsupported: Vec::new(),
        suggested_fix: None,
    }
}

fn selection(scoped: bool, targets: &[&str]) -> PushTargetSelection {
    PushTargetSelection {
        requested_path: "/m".to_string(),
        scoped,
        targets: targets.iter().map(|target| target.to_string()).collect(),
    }
}

fn at(done: usize, current: TargetProgress) -> PushProgress {
    PushProgress { done, current }
}

const CAREFUL: PushOptions = PushOptions { assume_yes: false, confirm_dangerous: true };

fn next(selection: &PushTargetSelection, progress: &PushProgress) -> PushAction {
    push(&CAREFUL, false, true, selection, progress)
}

#[test]
fn empty_scope_has_nothing_to_push() {
    let untouched = at(0, TargetProgress::Untouched);
    assert!(matches!(next(&selection(true, &[]), &untouched), PushAction::SayNothingToPush));
    assert!(matches!(next(&selection(false, &[]), &untouched), PushAction::Show));
}

#[test]
fn each_target_is_pushed_and_kept_in_turn() {
    let both = selection(true, &["/m/a.md", "/m/b.md"]);
    assert!(matches!(
        next(&both, &at(0, TargetProgress::Untouched)),
        PushAction::PushTarget(PushOptions { assume_yes: false, confirm_dangerous: true })
    ));
    let reconciled = TargetProgress::Reported(report("/m/a.md", "reconciled", true));
    assert!(matches!(next(&both, &at(0, reconciled)), PushAction::Keep));
    assert!(matches!(
        next(&both, &at(1, TargetProgress::Untouched)),
        PushAction::PushTarget(_)
    ));
    assert!(matches!(next(&both, &at(2, TargetProgress::Untouched)), PushAction::Show));
}

#[test]
fn a_plan_that_wants_approval_is_asked_about_at_a_terminal() {
    let one = selection(false, &["/m/a.md"]);
    let waiting = || at(0, TargetProgress::Reported(report("/m/a.md", "confirm_plan", false)));
    assert!(matches!(push(&CAREFUL, false, true, &one, &waiting()), PushAction::Ask));
    assert!(matches!(push(&CAREFUL, false, false, &one, &waiting()), PushAction::Keep));
    assert!(matches!(push(&CAREFUL, true, true, &one, &waiting()), PushAction::Keep));
    let sure = PushOptions { assume_yes: true, confirm_dangerous: false };
    assert!(matches!(push(&sure, false, true, &one, &waiting()), PushAction::Keep));
}

#[test]
fn an_answer_approves_of_the_plan_alone() {
    let one = selection(false, &["/m/a.md"]);
    let answered = |yes: bool| {
        at(0, TargetProgress::Answered(report("/m/a.md", "confirm_plan", false), yes))
    };
    let timid = PushOptions { assume_yes: false, confirm_dangerous: false };
    assert!(matches!(
        push(&timid, false, true, &one, &answered(true)),
        PushAction::PushTarget(PushOptions { assume_yes: true, confirm_dangerous: false })
    ));
    assert!(matches!(push(&timid, false, true, &one, &answered(false)), PushAction::Cancel(4)));
    let again = TargetProgress::PushedAgain(report("/m/a.md", "confirm_plan", false));
    assert!(matches!(push(&timid, false, true, &one, &at(0, again)), PushAction::Keep));
}

#[test]
fn reports_of_a_scope_stand_under_their_targets() {
    let reports =
        vec![report("/m/a.md", "reconciled", true), report("/m/b.md", "confirm_plan", false)];
    assert_eq!(
        push_reports_lines(true, &reports),
        vec![
            "pushing /m/a.md".to_string(),
            "push push-1 reconciled (via daemon)".to_string(),
            "pushing /m/b.md".to_string(),
            "push requires confirmation; rerun with -y or --yes".to_string(),
        ]
    );
    let one = vec![report("/m/a.md", "noop", true)];
    assert_eq!(push_reports_lines(true, &one), vec!["nothing to push".to_string()]);
}
