//! The order in which a push is undone at its source: what is done next, from
//! the journal entry to what is reported.
use vstd::prelude::*;

use crate::history;
use crate::history::{
    HistoryError, JournalEntry, JournalStatus, UndoOutcome, UndoPlan, UndoReport, run_undo,
};
use crate::model::{LocalityError, StoreError};
use crate::paths::PathStyle;
use crate::reconcile;
use crate::reconcile::{Reconciliation, ReconcileStep};
use crate::sorting;
use crate::text;
use crate::undo;
use crate::undo::{RemoteObservation, UndoContext};

verus! {

/// A push that is to be undone, and how.
#[derive(Debug, PartialEq, Eq)]
pub struct Undoing {
    pub entry: JournalEntry,
    pub plan: UndoPlan,
}

/// What the source did of an undo: the remote identifiers that it changed, and
/// what it then saw.
#[derive(Debug, PartialEq, Eq)]
pub struct SourceUndo {
    pub changed_remote_ids: Vec<String>,
    pub observations: Vec<RemoteObservation>,
}

/// A push that is undone at its source, and what that leaves to be done here.
#[derive(Debug, PartialEq, Eq)]
pub struct Reconciling {
    pub undone: Undone,
    /// What is done to the store and the files, in order.
    pub steps: Vec<ReconcileStep>,
    /// Why the undo fails after these steps, if it does.
    pub failure: Option<HistoryError>,
}

/// A push that is undone at its source and in the store.
#[derive(Debug, PartialEq, Eq)]
pub struct Undone {
    pub entry: JournalEntry,
    pub plan: UndoPlan,
    pub changed_remote_ids: Vec<String>,
}

/// What is done next of an undo.
#[derive(Debug, PartialEq, Eq)]
pub enum UndoStep {
    /// Have the source apply the plan.
    Apply(Undoing),
    Reconcile(Reconciling),
    /// Mark the journal entry as reverted, and refresh what shows the files.
    MarkReverted(Undone),
    Finish(UndoOutcome),
    Fail(HistoryError),
}

/// How an undo begins: the source is asked only to take back the latest push of
/// everything that it touches, and only where no local change would be lost.
pub open spec fn begins(
    style: PathStyle,
    context: UndoContext,
    entry: JournalEntry,
    plan: UndoPlan,
    latest: Seq<Option<String>>,
    r: UndoStep,
) -> bool {
    if !reconcile::is_remote_undo(entry, plan) {
        r matches UndoStep::Finish(outcome) && history::undo_outcome(entry, plan, outcome)
    } else {
        let ids = sorting::text_set(undo::touched(entry, plan));
        if !undo::is_latest_of(entry, ids, latest) {
            r matches UndoStep::Fail(e) && undo::names_later_push(e, entry, ids, latest)
        } else {
            match r {
                UndoStep::Apply(undoing) => undoing.entry == entry && undoing.plan == plan
                    && undo::local_state_allows(style, context, entry, plan, Ok(())),
                UndoStep::Fail(e) => undo::local_state_allows(style, context, entry, plan, Err(e)),
                _ => false,
            }
        }
    }
}

/// Begins to undo a push. `latest` gives, for everything that the push touches,
/// the latest push of it.
pub fn begin_source_undo(
    style: PathStyle,
    context: &UndoContext,
    undoing: Undoing,
    latest: &Vec<Option<String>>,
) -> (r: UndoStep)
    ensures
        begins(style, *context, undoing.entry, undoing.plan, latest@, r),
{
    match reconcile::begin_undo(style, context, &undoing.entry, &undoing.plan, latest) {
        Err(e) => UndoStep::Fail(e),
        Ok(true) => UndoStep::Apply(undoing),
        Ok(false) => {
            let push_id = undoing.entry.push_id.clone();
            match run_undo(push_id, Some(undoing.entry), undoing.plan) {
                Ok(outcome) => UndoStep::Finish(outcome),
                Err(e) => UndoStep::Fail(e),
            }
        },
    }
}

/// What finishing an undo comes to, once the source has changed these.
pub open spec fn finishes(
    style: PathStyle,
    context: UndoContext,
    undoing: Undoing,
    done: SourceUndo,
    r: Result<Reconciliation, HistoryError>,
) -> bool {
    let changed = text::texts(done.changed_remote_ids@);
    let left_out = undo::absent(
        sorting::text_set(undo::required(undoing.entry, undoing.plan)),
        changed,
    );
    if left_out.len() > 0 {
        r matches Err(HistoryError::IncompleteUndoApplyResult { missing }) && text::texts(missing@)
            == left_out
    } else {
        reconcile::reconciliation_result(
            style,
            context,
            undoing.entry,
            undoing.plan,
            changed,
            done.observations@,
            r,
        )
    }
}

/// What follows once the source was asked.
pub open spec fn follows_source(
    style: PathStyle,
    context: UndoContext,
    undoing: Undoing,
    outcome: Result<SourceUndo, LocalityError>,
    r: UndoStep,
) -> bool {
    match outcome {
        Err(error) => {
            &&& r matches UndoStep::Finish(o)
            &&& !o.mark_reverted
            &&& history::reports(
                o.report,
                false,
                undoing.entry.status,
                reconcile::refusal_action(error.kind),
                error.message@,
                undoing.entry,
            )
            &&& o.report.changed_remote_ids@.len() == 0
            &&& o.report.undo_plan matches Some(shown) && history::shows_undo_plan(
                undoing.plan,
                shown,
            )
        },
        Ok(done) => match r {
            UndoStep::Fail(e) => finishes(style, context, undoing, done, Err(e)),
            UndoStep::Reconcile(next) => next.undone == (Undone {
                entry: undoing.entry,
                plan: undoing.plan,
                changed_remote_ids: done.changed_remote_ids,
            }) && finishes(
                style,
                context,
                undoing,
                done,
                Ok(Reconciliation { steps: next.steps, failure: next.failure }),
            ),
            _ => false,
        },
    }
}

/// What is done once the source was asked to apply an undo.
pub fn after_source(
    style: PathStyle,
    context: &UndoContext,
    undoing: Undoing,
    outcome: Result<SourceUndo, LocalityError>,
) -> (r: UndoStep)
    ensures
        follows_source(style, *context, undoing, outcome, r),
{
    let done = match outcome {
        Err(error) => {
            let report = reconcile::refused_undo_report(undoing.entry, undoing.plan, error);
            return UndoStep::Finish(UndoOutcome { report, mark_reverted: false });
        },
        Ok(done) => done,
    };
    match reconcile::finish_undo(
        style,
        context,
        &undoing.entry,
        &undoing.plan,
        &done.changed_remote_ids,
        &done.observations,
    ) {
        Err(e) => UndoStep::Fail(e),
        Ok(reconciliation) => UndoStep::Reconcile(
            Reconciling {
                undone: Undone {
                    entry: undoing.entry,
                    plan: undoing.plan,
                    changed_remote_ids: done.changed_remote_ids,
                },
                steps: reconciliation.steps,
                failure: reconciliation.failure,
            },
        ),
    }
}

/// What follows once the steps of a reconciliation were done, or one of them
/// was not.
pub open spec fn follows_steps(
    undone: Undone,
    failure: Option<HistoryError>,
    done: Result<(), StoreError>,
    r: UndoStep,
) -> bool {
    match (done, failure) {
        (Err(e), _) => r == UndoStep::Fail(HistoryError::Store(e)),
        (Ok(_), Some(e)) => r == UndoStep::Fail(e),
        (Ok(_), None) => r == UndoStep::MarkReverted(undone),
    }
}

/// What is done once the steps of a reconciliation were done.
pub fn after_steps(
    undone: Undone,
    failure: Option<HistoryError>,
    done: Result<(), StoreError>,
) -> (r: UndoStep)
    ensures
        follows_steps(undone, failure, done, r),
{
    match (done, failure) {
        (Err(e), _) => UndoStep::Fail(HistoryError::Store(e)),
        (Ok(_), Some(e)) => UndoStep::Fail(e),
        (Ok(_), None) => UndoStep::MarkReverted(undone),
    }
}

/// Whether an outcome reports an undo that was applied.
pub open spec fn is_applied(undone: Undone, outcome: UndoOutcome) -> bool {
    &&& !outcome.mark_reverted
    &&& history::reports(
        outcome.report,
        true,
        JournalStatus::Reverted,
        "reverse_applied"@,
        "remote undo applied and journal entry marked reverted"@,
        undone.entry,
    )
    &&& outcome.report.changed_remote_ids == undone.changed_remote_ids
    &&& outcome.report.undo_plan matches Some(shown) && history::shows_undo_plan(
        undone.plan,
        shown,
    )
}

/// What is done once the journal was told and what shows the files was
/// refreshed: the first of the refreshes that failed is told.
pub fn after_marking(
    undone: Undone,
    marked: Result<(), StoreError>,
    refreshed: Vec<Result<(), HistoryError>>,
) -> (r: UndoStep)
    ensures
        match (marked, r) {
            (Err(e), _) => r == UndoStep::Fail(HistoryError::Store(e)),
            (Ok(_), UndoStep::Finish(outcome)) => is_applied(undone, outcome) && forall|i: int|
                0 <= i < refreshed@.len() ==> #[trigger] refreshed@[i] is Ok,
            (Ok(_), UndoStep::Fail(e)) => exists|i: int|
                0 <= i < refreshed@.len() && #[trigger] refreshed@[i] == Err::<(), _>(e) && forall|
                    k: int,
                |
                    0 <= k < i ==> #[trigger] refreshed@[k] is Ok,
            _ => false,
        },
{
    if let Err(e) = marked {
        return UndoStep::Fail(HistoryError::Store(e));
    }
    match reconcile::first_refresh_failure(refreshed) {
        Err(e) => UndoStep::Fail(e),
        Ok(_) => {
            let report: UndoReport = reconcile::applied_undo_report(
                undone.entry,
                undone.plan,
                undone.changed_remote_ids,
            );
            UndoStep::Finish(UndoOutcome { report, mark_reverted: false })
        },
    }
}

/// The source is asked to take a push back only where the whole of the push can
/// be taken back, no later push touched the same, and no local change would be
/// lost.
pub proof fn law_source_undo_is_safe(
    style: PathStyle,
    context: UndoContext,
    entry: JournalEntry,
    plan: UndoPlan,
    latest: Seq<Option<String>>,
    r: UndoStep,
)
    requires
        begins(style, context, entry, plan, latest, r),
        r is Apply,
    ensures
        reconcile::is_remote_undo(entry, plan),
        undo::is_latest_of(entry, sorting::text_set(undo::touched(entry, plan)), latest),
        undo::local_state_allows(style, context, entry, plan, Ok(())),
{
}

/// A journal entry is marked as reverted only after the source has changed all
/// that the plan needs and every step of the reconciliation was done.
pub proof fn law_reverted_pushes_are_reconciled(
    style: PathStyle,
    context: UndoContext,
    undoing: Undoing,
    outcome: Result<SourceUndo, LocalityError>,
    reconciling: Reconciling,
    done: Result<(), StoreError>,
    r: UndoStep,
)
    requires
        follows_source(style, context, undoing, outcome, UndoStep::Reconcile(reconciling)),
        follows_steps(reconciling.undone, reconciling.failure, done, r),
        r is MarkReverted,
    ensures
        outcome matches Ok(applied) && undo::absent(
            sorting::text_set(undo::required(undoing.entry, undoing.plan)),
            text::texts(applied.changed_remote_ids@),
        ).len() == 0,
        reconciling.failure is None,
        done is Ok,
        r->MarkReverted_0.entry == undoing.entry,
{
}

} // verus!
