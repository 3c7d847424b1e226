//! How an undo is told.
use crate::history;
use crate::history::{
    EntityUndoState, EntityUndoStateOutput, HistoryError, UndoOperation, UndoOperationOutput,
    UndoOutcome, UndoPlan, UndoPlanOutput,
};
use crate::laws::preview;
use crate::model::MountConfig;
use crate::reconcile;
use crate::undo_flow;
use crate::undo_flow::Undone;
use vstd::prelude::*;

verus! {

/// Whether what is shown is the state of an entity.
pub open spec fn same_state(a: EntityUndoState, b: EntityUndoStateOutput) -> bool {
    &&& a.parent_id == b.parent_id
    &&& a.title == b.title
    &&& a.body == b.body
    &&& a.archived == b.archived
    &&& preview::same_properties(a.properties@, b.properties@)
}

/// Whether what is shown is the step of an undo, with all that it works on.
pub open spec fn same_step(a: UndoOperation, b: UndoOperationOutput) -> bool {
    match b {
        UndoOperationOutput::RestoreBlockContent { block_id: i, content: c } => a matches
            UndoOperation::RestoreBlockContent { block_id, content } && block_id == i && content
            == c,
        UndoOperationOutput::MoveBlock { block_id: i, after: f } => a matches
            UndoOperation::MoveBlock { block_id, after } && block_id == i && after == f,
        UndoOperationOutput::RestoreArchivedBlock { block_id: i, parent_id: p, after: f, content: c }
        => a matches UndoOperation::RestoreArchivedBlock { block_id, parent_id, after, content }
            && block_id == i && parent_id == p && after == f && content == c,
        UndoOperationOutput::ArchiveCreatedBlock { block_id: i } => a matches
            UndoOperation::ArchiveCreatedBlock { block_id } && block_id == i,
        UndoOperationOutput::ArchiveCreatedEntity { entity_id: i, expected: e } => a matches
            UndoOperation::ArchiveCreatedEntity { entity_id, expected } && entity_id == i && (
        expected is Some <==> e is Some) && (e is Some ==> same_state(expected->0, e->0)),
        UndoOperationOutput::RestoreEntityBody { entity_id: i, expected_current: n, previous: p } =>
        a matches UndoOperation::RestoreEntityBody { entity_id, expected_current, previous }
            && entity_id == i && expected_current == n && previous == p,
        UndoOperationOutput::RestoreProperties { entity_id: i, expected_current: n, previous: p } =>
        a matches UndoOperation::RestoreProperties { entity_id, expected_current, previous }
            && entity_id == i && preview::same_properties(expected_current@, n@)
            && preview::same_properties(previous@, p@),
        UndoOperationOutput::RestoreEntityLocation {
            entity_id: i,
            expected_parent_id: np,
            expected_title: nt,
            previous_parent_id: pp,
            previous_title: pt,
        } => a matches UndoOperation::RestoreEntityLocation {
            entity_id,
            expected_parent_id,
            expected_title,
            previous_parent_id,
            previous_title,
        } && entity_id == i && expected_parent_id == np && expected_title == nt
            && previous_parent_id == pp && previous_title == pt,
        UndoOperationOutput::RestoreArchivedEntity { entity_id: i, expected: e } => a matches
            UndoOperation::RestoreArchivedEntity { entity_id, expected } && entity_id == i
            && same_state(expected, e),
    }
}

proof fn lemma_same_step(a: UndoOperation, b: UndoOperationOutput)
    requires
        history::shows_undo_operation(a, b),
    ensures
        same_step(a, b),
{
    match (a, b) {
        (
            UndoOperation::ArchiveCreatedEntity { expected: Some(s), .. },
            UndoOperationOutput::ArchiveCreatedEntity { expected: Some(t), .. },
        ) => {
            preview::law_properties_are_shown_as_they_are(s.properties@, t.properties@);
        },
        (
            UndoOperation::RestoreArchivedEntity { expected: s, .. },
            UndoOperationOutput::RestoreArchivedEntity { expected: t, .. },
        ) => {
            preview::law_properties_are_shown_as_they_are(s.properties@, t.properties@);
        },
        (
            UndoOperation::RestoreProperties { expected_current: n, previous: p, .. },
            UndoOperationOutput::RestoreProperties { expected_current: m, previous: q, .. },
        ) => {
            preview::law_properties_are_shown_as_they_are(n@, m@);
            preview::law_properties_are_shown_as_they_are(p@, q@);
        },
        _ => {},
    }
}

/// A plan to undo a push is shown whole: every step in its place with all that it works on, and
/// every operation that cannot be undone with the reason.
pub proof fn law_undo_plans_are_shown_as_they_are(plan: UndoPlan, shown: UndoPlanOutput)
    requires
        history::shows_undo_plan(plan, shown),
    ensures
        shown.target_push_id == plan.target_push_id,
        shown.mount_id == plan.mount_id,
        shown.affected_entities == plan.affected_entities,
        plan.status is Complete ==> shown.status@ == "complete"@,
        plan.status is Partial ==> shown.status@ == "partial"@,
        plan.status is Blocked ==> shown.status@ == "blocked"@,
        shown.operations@.len() == plan.operations@.len(),
        forall|i: int|
            0 <= i < shown.operations@.len() ==> same_step(
                plan.operations@[i],
                #[trigger] shown.operations@[i],
            ),
        shown.unsupported@.len() == plan.unsupported@.len(),
        forall|i: int|
            0 <= i < shown.unsupported@.len() ==> {
                let told = #[trigger] shown.unsupported@[i];
                let met = plan.unsupported@[i];
                told.operation_index == met.operation_index && told.code == met.code && told.message
                    == met.message
            },
{
    assert forall|i: int| 0 <= i < shown.operations@.len() implies same_step(
        plan.operations@[i],
        #[trigger] shown.operations@[i],
    ) by {
        assert(history::shows_undo_operation(plan.operations@[i], shown.operations@[i]));
        lemma_same_step(plan.operations@[i], shown.operations@[i]);
    }
}

/// An undo that the source took is told as that: the push is reverted, and what changed in the
/// source is named, with the plan that was followed. The journal is not marked a second time.
pub proof fn law_undone_pushes_are_told(undone: Undone, outcome: UndoOutcome)
    requires
        undo_flow::is_applied(undone, outcome),
    ensures
        !outcome.mark_reverted,
        outcome.report.ok,
        outcome.report.command@ == "undo"@,
        outcome.report.push_id == undone.entry.push_id,
        outcome.report.status@ == "reverted"@,
        outcome.report.action@ == "reverse_applied"@,
        outcome.report.message@ == "remote undo applied and journal entry marked reverted"@,
        outcome.report.changed_remote_ids == undone.changed_remote_ids,
        outcome.report.undo_plan is Some,
        outcome.report.undo_plan->0.target_push_id == undone.plan.target_push_id,
        outcome.report.undo_plan->0.operations@.len() == undone.plan.operations@.len(),
{
}

/// The folders of a mount are asked to catch up one after the other, as far as the first that does
/// not: that one is named with its reason.
pub proof fn law_the_first_folder_that_falls_behind_is_named<
    F: Fn(&str, &str) -> Result<(), String>,
>(refresh: F, mount: MountConfig, ids: Seq<Seq<char>>, r: Result<(), HistoryError>, k: int)
    requires
        reconcile::signal_outcome(refresh, mount, ids, r),
        0 <= k < ids.len(),
    ensures
        r is Ok ==> exists|a: &str, b: &str, answer: Result<(), String>|
            a@ == mount.mount_id@ && b@ == ids[k] && answer is Ok && #[trigger] call_ensures(
                refresh,
                (a, b),
                answer,
            ),
        r is Err ==> r->Err_0 is UndoProjectionRefreshFailed,
        r matches Err(HistoryError::UndoProjectionRefreshFailed { mount_id, identifier, reason })
            ==> mount_id == mount.mount_id && exists|i: int, a: &str, b: &str|
            0 <= i < ids.len() && identifier@ == #[trigger] ids[i] && a@ == mount_id@ && b@
                == identifier@ && #[trigger] call_ensures(refresh, (a, b), Err(reason)),
{
    match r {
        Ok(_) => {
            assert(reconcile::caught_up(refresh, mount.mount_id@, ids[k]));
        },
        Err(HistoryError::UndoProjectionRefreshFailed { mount_id, identifier, reason }) => {
            let i = choose|i: int|
                #[trigger] reconcile::stopped_at(
                    refresh,
                    mount.mount_id@,
                    ids,
                    i,
                    identifier@,
                    reason,
                );
            assert(reconcile::fell_behind(refresh, mount.mount_id@, ids[i], reason));
            let (a, b, answer) = choose|a: &str, b: &str, answer: Result<(), String>|
                a@ == mount.mount_id@ && b@ == ids[i] && (answer matches Err(why) && why == reason)
                    && #[trigger] call_ensures(refresh, (a, b), answer);
            assert(answer == Err::<(), String>(reason));
            assert(call_ensures(refresh, (a, b), Err(reason)));
        },
        Err(_) => {},
    }
}

} // verus!
