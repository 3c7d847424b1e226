//! The push journal: its log, and what undoing an entry comes to.
use vstd::prelude::*;

use crate::diff;
use crate::diff::{
    PlanSummaryOutput, PropertyEntry, PropertyUpdateOutput, PushPlan, ReadableDiffOutput,
};
use crate::diff::EntityKind;
use crate::model;
use crate::model::{Failure, ShadowDocument, StoreError, StoreErrorKind};
use crate::sorting;
use crate::sorting::Keyed;
use crate::text;

verus! {

/// How far a journaled push has come.
#[derive(Debug, PartialEq, Eq)]
pub enum JournalStatus {
    Prepared,
    Applying,
    Applied,
    Reconciled,
    Reverted,
    Failed(String),
}

/// The name of a journal status.
pub open spec fn status_text(status: JournalStatus) -> Seq<char> {
    match status {
        JournalStatus::Prepared => "prepared"@,
        JournalStatus::Applying => "applying"@,
        JournalStatus::Applied => "applied"@,
        JournalStatus::Reconciled => "reconciled"@,
        JournalStatus::Reverted => "reverted"@,
        JournalStatus::Failed(_) => "failed"@,
    }
}

/// The name of a journal status.
pub fn status_name(status: &JournalStatus) -> (r: &'static str)
    ensures
        r@ == status_text(*status),
{
    match status {
        JournalStatus::Prepared => "prepared",
        JournalStatus::Applying => "applying",
        JournalStatus::Applied => "applied",
        JournalStatus::Reconciled => "reconciled",
        JournalStatus::Reverted => "reverted",
        JournalStatus::Failed(_) => "failed",
    }
}

/// The failure that a status carries.
pub open spec fn failure_of(status: JournalStatus) -> Option<String> {
    match status {
        JournalStatus::Failed(message) => Some(message),
        _ => None,
    }
}

/// The name of a status and the failure that it carries.
pub fn status_parts(status: JournalStatus) -> (r: (String, Option<String>))
    ensures
        r.0@ == status_text(status),
        r.1 == failure_of(status),
{
    let name = status_name(&status).to_string();
    match status {
        JournalStatus::Failed(message) => (name, Some(message)),
        _ => (name, None),
    }
}

/// Why a journal entry in this status is not undone remotely.
pub open spec fn boundary_message_text(status: JournalStatus) -> Seq<char> {
    match status {
        JournalStatus::Applying =>
        "journal is currently applying; wait for it to finish before undoing"@,
        JournalStatus::Failed(_) =>
        "failed journals may have partial remote effects; remote undo requires pre-push snapshots"@,
        JournalStatus::Applied | JournalStatus::Reconciled =>
        "remote undo requires connector reverse-apply support"@,
        JournalStatus::Prepared | JournalStatus::Reverted =>
        "journal entry does not need remote undo"@,
    }
}

/// Why a journal entry in this status is not undone remotely.
pub fn undo_boundary_message(status: &JournalStatus) -> (r: &'static str)
    ensures
        r@ == boundary_message_text(*status),
{
    match status {
        JournalStatus::Applying =>
        "journal is currently applying; wait for it to finish before undoing",
        JournalStatus::Failed(_) =>
        "failed journals may have partial remote effects; remote undo requires pre-push snapshots",
        JournalStatus::Applied | JournalStatus::Reconciled =>
        "remote undo requires connector reverse-apply support",
        JournalStatus::Prepared | JournalStatus::Reverted =>
        "journal entry does not need remote undo",
    }
}

/// How much of a push an undo plan takes back.
#[derive(Clone, Copy, Debug, PartialEq, Eq, Structural)]
pub enum UndoPlanStatus {
    Complete,
    Partial,
    Blocked,
}

/// The name of an undo plan's status.
pub open spec fn plan_status_text(status: UndoPlanStatus) -> Seq<char> {
    match status {
        UndoPlanStatus::Complete => "complete"@,
        UndoPlanStatus::Partial => "partial"@,
        UndoPlanStatus::Blocked => "blocked"@,
    }
}

/// The name of an undo plan's status.
pub fn undo_plan_status_name(status: &UndoPlanStatus) -> (r: &'static str)
    ensures
        r@ == plan_status_text(*status),
{
    match status {
        UndoPlanStatus::Complete => "complete",
        UndoPlanStatus::Partial => "partial",
        UndoPlanStatus::Blocked => "blocked",
    }
}

/// The action that a report names where a plan is not applied.
pub open spec fn boundary_action(status: UndoPlanStatus) -> Seq<char> {
    match status {
        UndoPlanStatus::Complete => "reverse_apply_not_implemented"@,
        UndoPlanStatus::Partial => "undo_plan_partial"@,
        UndoPlanStatus::Blocked => "undo_plan_blocked"@,
    }
}

/// What a report says where a plan is not applied.
pub open spec fn boundary_text(status: UndoPlanStatus) -> Seq<char> {
    match status {
        UndoPlanStatus::Complete => "reverse apply is not implemented yet"@,
        UndoPlanStatus::Partial =>
        "undo plan is partial; some operations cannot be reversed safely"@,
        UndoPlanStatus::Blocked =>
        "no reversible operations can be derived from the journal preimages"@,
    }
}

/// The action and the words of a report where a plan is not applied.
pub fn undo_boundary(plan: &UndoPlan) -> (r: (&'static str, &'static str))
    ensures
        r.0@ == boundary_action(plan.status),
        r.1@ == boundary_text(plan.status),
{
    match plan.status {
        UndoPlanStatus::Complete => (
            "reverse_apply_not_implemented",
            "reverse apply is not implemented yet",
        ),
        UndoPlanStatus::Partial => (
            "undo_plan_partial",
            "undo plan is partial; some operations cannot be reversed safely",
        ),
        UndoPlanStatus::Blocked => (
            "undo_plan_blocked",
            "no reversible operations can be derived from the journal preimages",
        ),
    }
}

/// An entity as a push left it.
#[derive(Debug, PartialEq, Eq)]
pub struct EntityUndoState {
    pub parent_id: String,
    pub title: String,
    pub properties: Vec<PropertyEntry>,
    pub body: String,
    pub archived: bool,
}

/// One step of an undo plan.
#[allow(inconsistent_fields)]
#[derive(Debug, PartialEq, Eq)]
pub enum UndoOperation {
    RestoreBlockContent { block_id: String, content: String },
    MoveBlock { block_id: String, after: Option<String> },
    RestoreArchivedBlock {
        block_id: String,
        parent_id: String,
        after: Option<String>,
        content: String,
    },
    ArchiveCreatedBlock { block_id: String },
    ArchiveCreatedEntity { entity_id: String, expected: Option<EntityUndoState> },
    RestoreEntityBody { entity_id: String, expected_current: String, previous: String },
    RestoreProperties {
        entity_id: String,
        expected_current: Vec<PropertyEntry>,
        previous: Vec<PropertyEntry>,
    },
    RestoreEntityLocation {
        entity_id: String,
        expected_parent_id: String,
        expected_title: String,
        previous_parent_id: String,
        previous_title: String,
    },
    RestoreArchivedEntity { entity_id: String, expected: EntityUndoState },
}

/// A step of a push that cannot be taken back.
#[derive(Debug, PartialEq, Eq)]
pub struct UnsupportedUndoOperation {
    pub operation_index: usize,
    pub code: String,
    pub message: String,
}

/// What taking a push back consists of.
#[derive(Debug, PartialEq, Eq)]
pub struct UndoPlan {
    pub target_push_id: String,
    pub mount_id: String,
    pub affected_entities: Vec<String>,
    pub status: UndoPlanStatus,
    pub operations: Vec<UndoOperation>,
    pub unsupported: Vec<UnsupportedUndoOperation>,
}

/// An entity as a push left it, as a report shows it.
#[derive(Debug, PartialEq, Eq)]
pub struct EntityUndoStateOutput {
    pub parent_id: String,
    pub title: String,
    pub properties: Vec<PropertyUpdateOutput>,
    pub body: String,
    pub archived: bool,
}

/// One step of an undo plan, as a report shows it.
#[allow(inconsistent_fields)]
#[derive(Debug, PartialEq, Eq)]
pub enum UndoOperationOutput {
    RestoreBlockContent { block_id: String, content: String },
    MoveBlock { block_id: String, after: Option<String> },
    RestoreArchivedBlock {
        block_id: String,
        parent_id: String,
        after: Option<String>,
        content: String,
    },
    ArchiveCreatedBlock { block_id: String },
    ArchiveCreatedEntity { entity_id: String, expected: Option<EntityUndoStateOutput> },
    RestoreEntityBody { entity_id: String, expected_current: String, previous: String },
    RestoreProperties {
        entity_id: String,
        expected_current: Vec<PropertyUpdateOutput>,
        previous: Vec<PropertyUpdateOutput>,
    },
    RestoreEntityLocation {
        entity_id: String,
        expected_parent_id: String,
        expected_title: String,
        previous_parent_id: String,
        previous_title: String,
    },
    RestoreArchivedEntity { entity_id: String, expected: EntityUndoStateOutput },
}

/// A step of a push that cannot be taken back, as a report shows it.
#[derive(Debug, PartialEq, Eq)]
pub struct UnsupportedUndoOutput {
    pub operation_index: usize,
    pub code: String,
    pub message: String,
}

/// What taking a push back consists of, as a report shows it.
#[derive(Debug, PartialEq, Eq)]
pub struct UndoPlanOutput {
    pub target_push_id: String,
    pub mount_id: String,
    pub affected_entities: Vec<String>,
    pub status: String,
    pub operations: Vec<UndoOperationOutput>,
    pub unsupported: Vec<UnsupportedUndoOutput>,
}

/// Whether a report shows an entity state as it is.
pub open spec fn shows_state(state: EntityUndoState, output: EntityUndoStateOutput) -> bool {
    &&& output.parent_id == state.parent_id
    &&& output.title == state.title
    &&& diff::shows_entries(state.properties@, output.properties@)
    &&& output.body == state.body
    &&& output.archived == state.archived
}

impl EntityUndoStateOutput {
    /// An entity state as a report shows it.
    pub fn from(value: EntityUndoState) -> (r: Self)
        ensures
            shows_state(value, r),
    {
        let EntityUndoState { parent_id, title, properties, body, archived } = value;
        EntityUndoStateOutput {
            parent_id,
            title,
            properties: diff::property_updates(properties),
            body,
            archived,
        }
    }
}

/// Whether a report shows a step of an undo plan as it is.
pub open spec fn shows_undo_operation(operation: UndoOperation, output: UndoOperationOutput) -> bool {
    match operation {
        UndoOperation::RestoreBlockContent { block_id, content } => output == (
        UndoOperationOutput::RestoreBlockContent { block_id, content }),
        UndoOperation::MoveBlock { block_id, after } => output == (
        UndoOperationOutput::MoveBlock { block_id, after }),
        UndoOperation::RestoreArchivedBlock { block_id, parent_id, after, content } => output == (
        UndoOperationOutput::RestoreArchivedBlock { block_id, parent_id, after, content }),
        UndoOperation::ArchiveCreatedBlock { block_id } => output == (
        UndoOperationOutput::ArchiveCreatedBlock { block_id }),
        UndoOperation::ArchiveCreatedEntity { entity_id: id, expected: state } => output matches
            UndoOperationOutput::ArchiveCreatedEntity { entity_id, expected } && entity_id == id
            && match (state, expected) {
            (Some(a), Some(b)) => shows_state(a, b),
            (None, None) => true,
            _ => false,
        },
        UndoOperation::RestoreEntityBody { entity_id, expected_current, previous } => output == (
        UndoOperationOutput::RestoreEntityBody { entity_id, expected_current, previous }),
        UndoOperation::RestoreProperties { entity_id: id, expected_current: now, previous: then } =>
        output matches UndoOperationOutput::RestoreProperties {
            entity_id,
            expected_current,
            previous,
        } && entity_id == id && diff::shows_entries(now@, expected_current@) && diff::shows_entries(
            then@,
            previous@,
        ),
        UndoOperation::RestoreEntityLocation {
            entity_id,
            expected_parent_id,
            expected_title,
            previous_parent_id,
            previous_title,
        } => output == (UndoOperationOutput::RestoreEntityLocation {
            entity_id,
            expected_parent_id,
            expected_title,
            previous_parent_id,
            previous_title,
        }),
        UndoOperation::RestoreArchivedEntity { entity_id: id, expected: state } => output matches
            UndoOperationOutput::RestoreArchivedEntity { entity_id, expected } && entity_id == id
            && shows_state(state, expected),
    }
}

impl UndoOperationOutput {
    /// A step of an undo plan as a report shows it.
    pub fn from(value: UndoOperation) -> (r: Self)
        ensures
            shows_undo_operation(value, r),
    {
        match value {
            UndoOperation::RestoreBlockContent { block_id, content } =>
            UndoOperationOutput::RestoreBlockContent { block_id, content },
            UndoOperation::MoveBlock { block_id, after } => UndoOperationOutput::MoveBlock {
                block_id,
                after,
            },
            UndoOperation::RestoreArchivedBlock { block_id, parent_id, after, content } =>
            UndoOperationOutput::RestoreArchivedBlock { block_id, parent_id, after, content },
            UndoOperation::ArchiveCreatedBlock { block_id } =>
            UndoOperationOutput::ArchiveCreatedBlock { block_id },
            UndoOperation::ArchiveCreatedEntity { entity_id, expected } =>
            UndoOperationOutput::ArchiveCreatedEntity {
                entity_id,
                expected: match expected {
                    Some(state) => Some(EntityUndoStateOutput::from(state)),
                    None => None,
                },
            },
            UndoOperation::RestoreEntityBody { entity_id, expected_current, previous } =>
            UndoOperationOutput::RestoreEntityBody { entity_id, expected_current, previous },
            UndoOperation::RestoreProperties { entity_id, expected_current, previous } =>
            UndoOperationOutput::RestoreProperties {
                entity_id,
                expected_current: diff::property_updates(expected_current),
                previous: diff::property_updates(previous),
            },
            UndoOperation::RestoreEntityLocation {
                entity_id,
                expected_parent_id,
                expected_title,
                previous_parent_id,
                previous_title,
            } => UndoOperationOutput::RestoreEntityLocation {
                entity_id,
                expected_parent_id,
                expected_title,
                previous_parent_id,
                previous_title,
            },
            UndoOperation::RestoreArchivedEntity { entity_id, expected } =>
            UndoOperationOutput::RestoreArchivedEntity {
                entity_id,
                expected: EntityUndoStateOutput::from(expected),
            },
        }
    }
}

/// The refusal that a report shows.
pub open spec fn unsupported_output(value: UnsupportedUndoOperation) -> UnsupportedUndoOutput {
    UnsupportedUndoOutput {
        operation_index: value.operation_index,
        code: value.code,
        message: value.message,
    }
}

impl UnsupportedUndoOutput {
    /// The refusal that a report shows.
    pub fn from(value: UnsupportedUndoOperation) -> (r: Self)
        ensures
            r == unsupported_output(value),
    {
        UnsupportedUndoOutput {
            operation_index: value.operation_index,
            code: value.code,
            message: value.message,
        }
    }
}

/// Whether a report shows an undo plan as it is, step for step.
pub open spec fn shows_undo_plan(plan: UndoPlan, output: UndoPlanOutput) -> bool {
    &&& output.target_push_id == plan.target_push_id
    &&& output.mount_id == plan.mount_id
    &&& output.affected_entities == plan.affected_entities
    &&& output.status@ == plan_status_text(plan.status)
    &&& output.operations@.len() == plan.operations@.len()
    &&& forall|i: int|
        0 <= i < plan.operations@.len() ==> shows_undo_operation(
            #[trigger] plan.operations@[i],
            output.operations@[i],
        )
    &&& output.unsupported@ == Seq::new(
        plan.unsupported@.len(),
        |i: int| unsupported_output(plan.unsupported@[i]),
    )
}

impl UndoPlanOutput {
    /// An undo plan as a report shows it.
    pub fn from(value: UndoPlan) -> (r: Self)
        ensures
            shows_undo_plan(value, r),
    {
        let UndoPlan {
            target_push_id,
            mount_id,
            affected_entities,
            status,
            operations,
            unsupported,
        } = value;
        let ghost all = operations@;
        let ghost refused = unsupported@;
        let mut shown: Vec<UndoOperationOutput> = Vec::new();
        for operation in it: operations
            invariant
                it.seq() == all,
                shown@.len() == it.index(),
                forall|i: int|
                    0 <= i < shown@.len() ==> shows_undo_operation(#[trigger] all[i], shown@[i]),
        {
            shown.push(UndoOperationOutput::from(operation));
        }
        let mut refusals: Vec<UnsupportedUndoOutput> = Vec::new();
        for refusal in it: unsupported
            invariant
                it.seq() == refused,
                refusals@ == Seq::new(it.index() as nat, |i: int| unsupported_output(refused[i])),
        {
            refusals.push(UnsupportedUndoOutput::from(refusal));
        }
        UndoPlanOutput {
            target_push_id,
            mount_id,
            affected_entities,
            status: undo_plan_status_name(&status).to_string(),
            operations: shown,
            unsupported: refusals,
        }
    }
}

/// An entity before a push, with the parent and the kind that its frontmatter
/// names.
#[derive(Debug, PartialEq, Eq)]
pub struct JournalPreimage {
    pub entity_id: String,
    pub shadow: ShadowDocument,
    pub parent_id: Option<String>,
    pub kind: Option<EntityKind>,
}

/// What applying a step of a push did.
#[allow(inconsistent_fields)]
#[derive(Debug, PartialEq, Eq)]
pub enum JournalApplyEffect {
    UpdatedBlock { block_id: String },
    CreatedBlock { block_id: String },
    MovedBlock { block_id: String },
    ArchivedBlock { block_id: String },
    ArchivedEntity { entity_id: String },
    UpdatedEntityBody { entity_id: String },
    UpdatedProperties { entity_id: String },
    MovedEntity { entity_id: String },
    CreatedEntity { operation_index: usize, entity_id: String },
}

/// A journaled push.
#[derive(Debug, PartialEq, Eq)]
pub struct JournalEntry {
    pub push_id: String,
    pub mount_id: String,
    pub remote_ids: Vec<String>,
    pub plan: PushPlan,
    pub status: JournalStatus,
    pub preimages: Vec<JournalPreimage>,
    pub apply_effects: Vec<JournalApplyEffect>,
    pub author: String,
    pub previous_push_id: Option<String>,
    pub created_at_unix_ms: Option<u128>,
    pub readable_diff: Option<ReadableDiffOutput>,
}

/// A journaled push as a report shows it.
#[derive(Debug, PartialEq, Eq)]
pub struct JournalEntryOutput {
    pub push_id: String,
    pub mount_id: String,
    pub remote_ids: Vec<String>,
    pub status: String,
    pub failure: Option<String>,
    pub author: String,
    pub previous_push_id: Option<String>,
    pub created_at_unix_ms: Option<u128>,
    pub readable_diff: Option<ReadableDiffOutput>,
    pub preimage_count: usize,
    pub apply_effect_count: usize,
    pub plan_summary: PlanSummaryOutput,
    pub operation_count: usize,
}

/// Whether a report shows a journaled push as it is, with the status given and
/// the readable diff left out unless it is asked for.
pub open spec fn shows_entry(
    entry: JournalEntry,
    status: JournalStatus,
    include_diff: bool,
    output: JournalEntryOutput,
) -> bool {
    &&& output.push_id == entry.push_id
    &&& output.mount_id == entry.mount_id
    &&& output.remote_ids == entry.remote_ids
    &&& output.status@ == status_text(status)
    &&& output.failure == failure_of(status)
    &&& output.author == entry.author
    &&& output.previous_push_id == entry.previous_push_id
    &&& output.created_at_unix_ms == entry.created_at_unix_ms
    &&& output.readable_diff == (if include_diff {
        entry.readable_diff
    } else {
        None
    })
    &&& output.preimage_count == entry.preimages@.len()
    &&& output.apply_effect_count == entry.apply_effects@.len()
    &&& output.plan_summary == diff::summary_output(entry.plan.summary)
    &&& output.operation_count == entry.plan.operations@.len()
}

impl JournalEntryOutput {
    /// A journaled push as a report shows it.
    pub fn from_entry(value: JournalEntry, include_diff: bool) -> (r: Self)
        ensures
            shows_entry(value, value.status, include_diff, r),
    {
        let JournalEntry {
            push_id,
            mount_id,
            remote_ids,
            plan,
            status,
            preimages,
            apply_effects,
            author,
            previous_push_id,
            created_at_unix_ms,
            readable_diff,
        } = value;
        let (status, failure) = status_parts(status);
        JournalEntryOutput {
            push_id,
            mount_id,
            remote_ids,
            status,
            failure,
            author,
            previous_push_id,
            created_at_unix_ms,
            readable_diff: if include_diff {
                readable_diff
            } else {
                None
            },
            preimage_count: preimages.len(),
            apply_effect_count: apply_effects.len(),
            plan_summary: PlanSummaryOutput::from(plan.summary),
            operation_count: plan.operations.len(),
        }
    }

    /// A journaled push as a report shows it, without its readable diff.
    pub fn from(value: JournalEntry) -> (r: Self)
        ensures
            shows_entry(value, value.status, false, r),
    {
        JournalEntryOutput::from_entry(value, false)
    }
}

/// Why a journal command failed.
#[derive(Debug, PartialEq, Eq)]
pub enum HistoryError {
    MountNotFound(String),
    JournalNotFound(String),
    UndoNotLatest { push_id: String, entity_id: String, latest_push_id: Option<String> },
    IncompleteUndoApplyResult { missing: Vec<String> },
    UndoProjectionRefreshFailed { mount_id: String, identifier: String, reason: String },
    InvalidUndoObservation { entity_id: String, reason: String },
    UnsafeUndoLocalState { entity_id: String, reason: String },
    Store(StoreError),
}

impl HistoryError {
    /// The code that names the failure.
    pub open spec fn code_text(self) -> Seq<char> {
        match self {
            HistoryError::MountNotFound(_) => "mount_not_found"@,
            HistoryError::JournalNotFound(_) => "journal_not_found"@,
            HistoryError::UndoNotLatest { .. } => "undo_not_latest"@,
            HistoryError::IncompleteUndoApplyResult { .. } => "incomplete_undo_apply_result"@,
            HistoryError::UndoProjectionRefreshFailed { .. } => "undo_projection_refresh_failed"@,
            HistoryError::InvalidUndoObservation { .. } => "invalid_undo_observation"@,
            HistoryError::UnsafeUndoLocalState { .. } => "unsafe_undo_local_state"@,
            HistoryError::Store(error) => if error.kind == StoreErrorKind::EntityPathMissing {
                "entity_path_missing"@
            } else {
                "store_error"@
            },
        }
    }

    /// The code that names the failure.
    pub fn code(&self) -> (r: &'static str)
        ensures
            r@ == self.code_text(),
    {
        match self {
            HistoryError::MountNotFound(_) => "mount_not_found",
            HistoryError::JournalNotFound(_) => "journal_not_found",
            HistoryError::UndoNotLatest { .. } => "undo_not_latest",
            HistoryError::IncompleteUndoApplyResult { .. } => "incomplete_undo_apply_result",
            HistoryError::UndoProjectionRefreshFailed { .. } => "undo_projection_refresh_failed",
            HistoryError::InvalidUndoObservation { .. } => "invalid_undo_observation",
            HistoryError::UnsafeUndoLocalState { .. } => "unsafe_undo_local_state",
            HistoryError::Store(error) => if error.kind == StoreErrorKind::EntityPathMissing {
                "entity_path_missing"
            } else {
                "store_error"
            },
        }
    }

    /// What the failure is, in words.
    pub open spec fn message_text(self) -> Seq<char> {
        match self {
            HistoryError::MountNotFound(path) => "no Locality mount contains `"@ + path@ + "`"@,
            HistoryError::JournalNotFound(push_id) => "journal entry `"@ + push_id@
                + "` was not found"@,
            HistoryError::UndoNotLatest { push_id, entity_id, latest_push_id: Some(latest) } =>
            "cannot undo journal `"@ + push_id@ + "` because later journal `"@ + latest@
                + "` touches entity `"@ + entity_id@ + "`"@,
            HistoryError::UndoNotLatest { push_id, entity_id, latest_push_id: None } =>
            "cannot undo journal `"@ + push_id@
                + "` because it is not the active latest journal for entity `"@ + entity_id@
                + "`"@,
            HistoryError::IncompleteUndoApplyResult { missing } =>
            "undo apply result omitted changed entity ids required for reconciliation: "@
                + text::joined(text::texts(missing@), ", "@),
            HistoryError::UndoProjectionRefreshFailed { mount_id, identifier, reason } =>
            "undo updated provider state for mount `"@ + mount_id@
                + "` but could not refresh container `"@ + identifier@ + "`: "@ + reason@,
            HistoryError::InvalidUndoObservation { entity_id, reason } =>
            "undo observation for entity `"@ + entity_id@ + "` is invalid: "@ + reason@,
            HistoryError::UnsafeUndoLocalState { entity_id, reason } =>
            "local state for undo entity `"@ + entity_id@ + "` is unsafe: "@ + reason@,
            HistoryError::Store(error) => error.message@,
        }
    }

    /// What the failure is, in words.
    pub fn message(&self) -> (r: String)
        ensures
            r@ == self.message_text(),
    {
        match self {
            HistoryError::MountNotFound(path) => text::concat3(
                "no Locality mount contains `",
                path,
                "`",
            ),
            HistoryError::JournalNotFound(push_id) => text::concat3(
                "journal entry `",
                push_id,
                "` was not found",
            ),
            HistoryError::UndoNotLatest { push_id, entity_id, latest_push_id } => {
                match latest_push_id {
                    Some(latest) => {
                        let mut out = text::concat3(
                            "cannot undo journal `",
                            push_id,
                            "` because later journal `",
                        );
                        out.append(latest);
                        out.append("` touches entity `");
                        out.append(entity_id);
                        out.append("`");
                        out
                    },
                    None => {
                        let mut out = text::concat3(
                            "cannot undo journal `",
                            push_id,
                            "` because it is not the active latest journal for entity `",
                        );
                        out.append(entity_id);
                        out.append("`");
                        out
                    },
                }
            },
            HistoryError::IncompleteUndoApplyResult { missing } => {
                let mut out =
                    "undo apply result omitted changed entity ids required for reconciliation: ".to_string();
                out.append(&text::join(missing, ", "));
                out
            },
            HistoryError::UndoProjectionRefreshFailed { mount_id, identifier, reason } => {
                let mut out = text::concat3(
                    "undo updated provider state for mount `",
                    mount_id,
                    "` but could not refresh container `",
                );
                out.append(identifier);
                out.append("`: ");
                out.append(reason);
                out
            },
            HistoryError::InvalidUndoObservation { entity_id, reason } => {
                let mut out = text::concat3(
                    "undo observation for entity `",
                    entity_id,
                    "` is invalid: ",
                );
                out.append(reason);
                out
            },
            HistoryError::UnsafeUndoLocalState { entity_id, reason } => {
                let mut out = text::concat3(
                    "local state for undo entity `",
                    entity_id,
                    "` is unsafe: ",
                );
                out.append(reason);
                out
            },
            HistoryError::Store(error) => error.message.clone(),
        }
    }
}

/// Which mount and entity a log is asked for.
#[derive(Debug, PartialEq, Eq)]
pub struct PathFilter {
    pub mount_id: String,
    pub remote_id: String,
}

/// Which part of a mount a path was found to name.
#[derive(Debug, PartialEq, Eq)]
pub struct MatchedPath {
    pub mount_id: String,
    pub relative_path: String,
}

/// The entity that a path names: the one at the path itself, or, for a
/// directory, the one whose page document it holds.
///
/// `matched` is the mount that contains the path, `at_path` and `at_page` are
/// the entities that the store finds at the relative path and at the page
/// document below it, and `missing` is what the store says where it finds none.
pub fn resolve_path_filter(
    absolute_path: &String,
    matched: Option<MatchedPath>,
    is_directory: bool,
    at_path: Option<String>,
    at_page: Option<String>,
    missing: String,
) -> (r: Result<PathFilter, HistoryError>)
    ensures
        match matched {
            None => r == Err::<PathFilter, _>(HistoryError::MountNotFound(*absolute_path)),
            Some(place) => match (at_path, at_page) {
                (Some(id), _) => r == Ok::<_, HistoryError>(
                    PathFilter { mount_id: place.mount_id, remote_id: id },
                ),
                (None, Some(id)) if is_directory => r == Ok::<_, HistoryError>(
                    PathFilter { mount_id: place.mount_id, remote_id: id },
                ),
                _ => r == Err::<PathFilter, _>(
                    HistoryError::Store(
                        StoreError {
                            kind: StoreErrorKind::EntityPathMissing,
                            message: missing,
                        },
                    ),
                ),
            },
        },
{
    let place = match matched {
        Some(place) => place,
        None => {
            return Err(HistoryError::MountNotFound(absolute_path.clone()));
        },
    };
    match at_path {
        Some(remote_id) => {
            return Ok(PathFilter { mount_id: place.mount_id, remote_id });
        },
        None => {},
    }
    if is_directory {
        match at_page {
            Some(remote_id) => {
                return Ok(PathFilter { mount_id: place.mount_id, remote_id });
            },
            None => {},
        }
    }
    Err(
        HistoryError::Store(
            StoreError { kind: StoreErrorKind::EntityPathMissing, message: missing },
        ),
    )
}

/// The entity that an effect was on, if it was on one as a whole.
pub open spec fn effect_entity(effect: JournalApplyEffect) -> Option<Seq<char>> {
    match effect {
        JournalApplyEffect::ArchivedEntity { entity_id } => Some(entity_id@),
        JournalApplyEffect::UpdatedEntityBody { entity_id } => Some(entity_id@),
        JournalApplyEffect::UpdatedProperties { entity_id } => Some(entity_id@),
        JournalApplyEffect::MovedEntity { entity_id } => Some(entity_id@),
        JournalApplyEffect::CreatedEntity { entity_id, .. } => Some(entity_id@),
        _ => None,
    }
}

/// Whether an effect was on the entity as a whole.
pub fn apply_effect_matches_remote(effect: &JournalApplyEffect, remote_id: &str) -> (r: bool)
    ensures
        r == (effect_entity(*effect) == Some(remote_id@)),
{
    match effect {
        JournalApplyEffect::ArchivedEntity { entity_id } => text::same_text(entity_id, remote_id),
        JournalApplyEffect::UpdatedEntityBody { entity_id } => text::same_text(
            entity_id,
            remote_id,
        ),
        JournalApplyEffect::UpdatedProperties { entity_id } => text::same_text(
            entity_id,
            remote_id,
        ),
        JournalApplyEffect::MovedEntity { entity_id } => text::same_text(entity_id, remote_id),
        JournalApplyEffect::CreatedEntity { entity_id, .. } => text::same_text(
            entity_id,
            remote_id,
        ),
        _ => false,
    }
}

/// Whether a journaled push touched an entity of a mount: it is among the
/// entities named, among those that the plan affects, or an effect was on it.
pub open spec fn touches(entry: JournalEntry, filter: PathFilter) -> bool {
    &&& entry.mount_id@ == filter.mount_id@
    &&& {
        ||| text::texts(entry.remote_ids@).contains(filter.remote_id@)
        ||| text::texts(entry.plan.affected_entities@).contains(filter.remote_id@)
        ||| exists|i: int|
            0 <= i < entry.apply_effects@.len() && effect_entity(
                #[trigger] entry.apply_effects@[i],
            ) == Some(filter.remote_id@)
    }
}

/// Whether a journaled push touched an entity of a mount.
pub fn entry_matches_filter(entry: &JournalEntry, filter: &PathFilter) -> (r: bool)
    ensures
        r == touches(*entry, *filter),
{
    if !text::same_text(&entry.mount_id, &filter.mount_id) {
        return false;
    }
    if text::holds_text(&entry.remote_ids, &filter.remote_id) || text::holds_text(
        &entry.plan.affected_entities,
        &filter.remote_id,
    ) {
        return true;
    }
    let mut i: usize = 0;
    while i < entry.apply_effects.len()
        invariant
            i <= entry.apply_effects.len(),
            entry.mount_id@ == filter.mount_id@,
            forall|k: int|
                0 <= k < i ==> effect_entity(#[trigger] entry.apply_effects@[k]) != Some(
                    filter.remote_id@,
                ),
        decreases entry.apply_effects.len() - i,
    {
        if apply_effect_matches_remote(&entry.apply_effects[i], &filter.remote_id) {
            assert(effect_entity(entry.apply_effects@[i as int]) == Some(filter.remote_id@));
            return true;
        }
        i += 1;
    }
    false
}

impl Keyed for JournalEntry {
    open spec fn key_text(&self) -> Seq<char> {
        self.push_id@
    }

    fn key(&self) -> &str {
        self.push_id.as_str()
    }
}

/// Whether a log asked for this filter and push holds `entry`.
pub open spec fn is_asked_for(
    entry: JournalEntry,
    filter: Option<PathFilter>,
    push_id: Option<String>,
) -> bool {
    &&& filter matches Some(f) ==> touches(entry, f)
    &&& push_id matches Some(id) ==> entry.push_id@ == id@
}

/// The entries that a log asked for this filter and push holds.
pub open spec fn asked_for(
    entries: Seq<JournalEntry>,
    filter: Option<PathFilter>,
    push_id: Option<String>,
) -> Seq<JournalEntry>
    decreases entries.len(),
{
    if entries.len() == 0 {
        Seq::empty()
    } else {
        let before = asked_for(entries.drop_last(), filter, push_id);
        if is_asked_for(entries.last(), filter, push_id) {
            before.push(entries.last())
        } else {
            before
        }
    }
}

/// Entries from the latest push identifier to the earliest; entries with one
/// identifier keep their places among each other.
pub open spec fn latest_first(entries: Seq<JournalEntry>) -> Seq<JournalEntry> {
    sorting::sorted(entries.reverse()).reverse()
}

/// What a log is asked for, besides a path.
#[derive(Debug, PartialEq, Eq)]
pub struct LogOptions {
    pub push_id: Option<String>,
    pub include_diff: bool,
}

/// A log of journaled pushes.
#[derive(Debug, PartialEq, Eq)]
pub struct LogReport {
    pub ok: bool,
    pub command: &'static str,
    pub entries: Vec<JournalEntryOutput>,
}

/// Whether a report is the log of the journaled pushes that were asked for.
pub open spec fn is_log(
    entries: Seq<JournalEntry>,
    filter: Option<PathFilter>,
    options: LogOptions,
    r: LogReport,
) -> bool {
    let shown = latest_first(asked_for(entries, filter, options.push_id));
    &&& r.ok
    &&& r.command@ == "log"@
    &&& r.entries@.len() == shown.len()
    &&& forall|i: int|
        0 <= i < shown.len() ==> shows_entry(
            #[trigger] shown[i],
            shown[i].status,
            options.include_diff,
            r.entries@[i],
        )
}

/// The log of the journaled pushes that were asked for.
pub fn run_log(entries: Vec<JournalEntry>, filter: Option<PathFilter>, options: LogOptions) -> (r:
    LogReport)
    ensures
        is_log(entries@, filter, options, r),
        r.ok,
        r.command@ == "log"@,
        ({
            let shown = latest_first(asked_for(entries@, filter, options.push_id));
            r.entries@.len() == shown.len() && forall|i: int|
                0 <= i < shown.len() ==> shows_entry(
                    #[trigger] shown[i],
                    shown[i].status,
                    options.include_diff,
                    r.entries@[i],
                )
        }),
{
    let ghost all = entries@;
    let mut kept: Vec<JournalEntry> = Vec::new();
    assert(all.take(0) == Seq::<JournalEntry>::empty());
    for entry in it: entries
        invariant
            it.seq() == all,
            kept@ == asked_for(all.take(it.index() as int), filter, options.push_id),
    {
        assert(all.take(it.index() + 1).drop_last() == all.take(it.index() as int));
        let in_scope = match &filter {
            Some(filter) => entry_matches_filter(&entry, filter),
            None => true,
        };
        let named = match &options.push_id {
            Some(push_id) => text::same_text(&entry.push_id, push_id),
            None => true,
        };
        if in_scope && named {
            kept.push(entry);
        }
    }
    assert(all.take(all.len() as int) == all);
    let ordered = text::reversed(sorting::sort(text::reversed(kept)));
    let ghost shown = ordered@;
    let mut outputs: Vec<JournalEntryOutput> = Vec::new();
    for entry in it: ordered
        invariant
            it.seq() == shown,
            outputs@.len() == it.index(),
            forall|i: int|
                0 <= i < outputs@.len() ==> shows_entry(
                    #[trigger] shown[i],
                    shown[i].status,
                    options.include_diff,
                    outputs@[i],
                ),
    {
        outputs.push(JournalEntryOutput::from_entry(entry, options.include_diff));
    }
    LogReport { ok: true, command: "log", entries: outputs }
}

/// What undoing a journaled push came to.
#[derive(Debug, PartialEq, Eq)]
pub struct UndoReport {
    pub ok: bool,
    pub command: &'static str,
    pub push_id: String,
    pub status: String,
    pub action: String,
    pub message: String,
    pub changed_remote_ids: Vec<String>,
    pub entry: Option<JournalEntryOutput>,
    pub undo_plan: Option<UndoPlanOutput>,
}

/// Whether a report says this of `entry`, shown with the status given and
/// never with its readable diff.
pub open spec fn reports(
    report: UndoReport,
    ok: bool,
    status: JournalStatus,
    action: Seq<char>,
    message: Seq<char>,
    entry: JournalEntry,
) -> bool {
    &&& report.ok == ok
    &&& report.command@ == "undo"@
    &&& report.push_id == entry.push_id
    &&& report.status@ == status_text(status)
    &&& report.action@ == action
    &&& report.message@ == message
    &&& report.entry matches Some(shown) && shows_entry(entry, status, false, shown)
}

/// A report, and whether the journal entry is to be marked reverted before it
/// is given.
#[derive(Debug, PartialEq, Eq)]
pub struct UndoOutcome {
    pub report: UndoReport,
    pub mark_reverted: bool,
}

/// A report on `entry`, shown with the status given.
pub fn undo_report(
    ok: bool,
    status: JournalStatus,
    action: &str,
    message: &str,
    entry: JournalEntry,
    changed_remote_ids: Vec<String>,
    undo_plan: Option<UndoPlanOutput>,
) -> (r: UndoReport)
    ensures
        reports(r, ok, status, action@, message@, entry),
        r.changed_remote_ids == changed_remote_ids,
        r.undo_plan == undo_plan,
{
    let status_text = status_name(&status).to_string();
    let push_id = entry.push_id.clone();
    let shown = JournalEntry { status, ..entry };
    UndoReport {
        ok,
        command: "undo",
        push_id,
        status: status_text,
        action: action.to_string(),
        message: message.to_string(),
        changed_remote_ids,
        entry: Some(JournalEntryOutput::from_entry(shown, false)),
        undo_plan,
    }
}

/// A copy of a journal status.
pub fn clone_status(status: &JournalStatus) -> (r: JournalStatus)
    ensures
        r == *status,
{
    match status {
        JournalStatus::Prepared => JournalStatus::Prepared,
        JournalStatus::Applying => JournalStatus::Applying,
        JournalStatus::Applied => JournalStatus::Applied,
        JournalStatus::Reconciled => JournalStatus::Reconciled,
        JournalStatus::Reverted => JournalStatus::Reverted,
        JournalStatus::Failed(message) => JournalStatus::Failed(message.clone()),
    }
}

/// What undoing `entry` locally comes to.
pub open spec fn undo_outcome(entry: JournalEntry, plan: UndoPlan, r: UndoOutcome) -> bool {
    &&& r.report.changed_remote_ids@.len() == 0
    &&& match entry.status {
        JournalStatus::Prepared => {
            &&& r.mark_reverted
            &&& reports(
                r.report,
                true,
                JournalStatus::Reverted,
                "reverted_local_journal"@,
                "journal entry reverted before remote apply"@,
                entry,
            )
            &&& r.report.undo_plan is None
        },
        JournalStatus::Reverted => {
            &&& !r.mark_reverted
            &&& reports(
                r.report,
                true,
                JournalStatus::Reverted,
                "already_reverted"@,
                "journal entry was already reverted"@,
                entry,
            )
            &&& r.report.undo_plan is None
        },
        JournalStatus::Failed(_) if entry.apply_effects@.len() == 0 => {
            &&& r.mark_reverted
            &&& reports(
                r.report,
                true,
                JournalStatus::Reverted,
                "reverted_empty_failed_journal"@,
                "failed journal had no recorded remote effects and was marked reverted"@,
                entry,
            )
            &&& r.report.undo_plan is None
        },
        JournalStatus::Applied | JournalStatus::Reconciled => {
            &&& !r.mark_reverted
            &&& reports(
                r.report,
                false,
                entry.status,
                boundary_action(plan.status),
                boundary_text(plan.status),
                entry,
            )
            &&& r.report.undo_plan matches Some(shown) && shows_undo_plan(plan, shown)
        },
        _ => {
            &&& !r.mark_reverted
            &&& reports(
                r.report,
                false,
                entry.status,
                "undo_unsafe_journal_status"@,
                boundary_message_text(entry.status),
                entry,
            )
            &&& r.report.undo_plan is None
        },
    }
}

/// What undoing a journaled push comes to without a connector: pushes that
/// never reached the remote side are marked reverted, the others are reported.
///
/// `entry` is what the journal holds for `push_id` and `plan` is the plan that
/// would take it back.
pub fn run_undo(push_id: String, entry: Option<JournalEntry>, plan: UndoPlan) -> (r: Result<
    UndoOutcome,
    HistoryError,
>)
    ensures
        match entry {
            None => r == Err::<UndoOutcome, _>(HistoryError::JournalNotFound(push_id)),
            Some(entry) => r matches Ok(outcome) && undo_outcome(entry, plan, outcome),
        },
{
    let entry = match entry {
        Some(entry) => entry,
        None => {
            return Err(HistoryError::JournalNotFound(push_id));
        },
    };
    let status = clone_status(&entry.status);
    let none: Vec<String> = Vec::new();
    let (report, mark_reverted) = match status {
        JournalStatus::Prepared => (
            undo_report(
                true,
                JournalStatus::Reverted,
                "reverted_local_journal",
                "journal entry reverted before remote apply",
                entry,
                none,
                None,
            ),
            true,
        ),
        JournalStatus::Reverted => (
            undo_report(
                true,
                JournalStatus::Reverted,
                "already_reverted",
                "journal entry was already reverted",
                entry,
                none,
                None,
            ),
            false,
        ),
        JournalStatus::Failed(_) if entry.apply_effects.len() == 0 => (
            undo_report(
                true,
                JournalStatus::Reverted,
                "reverted_empty_failed_journal",
                "failed journal had no recorded remote effects and was marked reverted",
                entry,
                none,
                None,
            ),
            true,
        ),
        JournalStatus::Applied | JournalStatus::Reconciled => {
            let (action, message) = undo_boundary(&plan);
            (
                undo_report(
                    false,
                    status,
                    action,
                    message,
                    entry,
                    none,
                    Some(UndoPlanOutput::from(plan)),
                ),
                false,
            )
        },
        status => {
            let message = undo_boundary_message(&status);
            (
                undo_report(
                    false,
                    status,
                    "undo_unsafe_journal_status",
                    message,
                    entry,
                    none,
                    None,
                ),
                false,
            )
        },
    };
    Ok(UndoOutcome { report, mark_reverted })
}

/// The exit code for an undo report.
pub open spec fn undo_exit_code(ok: bool, action: Seq<char>) -> i32 {
    if ok {
        0
    } else if action == "reverse_apply_failed"@ {
        1
    } else {
        5
    }
}

/// Undoing without the source marks a push as reverted only where nothing of it
/// can have reached the source, and succeeds only there or where it was reverted
/// before. What a push changed in words stays out of the report.
pub proof fn law_undo_without_source_reverts_untouched_pushes(
    entry: JournalEntry,
    plan: UndoPlan,
    outcome: UndoOutcome,
)
    requires
        undo_outcome(entry, plan, outcome),
    ensures
        outcome.mark_reverted <==> {
            ||| entry.status is Prepared
            ||| entry.status is Failed && entry.apply_effects@.len() == 0
        },
        outcome.report.ok <==> outcome.mark_reverted || entry.status is Reverted,
        outcome.report.entry matches Some(shown) && shown.readable_diff is None,
{
}

/// What is done with a push that is to be undone.
#[derive(Debug, PartialEq, Eq)]
pub enum UndoRoute {
    /// Nothing of it reached the source: the journal alone is looked at.
    Journal(JournalEntry),
    /// Its source has to be found, to apply the reverse of it there.
    Source(JournalEntry),
    Fail(Failure),
}

/// What is done with a push that is to be undone; `found` is what the journal
/// has of it.
pub fn undo_route(push_id: &str, found: Result<Option<JournalEntry>, StoreError>) -> (r: UndoRoute)
    ensures
        match found {
            Err(e) => r matches UndoRoute::Fail(f) && model::is_failure(
                f,
                "undo"@,
                "store_error"@,
                e.message@,
                1,
            ),
            Ok(None) => r matches UndoRoute::Fail(f) && model::is_failure(
                f,
                "undo"@,
                "journal_not_found"@,
                "journal entry `"@ + push_id@ + "` was not found"@,
                2,
            ),
            Ok(Some(entry)) => if entry.status is Applied || entry.status is Reconciled {
                r == UndoRoute::Source(entry)
            } else {
                r == UndoRoute::Journal(entry)
            },
        },
{
    let entry = match found {
        Err(e) => {
            return UndoRoute::Fail(Failure::new("undo", "store_error", e.message, 1));
        },
        Ok(None) => {
            return UndoRoute::Fail(
                Failure::new(
                    "undo",
                    "journal_not_found",
                    text::concat3("journal entry `", push_id, "` was not found"),
                    2,
                ),
            );
        },
        Ok(Some(entry)) => entry,
    };
    match &entry.status {
        JournalStatus::Applied | JournalStatus::Reconciled => UndoRoute::Source(entry),
        _ => UndoRoute::Journal(entry),
    }
}

/// The exit code for an undo report.
pub fn undo_report_exit_code(report: &UndoReport) -> (r: i32)
    ensures
        r == undo_exit_code(report.ok, report.action@),
{
    if report.ok {
        0
    } else if text::same_text(&report.action, "reverse_apply_failed") {
        1
    } else {
        5
    }
}

} // verus!
