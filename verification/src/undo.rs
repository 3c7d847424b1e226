//! Undoing an applied push: which entities it touches, whether local state
//! allows it, whether the remote side confirms it, and what it changes locally.
use vstd::prelude::*;

use crate::diff::{EntityKind, PushOperation};
use crate::history::{HistoryError, JournalApplyEffect, JournalEntry, JournalPreimage};
use crate::history::{UndoOperation, UndoPlan};
use crate::model;
use crate::model::{EntityRecord, HydrationState, MountConfig, ShadowDocument};
use crate::model::{StoreError, StoreErrorKind, VirtualMutationRecord};
use crate::paths;
use crate::paths::{PathComponent, PathStyle};
use crate::sorting;
use crate::text;

verus! {

/// The entity that a step of an undo plan is on as a whole.
pub open spec fn operation_entity(operation: UndoOperation) -> Option<String> {
    match operation {
        UndoOperation::ArchiveCreatedEntity { entity_id, .. } => Some(entity_id),
        UndoOperation::RestoreEntityBody { entity_id, .. } => Some(entity_id),
        UndoOperation::RestoreProperties { entity_id, .. } => Some(entity_id),
        UndoOperation::RestoreEntityLocation { entity_id, .. } => Some(entity_id),
        UndoOperation::RestoreArchivedEntity { entity_id, .. } => Some(entity_id),
        _ => None,
    }
}

/// The entity that a step of an undo plan is on as a whole.
pub fn entity_undo_operation_id(operation: &UndoOperation) -> (r: Option<String>)
    ensures
        r == operation_entity(*operation),
{
    match operation {
        UndoOperation::ArchiveCreatedEntity { entity_id, .. } => Some(entity_id.clone()),
        UndoOperation::RestoreEntityBody { entity_id, .. } => Some(entity_id.clone()),
        UndoOperation::RestoreProperties { entity_id, .. } => Some(entity_id.clone()),
        UndoOperation::RestoreEntityLocation { entity_id, .. } => Some(entity_id.clone()),
        UndoOperation::RestoreArchivedEntity { entity_id, .. } => Some(entity_id.clone()),
        _ => None,
    }
}

/// The entities that the steps are on as a whole, in order.
pub open spec fn operation_entities(operations: Seq<UndoOperation>) -> Seq<Seq<char>>
    decreases operations.len(),
{
    if operations.len() == 0 {
        Seq::empty()
    } else {
        let before = operation_entities(operations.drop_last());
        match operation_entity(operations.last()) {
            Some(id) => before.push(id@),
            None => before,
        }
    }
}

/// The created entities that the steps archive, in order.
pub open spec fn archived_creations(operations: Seq<UndoOperation>) -> Seq<Seq<char>>
    decreases operations.len(),
{
    if operations.len() == 0 {
        Seq::empty()
    } else {
        let before = archived_creations(operations.drop_last());
        match operations.last() {
            UndoOperation::ArchiveCreatedEntity { entity_id, .. } => before.push(entity_id@),
            _ => before,
        }
    }
}

/// The entities that have a preimage, in order.
pub open spec fn preimage_entities(preimages: Seq<JournalPreimage>) -> Seq<Seq<char>> {
    Seq::new(preimages.len(), |i: int| preimages[i].entity_id@)
}

/// Every entity that a push or its undo plan names.
pub open spec fn touched(entry: JournalEntry, plan: UndoPlan) -> Seq<Seq<char>> {
    text::texts(entry.remote_ids@) + text::texts(entry.plan.affected_entities@)
        + preimage_entities(entry.preimages@) + operation_entities(plan.operations@)
}

/// Every entity that an undo has to report as changed.
pub open spec fn required(entry: JournalEntry, plan: UndoPlan) -> Seq<Seq<char>> {
    preimage_entities(entry.preimages@) + operation_entities(plan.operations@)
}

fn preimage_ids(preimages: &Vec<JournalPreimage>) -> (r: Vec<String>)
    ensures
        text::texts(r@) == preimage_entities(preimages@),
{
    let mut ids: Vec<String> = Vec::new();
    let mut i: usize = 0;
    while i < preimages.len()
        invariant
            i <= preimages.len(),
            text::texts(ids@) == preimage_entities(preimages@).take(i as int),
        decreases preimages.len() - i,
    {
        let ghost before = text::texts(ids@);
        ids.push(preimages[i].entity_id.clone());
        assert(text::texts(ids@) =~= before.push(preimages@[i as int].entity_id@));
        i += 1;
    }
    ids
}

fn operation_ids(operations: &Vec<UndoOperation>) -> (r: Vec<String>)
    ensures
        text::texts(r@) == operation_entities(operations@),
{
    let mut ids: Vec<String> = Vec::new();
    let mut i: usize = 0;
    assert(operations@.take(0) == Seq::<UndoOperation>::empty());
    while i < operations.len()
        invariant
            i <= operations.len(),
            text::texts(ids@) == operation_entities(operations@.take(i as int)),
        decreases operations.len() - i,
    {
        let ghost before = text::texts(ids@);
        assert(operations@.take(i + 1).drop_last() == operations@.take(i as int));
        match entity_undo_operation_id(&operations[i]) {
            Some(id) => {
                let ghost named = id@;
                ids.push(id);
                assert(text::texts(ids@) =~= before.push(named));
            },
            None => {},
        }
        i += 1;
    }
    assert(operations@.take(i as int) == operations@);
    ids
}

/// The created entities that the steps archive, in order.
pub fn archived_creation_ids(operations: &Vec<UndoOperation>) -> (r: Vec<String>)
    ensures
        text::texts(r@) == archived_creations(operations@),
{
    let mut ids: Vec<String> = Vec::new();
    let mut i: usize = 0;
    assert(operations@.take(0) == Seq::<UndoOperation>::empty());
    while i < operations.len()
        invariant
            i <= operations.len(),
            text::texts(ids@) == archived_creations(operations@.take(i as int)),
        decreases operations.len() - i,
    {
        let ghost before = text::texts(ids@);
        assert(operations@.take(i + 1).drop_last() == operations@.take(i as int));
        match &operations[i] {
            UndoOperation::ArchiveCreatedEntity { entity_id, .. } => {
                ids.push(entity_id.clone());
                assert(text::texts(ids@) =~= before.push(entity_id@));
            },
            _ => {},
        }
        i += 1;
    }
    assert(operations@.take(i as int) == operations@);
    ids
}

/// The entities that a push or its undo plan names, each once, in order.
pub fn undo_touched_entity_ids(entry: &JournalEntry, plan: &UndoPlan) -> (r: Vec<String>)
    ensures
        text::texts(r@) == sorting::text_set(touched(*entry, *plan)),
{
    let ghost a = text::texts(entry.remote_ids@);
    let ghost b = text::texts(entry.plan.affected_entities@);
    let ghost c = preimage_entities(entry.preimages@);
    let ghost d = operation_entities(plan.operations@);
    let ghost none = Seq::<Seq<char>>::empty();
    let mut ids: Vec<String> = Vec::new();
    proof {
        assert(text::texts(ids@) =~= none);
        sorting::lemma_set_extend(none, a);
        sorting::lemma_set_extend(none + a, b);
        sorting::lemma_set_extend(none + a + b, c);
        sorting::lemma_set_extend(none + a + b + c, d);
        assert(none + a + b + c + d =~= touched(*entry, *plan));
    }
    sorting::insert_texts(&mut ids, &entry.remote_ids);
    sorting::insert_texts(&mut ids, &entry.plan.affected_entities);
    sorting::insert_texts(&mut ids, &preimage_ids(&entry.preimages));
    sorting::insert_texts(&mut ids, &operation_ids(&plan.operations));
    ids
}

fn required_ids(entry: &JournalEntry, plan: &UndoPlan) -> (r: Vec<String>)
    ensures
        text::texts(r@) == sorting::text_set(required(*entry, *plan)),
{
    let ghost c = preimage_entities(entry.preimages@);
    let ghost d = operation_entities(plan.operations@);
    let ghost none = Seq::<Seq<char>>::empty();
    let mut ids: Vec<String> = Vec::new();
    proof {
        assert(text::texts(ids@) =~= none);
        sorting::lemma_set_extend(none, c);
        sorting::lemma_set_extend(none + c, d);
        assert(none + c + d =~= required(*entry, *plan));
    }
    sorting::insert_texts(&mut ids, &preimage_ids(&entry.preimages));
    sorting::insert_texts(&mut ids, &operation_ids(&plan.operations));
    ids
}

/// What the journal says is the latest push for the `i`-th entity.
pub open spec fn latest_for(latest: Seq<Option<String>>, i: int) -> Option<Seq<char>> {
    if 0 <= i < latest.len() {
        text::opt_text(latest[i])
    } else {
        None
    }
}

/// Whether an error names the first entity of which another push is the latest.
pub open spec fn names_later_push(
    error: HistoryError,
    entry: JournalEntry,
    ids: Seq<Seq<char>>,
    latest: Seq<Option<String>>,
) -> bool {
    exists|i: int| #[trigger] names_later_push_of(error, entry, ids, latest, i)
}

/// Whether an error names the entity at `i`, which is the first of which
/// another push is the latest.
pub open spec fn names_later_push_of(
    error: HistoryError,
    entry: JournalEntry,
    ids: Seq<Seq<char>>,
    latest: Seq<Option<String>>,
    i: int,
) -> bool {
    &&& 0 <= i < ids.len()
    &&& latest_for(latest, i) != Some(entry.push_id@)
    &&& forall|k: int| 0 <= k < i ==> #[trigger] latest_for(latest, k) == Some(entry.push_id@)
    &&& error matches HistoryError::UndoNotLatest { push_id, entity_id, latest_push_id }
    &&& push_id == entry.push_id
    &&& entity_id@ == ids[i]
    &&& text::opt_text(latest_push_id) == latest_for(latest, i)
}

/// Whether a push is the latest of each of these entities.
pub open spec fn is_latest_of(
    entry: JournalEntry,
    ids: Seq<Seq<char>>,
    latest: Seq<Option<String>>,
) -> bool {
    forall|i: int|
        0 <= i < ids.len() ==> #[trigger] latest_for(latest, i) == Some(entry.push_id@)
}

/// Whether a push is the latest one for each of the entities it touches.
///
/// `latest` is what the journal says is the latest push for each of the
/// entities of `undo_touched_entity_ids`, in their order. The first entity for
/// which another push is the latest, or none is, is the one reported.
pub fn ensure_undo_target_is_latest(
    entry: &JournalEntry,
    plan: &UndoPlan,
    latest: &Vec<Option<String>>,
) -> (r: Result<(), HistoryError>)
    ensures
        ({
            let ids = sorting::text_set(touched(*entry, *plan));
            match r {
                Ok(()) => is_latest_of(*entry, ids, latest@),
                Err(e) => names_later_push(e, *entry, ids, latest@),
            }
        }),
{
    let ids = undo_touched_entity_ids(entry, plan);
    let ghost all = text::texts(ids@);
    let mut i: usize = 0;
    while i < ids.len()
        invariant
            i <= ids.len(),
            all == text::texts(ids@),
            all == sorting::text_set(touched(*entry, *plan)),
            forall|k: int| 0 <= k < i ==> #[trigger] latest_for(latest@, k) == Some(entry.push_id@),
        decreases ids.len() - i,
    {
        let named: Option<String> = if i < latest.len() {
            text::clone_option(&latest[i])
        } else {
            None
        };
        assert(text::opt_text(named) == latest_for(latest@, i as int));
        if !text::option_is(&named, &entry.push_id) {
            assert(ids@[i as int]@ == all[i as int]);
            let error = HistoryError::UndoNotLatest {
                push_id: entry.push_id.clone(),
                entity_id: ids[i].clone(),
                latest_push_id: named,
            };
            assert(names_later_push_of(error, *entry, all, latest@, i as int));
            return Err(error);
        }
        i += 1;
    }
    Ok(())
}

/// The texts of `wanted` that `given` does not hold, in order.
pub open spec fn absent(wanted: Seq<Seq<char>>, given: Seq<Seq<char>>) -> Seq<Seq<char>>
    decreases wanted.len(),
{
    if wanted.len() == 0 {
        Seq::empty()
    } else {
        let before = absent(wanted.drop_last(), given);
        if given.contains(wanted.last()) {
            before
        } else {
            before.push(wanted.last())
        }
    }
}

/// Whether the remote side reports every entity changed that an undo has to
/// change; those left out are named.
pub fn ensure_complete_undo_apply_result(
    entry: &JournalEntry,
    plan: &UndoPlan,
    changed_remote_ids: &Vec<String>,
) -> (r: Result<(), HistoryError>)
    ensures
        ({
            let left_out = absent(
                sorting::text_set(required(*entry, *plan)),
                text::texts(changed_remote_ids@),
            );
            match r {
                Ok(()) => left_out.len() == 0,
                Err(HistoryError::IncompleteUndoApplyResult { missing }) => left_out.len() > 0
                    && text::texts(missing@) == left_out,
                Err(_) => false,
            }
        }),
{
    let ids = required_ids(entry, plan);
    let ghost all = text::texts(ids@);
    let ghost given = text::texts(changed_remote_ids@);
    let mut missing: Vec<String> = Vec::new();
    let mut i: usize = 0;
    assert(all.take(0) == Seq::<Seq<char>>::empty());
    while i < ids.len()
        invariant
            i <= ids.len(),
            all == text::texts(ids@),
            given == text::texts(changed_remote_ids@),
            text::texts(missing@) == absent(all.take(i as int), given),
        decreases ids.len() - i,
    {
        let ghost before = text::texts(missing@);
        assert(all.take(i + 1).drop_last() == all.take(i as int));
        assert(all.take(i + 1).last() == ids@[i as int]@);
        if !text::holds_text(changed_remote_ids, &ids[i]) {
            missing.push(ids[i].clone());
            assert(text::texts(missing@) =~= before.push(ids@[i as int]@));
        }
        i += 1;
    }
    assert(all.take(i as int) == all);
    assert(missing@.len() == text::texts(missing@).len());
    if missing.len() == 0 {
        Ok(())
    } else {
        Err(HistoryError::IncompleteUndoApplyResult { missing })
    }
}

/// An entity of the store, with the directory that holds what is below it
/// where it is a page.
#[derive(Debug, PartialEq, Eq)]
pub struct IndexedEntity {
    pub record: EntityRecord,
    pub container: String,
}

/// What the store holds for the mount of a journal entry.
#[derive(Debug, PartialEq, Eq)]
pub struct UndoStore {
    pub entities: Vec<IndexedEntity>,
    pub shadows: Vec<ShadowDocument>,
    /// What the store says of the shadows that it does not hold.
    pub absent_shadows: Vec<AbsentShadow>,
    pub mutations: Vec<VirtualMutationRecord>,
}

/// What the store says of the shadow of an entity that it does not hold.
#[derive(Debug, PartialEq, Eq)]
pub struct AbsentShadow {
    pub entity_id: String,
    pub message: String,
}

/// What is said of the missing shadow of an entity: the store's own words,
/// where it was asked.
pub open spec fn shadow_absence(absent: Seq<AbsentShadow>, id: Seq<char>) -> Seq<char>
    decreases absent.len(),
{
    if absent.len() == 0 {
        "shadow for entity `"@ + id + "` is missing"@
    } else if absent[0].entity_id@ == id {
        absent[0].message@
    } else {
        shadow_absence(absent.skip(1), id)
    }
}

/// What is said of the missing shadow of an entity.
pub fn absence_of_shadow(absent: &Vec<AbsentShadow>, id: &str) -> (r: String)
    ensures
        r@ == shadow_absence(absent@, id@),
{
    let mut i: usize = 0;
    assert(absent@.skip(0) == absent@);
    while i < absent.len()
        invariant
            i <= absent.len(),
            shadow_absence(absent@, id@) == shadow_absence(absent@.skip(i as int), id@),
        decreases absent.len() - i,
    {
        assert(absent@.skip(i as int)[0] == absent@[i as int]);
        if text::same_text(&absent[i].entity_id, id) {
            return absent[i].message.clone();
        }
        assert(absent@.skip(i as int).skip(1) == absent@.skip(i + 1));
        i += 1;
    }
    text::concat3("shadow for entity `", id, "` is missing")
}

/// The entity with an identifier.
pub open spec fn entity_named(entities: Seq<IndexedEntity>, id: Seq<char>) -> Option<IndexedEntity>
    decreases entities.len(),
{
    if entities.len() == 0 {
        None
    } else {
        match entity_named(entities.drop_last(), id) {
            Some(e) => Some(e),
            None => if entities.last().record.remote_id@ == id {
                Some(entities.last())
            } else {
                None
            },
        }
    }
}

/// The entity at a path.
pub open spec fn entity_at(
    style: PathStyle,
    entities: Seq<IndexedEntity>,
    path: Seq<char>,
) -> Option<IndexedEntity>
    decreases entities.len(),
{
    if entities.len() == 0 {
        None
    } else {
        match entity_at(style, entities.drop_last(), path) {
            Some(e) => Some(e),
            None => if paths::same(style, entities.last().record.path@, path) {
                Some(entities.last())
            } else {
                None
            },
        }
    }
}

/// The shadow of an entity.
pub open spec fn shadow_named(shadows: Seq<ShadowDocument>, id: Seq<char>) -> Option<ShadowDocument>
    decreases shadows.len(),
{
    if shadows.len() == 0 {
        None
    } else {
        match shadow_named(shadows.drop_last(), id) {
            Some(s) => Some(s),
            None => if shadows.last().entity_id@ == id {
                Some(shadows.last())
            } else {
                None
            },
        }
    }
}

proof fn lemma_entity_named_kept(entities: Seq<IndexedEntity>, id: Seq<char>, n: int)
    requires
        0 <= n <= entities.len(),
        entity_named(entities.take(n), id) is Some,
    ensures
        entity_named(entities, id) == entity_named(entities.take(n), id),
    decreases entities.len() - n,
{
    if n < entities.len() {
        assert(entities.take(n + 1).drop_last() == entities.take(n));
        lemma_entity_named_kept(entities, id, n + 1);
    } else {
        assert(entities.take(n) == entities);
    }
}

proof fn lemma_entity_at_kept(
    style: PathStyle,
    entities: Seq<IndexedEntity>,
    path: Seq<char>,
    n: int,
)
    requires
        0 <= n <= entities.len(),
        entity_at(style, entities.take(n), path) is Some,
    ensures
        entity_at(style, entities, path) == entity_at(style, entities.take(n), path),
    decreases entities.len() - n,
{
    if n < entities.len() {
        assert(entities.take(n + 1).drop_last() == entities.take(n));
        lemma_entity_at_kept(style, entities, path, n + 1);
    } else {
        assert(entities.take(n) == entities);
    }
}

proof fn lemma_shadow_named_kept(shadows: Seq<ShadowDocument>, id: Seq<char>, n: int)
    requires
        0 <= n <= shadows.len(),
        shadow_named(shadows.take(n), id) is Some,
    ensures
        shadow_named(shadows, id) == shadow_named(shadows.take(n), id),
    decreases shadows.len() - n,
{
    if n < shadows.len() {
        assert(shadows.take(n + 1).drop_last() == shadows.take(n));
        lemma_shadow_named_kept(shadows, id, n + 1);
    } else {
        assert(shadows.take(n) == shadows);
    }
}

impl UndoStore {
    /// The entity with an identifier.
    pub fn get_entity(&self, id: &str) -> (r: Option<&IndexedEntity>)
        ensures
            match r {
                Some(e) => entity_named(self.entities@, id@) == Some(*e),
                None => entity_named(self.entities@, id@) is None,
            },
    {
        let mut i: usize = 0;
        assert(self.entities@.take(0) == Seq::<IndexedEntity>::empty());
        while i < self.entities.len()
            invariant
                i <= self.entities.len(),
                entity_named(self.entities@.take(i as int), id@) is None,
            decreases self.entities.len() - i,
        {
            assert(self.entities@.take(i + 1).drop_last() == self.entities@.take(i as int));
            if text::same_text(&self.entities[i].record.remote_id, id) {
                proof {
                    lemma_entity_named_kept(self.entities@, id@, i + 1);
                }
                return Some(&self.entities[i]);
            }
            i += 1;
        }
        assert(self.entities@.take(i as int) == self.entities@);
        None
    }

    /// The entity at a path.
    pub fn find_entity_by_path(&self, style: PathStyle, path: &str) -> (r: Option<&IndexedEntity>)
        ensures
            match r {
                Some(e) => entity_at(style, self.entities@, path@) == Some(*e),
                None => entity_at(style, self.entities@, path@) is None,
            },
    {
        let mut i: usize = 0;
        assert(self.entities@.take(0) == Seq::<IndexedEntity>::empty());
        while i < self.entities.len()
            invariant
                i <= self.entities.len(),
                entity_at(style, self.entities@.take(i as int), path@) is None,
            decreases self.entities.len() - i,
        {
            assert(self.entities@.take(i + 1).drop_last() == self.entities@.take(i as int));
            if paths::same_path(style, &self.entities[i].record.path, path) {
                proof {
                    lemma_entity_at_kept(style, self.entities@, path@, i + 1);
                }
                return Some(&self.entities[i]);
            }
            i += 1;
        }
        assert(self.entities@.take(i as int) == self.entities@);
        None
    }

    /// The shadow of an entity.
    pub fn load_shadow(&self, id: &str) -> (r: Option<&ShadowDocument>)
        ensures
            match r {
                Some(s) => shadow_named(self.shadows@, id@) == Some(*s),
                None => shadow_named(self.shadows@, id@) is None,
            },
    {
        let mut i: usize = 0;
        assert(self.shadows@.take(0) == Seq::<ShadowDocument>::empty());
        while i < self.shadows.len()
            invariant
                i <= self.shadows.len(),
                shadow_named(self.shadows@.take(i as int), id@) is None,
            decreases self.shadows.len() - i,
        {
            assert(self.shadows@.take(i + 1).drop_last() == self.shadows@.take(i as int));
            if text::same_text(&self.shadows[i].entity_id, id) {
                proof {
                    lemma_shadow_named_kept(self.shadows@, id@, i + 1);
                }
                return Some(&self.shadows[i]);
            }
            i += 1;
        }
        assert(self.shadows@.take(i as int) == self.shadows@);
        None
    }
}

/// What the remote side reports of an entity after an undo.
#[derive(Debug, PartialEq, Eq)]
pub struct RemoteObservation {
    pub mount_id: String,
    pub remote_id: String,
    pub kind: EntityKind,
    pub title: String,
    pub parent_remote_id: Option<String>,
    pub projected_path: String,
    pub deleted: bool,
    pub remote_version: Option<String>,
}

/// Whether an error says that an observation is invalid, and why.
pub open spec fn is_invalid(error: HistoryError, id: Seq<char>, why: Seq<char>) -> bool {
    error matches HistoryError::InvalidUndoObservation { entity_id, reason } && entity_id@ == id
        && reason@ == why
}

/// Whether an error says that local state is unsafe, and why.
pub open spec fn is_unsafe(error: HistoryError, id: Seq<char>, why: Seq<char>) -> bool {
    error matches HistoryError::UnsafeUndoLocalState { entity_id, reason } && entity_id@ == id
        && reason@ == why
}

fn invalid_undo_observation(entity_id: &str, reason: String) -> (r: HistoryError)
    ensures
        is_invalid(r, entity_id@, reason@),
{
    HistoryError::InvalidUndoObservation { entity_id: entity_id.to_string(), reason }
}

fn unsafe_undo_local_state(entity_id: &str, reason: String) -> (r: HistoryError)
    ensures
        is_unsafe(r, entity_id@, reason@),
{
    HistoryError::UnsafeUndoLocalState { entity_id: entity_id.to_string(), reason }
}

/// The preimage of an entity.
pub open spec fn preimage_of(preimages: Seq<JournalPreimage>, id: Seq<char>) -> Option<
    JournalPreimage,
>
    decreases preimages.len(),
{
    if preimages.len() == 0 {
        None
    } else if preimages[0].entity_id@ == id {
        Some(preimages[0])
    } else {
        preimage_of(preimages.skip(1), id)
    }
}

fn find_preimage<'a>(preimages: &'a Vec<JournalPreimage>, id: &str) -> (r: Option<
    &'a JournalPreimage,
>)
    ensures
        match r {
            Some(p) => preimage_of(preimages@, id@) == Some(*p),
            None => preimage_of(preimages@, id@) is None,
        },
{
    let mut i: usize = 0;
    assert(preimages@.skip(0) == preimages@);
    while i < preimages.len()
        invariant
            i <= preimages.len(),
            preimage_of(preimages@, id@) == preimage_of(preimages@.skip(i as int), id@),
        decreases preimages.len() - i,
    {
        if text::same_text(&preimages[i].entity_id, id) {
            return Some(&preimages[i]);
        }
        assert(preimages@.skip(i as int).skip(1) == preimages@.skip(i + 1));
        i += 1;
    }
    None
}

/// The step of a push whose effect was the creation of an entity.
pub open spec fn creation_index(effects: Seq<JournalApplyEffect>, id: Seq<char>) -> Option<int>
    decreases effects.len(),
{
    if effects.len() == 0 {
        None
    } else {
        match effects[0] {
            JournalApplyEffect::CreatedEntity { operation_index, entity_id } if entity_id@ == id =>
            Some(operation_index as int),
            _ => creation_index(effects.skip(1), id),
        }
    }
}

/// The parent under which a created entity was put, if it was put under one:
/// by the step that created it, or else as the undo plan expects it.
pub open spec fn creation_parent(
    entry: JournalEntry,
    id: Seq<char>,
    expected: Option<Seq<char>>,
) -> Option<Seq<char>> {
    match creation_index(entry.apply_effects@, id) {
        Some(i) if i < entry.plan.operations@.len() => match entry.plan.operations@[i] {
            PushOperation::CreateEntity { parent_id, parent_workspace, .. } => if parent_workspace {
                None
            } else {
                Some(parent_id@)
            },
            _ => expected,
        },
        _ => expected,
    }
}

/// The parent that the entity state of an undo step names.
pub open spec fn expected_parent(operation: UndoOperation) -> Option<Seq<char>> {
    match operation {
        UndoOperation::ArchiveCreatedEntity { expected: Some(state), .. } => Some(
            state.parent_id@,
        ),
        _ => None,
    }
}

fn archive_created_expected_parent_id(
    entry: &JournalEntry,
    entity_id: &str,
    expected: Option<String>,
) -> (r: Option<String>)
    ensures
        text::opt_text(r) == creation_parent(*entry, entity_id@, text::opt_text(expected)),
{
    let mut i: usize = 0;
    let ghost effects = entry.apply_effects@;
    let mut index: Option<usize> = None;
    assert(effects.skip(0) == effects);
    while i < entry.apply_effects.len()
        invariant_except_break
            index is None,
            creation_index(effects, entity_id@) == creation_index(
                effects.skip(i as int),
                entity_id@,
            ),
        invariant
            i <= entry.apply_effects.len(),
            effects == entry.apply_effects@,
        ensures
            match index {
                Some(k) => creation_index(effects, entity_id@) == Some(k as int),
                None => creation_index(effects, entity_id@) is None,
            },
        decreases entry.apply_effects.len() - i,
    {
        assert(effects.skip(i as int).skip(1) == effects.skip(i + 1));
        if let JournalApplyEffect::CreatedEntity { operation_index, entity_id: created } =
            &entry.apply_effects[i] {
            if text::same_text(created, entity_id) {
                index = Some(*operation_index);
                break ;
            }
        }
        i += 1;
    }
    if let Some(k) = index {
        if k < entry.plan.operations.len() {
            if let PushOperation::CreateEntity { parent_id, parent_workspace, .. } =
                &entry.plan.operations[k] {
                return if *parent_workspace {
                    None
                } else {
                    Some(parent_id.clone())
                };
            }
        }
    }
    expected
}

/// What has to hold of an entity once a step of an undo plan is applied.
pub enum Expectation {
    /// The step is not on an entity as a whole, or leaves its place alone.
    Nothing,
    /// What has to hold cannot be told.
    Unknown { entity: Seq<char>, why: Seq<char> },
    /// What has to hold.
    Entity {
        entity: Seq<char>,
        deleted: bool,
        parent: Option<Seq<char>>,
        title: Option<Seq<char>>,
        kind: EntityKind,
    },
}

/// What has to hold of an entity once a step of an undo plan is applied.
pub open spec fn expectation(
    entities: Seq<IndexedEntity>,
    entry: JournalEntry,
    operation: UndoOperation,
) -> Expectation {
    match operation {
        UndoOperation::RestoreEntityLocation {
            entity_id,
            previous_parent_id,
            previous_title,
            ..
        } => match entity_named(entities, entity_id@) {
            Some(e) => Expectation::Entity {
                entity: entity_id@,
                deleted: false,
                parent: Some(previous_parent_id@),
                title: Some(previous_title@),
                kind: e.record.kind,
            },
            None => Expectation::Unknown {
                entity: entity_id@,
                why: "entity is not indexed locally"@,
            },
        },
        UndoOperation::RestoreArchivedEntity { entity_id, .. } => match preimage_of(
            entry.preimages@,
            entity_id@,
        ) {
            Some(p) => match p.kind {
                Some(kind) => Expectation::Entity {
                    entity: entity_id@,
                    deleted: false,
                    parent: text::opt_text(p.parent_id),
                    title: None,
                    kind,
                },
                None => Expectation::Unknown {
                    entity: entity_id@,
                    why: "entity preimage has no valid kind"@,
                },
            },
            None => Expectation::Unknown {
                entity: entity_id@,
                why: "entity preimage has no valid kind"@,
            },
        },
        UndoOperation::ArchiveCreatedEntity { entity_id, .. } => match entity_named(
            entities,
            entity_id@,
        ) {
            Some(e) => Expectation::Entity {
                entity: entity_id@,
                deleted: true,
                parent: creation_parent(entry, entity_id@, expected_parent(operation)),
                title: None,
                kind: e.record.kind,
            },
            None => Expectation::Unknown {
                entity: entity_id@,
                why: "entity is not indexed locally"@,
            },
        },
        _ => Expectation::Nothing,
    }
}

/// Whether the components below a parent are those of one entity: a single
/// name, or, for a page, a directory with its page document.
pub open spec fn is_leaf(c: Seq<paths::Component>, kind: EntityKind) -> bool {
    ||| c.len() == 1
    ||| kind is Page && c.len() == 2 && paths::last_name(c) == Some("page.md"@)
}

/// Whether a path is relative, not empty and made of names alone.
pub open spec fn is_plain_relative(style: PathStyle, path: Seq<char>) -> bool {
    &&& path.len() > 0
    &&& !paths::absolute(style, path)
    &&& forall|i: int|
        0 <= i < paths::components(
            style,
            path,
        ).len() ==> (#[trigger] paths::components(style, path)[i]) is Normal
}

/// The place below which an entity puts its children.
pub open spec fn children_path(e: IndexedEntity) -> Seq<char> {
    if e.record.kind is Page {
        e.container@
    } else {
        e.record.path@
    }
}

/// Where an observed entity stands, or why its path is refused.
pub open spec fn observed_place(
    style: PathStyle,
    entities: Seq<IndexedEntity>,
    parent: Option<Seq<char>>,
    kind: EntityKind,
    path: Seq<char>,
) -> Result<Seq<char>, Seq<char>> {
    let c = paths::components(style, path);
    if !is_plain_relative(style, path) {
        Err("observation contains an invalid projected path"@)
    } else {
        match parent {
            Some(id) => match entity_named(entities, id) {
                None => Err("observed parent is not indexed"@),
                Some(e) => {
                    let base = paths::components(style, children_path(e));
                    if paths::is_below(c, base) {
                        if is_leaf(c.skip(base.len() as int), kind) {
                            Ok(path)
                        } else {
                            Err(
                                "observation projected path is nested too deeply below the restored parent"@,
                            )
                        }
                    } else if is_leaf(c, kind) {
                        Ok(paths::joined(style, children_path(e), path))
                    } else {
                        Err("observation projected path does not belong to the restored parent"@)
                    }
                },
            },
            None => if is_leaf(c, kind) {
                Ok(path)
            } else {
                Err("root observation contains an unrelated multi-component path"@)
            },
        }
    }
}

/// Where an observed entity stands unless its path is refused or another
/// entity is there.
pub open spec fn observed_path(
    style: PathStyle,
    entities: Seq<IndexedEntity>,
    entity: Seq<char>,
    parent: Option<Seq<char>>,
    kind: EntityKind,
    path: Seq<char>,
) -> Result<Seq<char>, Seq<char>> {
    match observed_place(style, entities, parent, kind, path) {
        Err(why) => Err(why),
        Ok(place) => match entity_at(style, entities, place) {
            Some(owner) => if owner.record.remote_id@ != entity {
                Err(
                    "observation projected path is already owned by entity `"@
                        + owner.record.remote_id@ + "`"@,
                )
            } else {
                Ok(place)
            },
            None => Ok(place),
        },
    }
}

/// Whether the components below a parent are those of one entity.
fn valid_observation_leaf_shape(c: &Vec<PathComponent>, skipped: usize, kind: &EntityKind) -> (r:
    bool)
    requires
        skipped <= c.len(),
    ensures
        r == is_leaf(paths::views(c@).skip(skipped as int), *kind),
{
    let ghost rest = paths::views(c@).skip(skipped as int);
    let count: usize = c.len() - skipped;
    if count == 1 {
        return true;
    }
    if count != 2 || !model::kinds_match(kind, &EntityKind::Page) {
        return false;
    }
    assert(rest.last() == c@[c@.len() - 1]@);
    match &c[c.len() - 1] {
        PathComponent::Normal(name) => text::same_text(name, "page.md"),
        _ => false,
    }
}

fn all_normal(c: &Vec<PathComponent>) -> (r: bool)
    ensures
        r == forall|i: int| 0 <= i < c@.len() ==> (#[trigger] paths::views(c@)[i]) is Normal,
{
    let mut i: usize = 0;
    while i < c.len()
        invariant
            i <= c.len(),
            forall|k: int| 0 <= k < i ==> (#[trigger] paths::views(c@)[k]) is Normal,
        decreases c.len() - i,
    {
        match &c[i] {
            PathComponent::Normal(_) => {},
            _ => {
                assert(!(paths::views(c@)[i as int] is Normal));
                return false;
            },
        }
        i += 1;
    }
    true
}

fn observed_place_of(
    style: PathStyle,
    store: &UndoStore,
    parent_id: &Option<String>,
    kind: &EntityKind,
    projected_path: &str,
) -> (r: Result<String, &'static str>)
    ensures
        match observed_place(
            style,
            store.entities@,
            text::opt_text(*parent_id),
            *kind,
            projected_path@,
        ) {
            Ok(place) => r matches Ok(p) && p@ == place,
            Err(why) => r matches Err(w) && w@ == why,
        },
{
    let c = paths::components_of(style, projected_path);
    assert(paths::views(c@).len() == c@.len());
    if projected_path.is_empty() || paths::is_absolute(style, projected_path) || !all_normal(&c) {
        return Err("observation contains an invalid projected path");
    }
    match parent_id {
        Some(parent_id) => {
            let parent = match store.get_entity(parent_id) {
                Some(parent) => parent,
                None => {
                    return Err("observed parent is not indexed");
                },
            };
            let parent_path: &String = if model::kinds_match(
                &parent.record.kind,
                &EntityKind::Page,
            ) {
                &parent.container
            } else {
                &parent.record.path
            };
            let base = paths::components_of(style, parent_path);
            if paths::begins_with_components(&c, &base) {
                if !valid_observation_leaf_shape(&c, base.len(), kind) {
                    return Err(
                        "observation projected path is nested too deeply below the restored parent",
                    );
                }
                Ok(projected_path.to_string())
            } else {
                assert(paths::views(c@).skip(0) == paths::views(c@));
                if valid_observation_leaf_shape(&c, 0, kind) {
                    Ok(paths::join(style, parent_path, projected_path))
                } else {
                    Err("observation projected path does not belong to the restored parent")
                }
            }
        },
        None => {
            assert(paths::views(c@).skip(0) == paths::views(c@));
            if valid_observation_leaf_shape(&c, 0, kind) {
                Ok(projected_path.to_string())
            } else {
                Err("root observation contains an unrelated multi-component path")
            }
        },
    }
}

/// Where an observed entity stands, unless its path is refused or another
/// entity is there.
pub fn validated_undo_observation_path(
    style: PathStyle,
    store: &UndoStore,
    entity_id: &str,
    parent_id: &Option<String>,
    kind: &EntityKind,
    projected_path: &str,
) -> (r: Result<String, HistoryError>)
    ensures
        match observed_path(
            style,
            store.entities@,
            entity_id@,
            text::opt_text(*parent_id),
            *kind,
            projected_path@,
        ) {
            Ok(place) => r matches Ok(p) && p@ == place,
            Err(why) => r matches Err(e) && is_invalid(e, entity_id@, why),
        },
{
    let resolved = match observed_place_of(style, store, parent_id, kind, projected_path) {
        Ok(resolved) => resolved,
        Err(why) => {
            return Err(invalid_undo_observation(entity_id, why.to_string()));
        },
    };
    if let Some(owner) = store.find_entity_by_path(style, &resolved) {
        if !text::same_text(&owner.record.remote_id, entity_id) {
            return Err(
                invalid_undo_observation(
                    entity_id,
                    text::concat3(
                        "observation projected path is already owned by entity `",
                        &owner.record.remote_id,
                        "`",
                    ),
                ),
            );
        }
    }
    Ok(resolved)
}

/// Where the observations of an entity stand.
pub open spec fn matching(observations: Seq<RemoteObservation>, id: Seq<char>) -> Seq<int>
    decreases observations.len(),
{
    if observations.len() == 0 {
        Seq::empty()
    } else {
        let before = matching(observations.drop_last(), id);
        if observations.last().remote_id@ == id {
            before.push(observations.len() - 1)
        } else {
            before
        }
    }
}

/// What the remote side's word on a step of an undo plan comes to.
pub enum Verdict {
    /// The step needs no word.
    Skip,
    /// The word is missing or wrong.
    Refused { entity: Seq<char>, why: Seq<char> },
    /// The observation that confirms the step, and where the entity stands.
    Confirmed { entity: Seq<char>, observation: int, path: Seq<char> },
}

/// What one observation says of what has to hold.
pub open spec fn observation_verdict(
    style: PathStyle,
    entities: Seq<IndexedEntity>,
    mount_id: Seq<char>,
    entity: Seq<char>,
    deleted: bool,
    parent: Option<Seq<char>>,
    title: Option<Seq<char>>,
    kind: EntityKind,
    observation: RemoteObservation,
) -> Result<Seq<char>, Seq<char>> {
    if observation.mount_id@ != mount_id {
        Err("observation belongs to a different mount"@)
    } else if observation.deleted != deleted {
        if deleted {
            Err("observation does not report the created entity as deleted"@)
        } else {
            Err("observation still reports the restored entity as deleted"@)
        }
    } else if text::opt_text(observation.parent_remote_id) != parent {
        Err("observation does not report the expected parent"@)
    } else if !model::same_kind(observation.kind, kind) {
        Err("observation does not report the expected entity kind"@)
    } else if title is Some && title != Some(observation.title@) {
        Err("observation does not report the restored title"@)
    } else {
        observed_path(
            style,
            entities,
            entity,
            text::opt_text(observation.parent_remote_id),
            observation.kind,
            observation.projected_path@,
        )
    }
}

/// What the remote side's word on a step of an undo plan comes to.
pub open spec fn verdict(
    style: PathStyle,
    entities: Seq<IndexedEntity>,
    entry: JournalEntry,
    operation: UndoOperation,
    changed: Seq<Seq<char>>,
    observations: Seq<RemoteObservation>,
) -> Verdict {
    match expectation(entities, entry, operation) {
        Expectation::Nothing => Verdict::Skip,
        Expectation::Unknown { entity, why } => Verdict::Refused { entity, why },
        Expectation::Entity { entity, deleted, parent, title, kind } => if !changed.contains(
            entity,
        ) {
            Verdict::Refused {
                entity,
                why: "undo apply result did not report the entity as changed"@,
            }
        } else if matching(observations, entity).len() != 1 {
            Verdict::Refused {
                entity,
                why: "undo apply result must contain exactly one matching observation"@,
            }
        } else {
            let at = matching(observations, entity)[0];
            match observation_verdict(
                style,
                entities,
                entry.mount_id@,
                entity,
                deleted,
                parent,
                title,
                kind,
                observations[at],
            ) {
                Ok(path) => Verdict::Confirmed { entity, observation: at, path },
                Err(why) => Verdict::Refused { entity, why },
            }
        },
    }
}

/// A confirmed step: the entity, its observation and where it stands.
pub struct Confirmation {
    pub entity: Seq<char>,
    pub observation: int,
    pub path: Seq<char>,
}

/// A refused step: the entity and why.
pub struct Refusal {
    pub entity: Seq<char>,
    pub why: Seq<char>,
}

/// The confirmed steps in order, or the first refused one.
pub open spec fn verdicts(
    style: PathStyle,
    entities: Seq<IndexedEntity>,
    entry: JournalEntry,
    operations: Seq<UndoOperation>,
    changed: Seq<Seq<char>>,
    observations: Seq<RemoteObservation>,
) -> Result<Seq<Confirmation>, Refusal>
    decreases operations.len(),
{
    if operations.len() == 0 {
        Ok(Seq::empty())
    } else {
        match verdicts(style, entities, entry, operations.drop_last(), changed, observations) {
            Err(refusal) => Err(refusal),
            Ok(before) => match verdict(
                style,
                entities,
                entry,
                operations.last(),
                changed,
                observations,
            ) {
                Verdict::Skip => Ok(before),
                Verdict::Refused { entity, why } => Err(Refusal { entity, why }),
                Verdict::Confirmed { entity, observation, path } => Ok(
                    before.push(Confirmation { entity, observation, path }),
                ),
            },
        }
    }
}

proof fn lemma_verdicts_refused(
    style: PathStyle,
    entities: Seq<IndexedEntity>,
    entry: JournalEntry,
    operations: Seq<UndoOperation>,
    changed: Seq<Seq<char>>,
    observations: Seq<RemoteObservation>,
    n: int,
)
    requires
        0 <= n <= operations.len(),
        verdicts(style, entities, entry, operations.take(n), changed, observations) is Err,
    ensures
        verdicts(style, entities, entry, operations, changed, observations) == verdicts(
            style,
            entities,
            entry,
            operations.take(n),
            changed,
            observations,
        ),
    decreases operations.len() - n,
{
    if n < operations.len() {
        assert(operations.take(n + 1).drop_last() == operations.take(n));
        lemma_verdicts_refused(style, entities, entry, operations, changed, observations, n + 1);
    } else {
        assert(operations.take(n) == operations);
    }
}

/// A confirmed step, with the index of its observation.
#[derive(Debug, PartialEq, Eq)]
pub struct ValidatedObservation {
    pub entity_id: String,
    pub observation: usize,
    pub path: String,
}

/// The confirmations in `v`.
pub open spec fn confirmations(v: Seq<ValidatedObservation>) -> Seq<Confirmation> {
    Seq::new(
        v.len(),
        |i: int|
            Confirmation {
                entity: v[i].entity_id@,
                observation: v[i].observation as int,
                path: v[i].path@,
            },
    )
}

struct Expected {
    deleted: bool,
    parent: Option<String>,
    title: Option<String>,
    kind: EntityKind,
}

enum Sought {
    Nothing,
    Unknown(String, &'static str),
    Entity(String, Expected),
}

fn expected_after(store: &UndoStore, entry: &JournalEntry, operation: &UndoOperation) -> (r: Sought)
    ensures
        match expectation(store.entities@, *entry, *operation) {
            Expectation::Nothing => r is Nothing,
            Expectation::Unknown { entity, why } => r matches Sought::Unknown(e, w) && e@ == entity
                && w@ == why,
            Expectation::Entity { entity, deleted, parent, title, kind } => r matches Sought::Entity(
                e,
                x,
            ) && e@ == entity && x.deleted == deleted && text::opt_text(x.parent) == parent
                && text::opt_text(x.title) == title && x.kind == kind,
        },
{
    match operation {
        UndoOperation::RestoreEntityLocation {
            entity_id,
            previous_parent_id,
            previous_title,
            ..
        } => match store.get_entity(entity_id) {
            Some(entity) => Sought::Entity(
                entity_id.clone(),
                Expected {
                    deleted: false,
                    parent: Some(previous_parent_id.clone()),
                    title: Some(previous_title.clone()),
                    kind: model::clone_kind(&entity.record.kind),
                },
            ),
            None => Sought::Unknown(entity_id.clone(), "entity is not indexed locally"),
        },
        UndoOperation::RestoreArchivedEntity { entity_id, .. } => match find_preimage(
            &entry.preimages,
            entity_id,
        ) {
            Some(preimage) => match &preimage.kind {
                Some(kind) => Sought::Entity(
                    entity_id.clone(),
                    Expected {
                        deleted: false,
                        parent: text::clone_option(&preimage.parent_id),
                        title: None,
                        kind: model::clone_kind(kind),
                    },
                ),
                None => Sought::Unknown(entity_id.clone(), "entity preimage has no valid kind"),
            },
            None => Sought::Unknown(entity_id.clone(), "entity preimage has no valid kind"),
        },
        UndoOperation::ArchiveCreatedEntity { entity_id, expected } => match store.get_entity(
            entity_id,
        ) {
            Some(entity) => {
                let named: Option<String> = match expected {
                    Some(state) => Some(state.parent_id.clone()),
                    None => None,
                };
                Sought::Entity(
                    entity_id.clone(),
                    Expected {
                        deleted: true,
                        parent: archive_created_expected_parent_id(entry, entity_id, named),
                        title: None,
                        kind: model::clone_kind(&entity.record.kind),
                    },
                )
            },
            None => Sought::Unknown(entity_id.clone(), "entity is not indexed locally"),
        },
        _ => Sought::Nothing,
    }
}

fn matching_observations(observations: &Vec<RemoteObservation>, id: &str) -> (r: Vec<usize>)
    ensures
        r@.len() == matching(observations@, id@).len(),
        forall|i: int| 0 <= i < r@.len() ==> #[trigger] r@[i] as int == matching(observations@, id@)[i],
        forall|i: int| 0 <= i < r@.len() ==> #[trigger] r@[i] < observations@.len(),
{
    let mut found: Vec<usize> = Vec::new();
    let mut i: usize = 0;
    assert(observations@.take(0) == Seq::<RemoteObservation>::empty());
    while i < observations.len()
        invariant
            i <= observations.len(),
            found@.len() == matching(observations@.take(i as int), id@).len(),
            forall|k: int|
                0 <= k < found@.len() ==> #[trigger] found@[k] as int == matching(
                    observations@.take(i as int),
                    id@,
                )[k],
            forall|k: int| 0 <= k < found@.len() ==> #[trigger] found@[k] < observations@.len(),
        decreases observations.len() - i,
    {
        assert(observations@.take(i + 1).drop_last() == observations@.take(i as int));
        if text::same_text(&observations[i].remote_id, id) {
            found.push(i);
        }
        i += 1;
    }
    assert(observations@.take(i as int) == observations@);
    found
}

fn check_observation(
    style: PathStyle,
    store: &UndoStore,
    mount_id: &str,
    entity_id: &str,
    expected: &Expected,
    observation: &RemoteObservation,
) -> (r: Result<String, HistoryError>)
    ensures
        match observation_verdict(
            style,
            store.entities@,
            mount_id@,
            entity_id@,
            expected.deleted,
            text::opt_text(expected.parent),
            text::opt_text(expected.title),
            expected.kind,
            *observation,
        ) {
            Ok(path) => r matches Ok(p) && p@ == path,
            Err(why) => r matches Err(e) && is_invalid(e, entity_id@, why),
        },
{
    let refused = if !text::same_text(&observation.mount_id, mount_id) {
        Some("observation belongs to a different mount")
    } else if observation.deleted != expected.deleted {
        if expected.deleted {
            Some("observation does not report the created entity as deleted")
        } else {
            Some("observation still reports the restored entity as deleted")
        }
    } else if !text::same_option(&observation.parent_remote_id, &expected.parent) {
        Some("observation does not report the expected parent")
    } else if !model::kinds_match(&observation.kind, &expected.kind) {
        Some("observation does not report the expected entity kind")
    } else {
        match &expected.title {
            Some(title) => if text::same_text(&observation.title, title) {
                None
            } else {
                Some("observation does not report the restored title")
            },
            None => None,
        }
    };
    match refused {
        Some(why) => Err(invalid_undo_observation(entity_id, why.to_string())),
        None => validated_undo_observation_path(
            style,
            store,
            entity_id,
            &observation.parent_remote_id,
            &observation.kind,
            &observation.projected_path,
        ),
    }
}

/// The remote side's word on the steps of an undo plan: the confirmed steps in
/// order, or the first refused one.
pub fn validate_entity_undo_observations(
    style: PathStyle,
    store: &UndoStore,
    entry: &JournalEntry,
    plan: &UndoPlan,
    changed_remote_ids: &Vec<String>,
    observations: &Vec<RemoteObservation>,
) -> (r: Result<Vec<ValidatedObservation>, HistoryError>)
    ensures
        match verdicts(
            style,
            store.entities@,
            *entry,
            plan.operations@,
            text::texts(changed_remote_ids@),
            observations@,
        ) {
            Ok(confirmed) => r matches Ok(v) && confirmations(v@) == confirmed && forall|i: int|
                0 <= i < v@.len() ==> (#[trigger] v@[i]).observation < observations@.len(),
            Err(refusal) => r matches Err(e) && is_invalid(e, refusal.entity, refusal.why),
        },
{
    let ghost changed = text::texts(changed_remote_ids@);
    let ghost operations = plan.operations@;
    let mut validated: Vec<ValidatedObservation> = Vec::new();
    let mut i: usize = 0;
    proof {
        assert(operations.take(0) == Seq::<UndoOperation>::empty());
        assert(confirmations(validated@) =~= Seq::<Confirmation>::empty());
    }
    while i < plan.operations.len()
        invariant
            i <= plan.operations.len(),
            operations == plan.operations@,
            changed == text::texts(changed_remote_ids@),
            verdicts(
                style,
                store.entities@,
                *entry,
                operations.take(i as int),
                changed,
                observations@,
            )
                == Ok::<_, Refusal>(confirmations(validated@)),
            forall|k: int|
                0 <= k < validated@.len() ==> (#[trigger] validated@[k]).observation
                    < observations@.len(),
        decreases plan.operations.len() - i,
    {
        assert(operations.take(i + 1).drop_last() == operations.take(i as int));
        let ghost sofar = verdicts(
            style,
            store.entities@,
            *entry,
            operations.take(i + 1),
            changed,
            observations@,
        );
        match expected_after(store, entry, &plan.operations[i]) {
            Sought::Nothing => {},
            Sought::Unknown(entity_id, why) => {
                proof {
                    lemma_verdicts_refused(
                        style,
                        store.entities@,
                        *entry,
                        operations,
                        changed,
                        observations@,
                        i + 1,
                    );
                }
                return Err(invalid_undo_observation(&entity_id, why.to_string()));
            },
            Sought::Entity(entity_id, expected) => {
                if !text::holds_text(changed_remote_ids, &entity_id) {
                    proof {
                        lemma_verdicts_refused(
                            style,
                            store.entities@,
                            *entry,
                            operations,
                            changed,
                            observations@,
                            i + 1,
                        );
                    }
                    return Err(
                        invalid_undo_observation(
                            &entity_id,
                            "undo apply result did not report the entity as changed".to_string(),
                        ),
                    );
                }
                let candidates = matching_observations(observations, &entity_id);
                if candidates.len() != 1 {
                    proof {
                        lemma_verdicts_refused(
                            style,
                            store.entities@,
                            *entry,
                            operations,
                            changed,
                            observations@,
                            i + 1,
                        );
                    }
                    return Err(
                        invalid_undo_observation(
                            &entity_id,
                            "undo apply result must contain exactly one matching observation".to_string(),
                        ),
                    );
                }
                let at: usize = candidates[0];
                match check_observation(
                    style,
                    store,
                    &entry.mount_id,
                    &entity_id,
                    &expected,
                    &observations[at],
                ) {
                    Ok(path) => {
                        let ghost before = confirmations(validated@);
                        validated.push(
                            ValidatedObservation { entity_id, observation: at, path },
                        );
                        assert(confirmations(validated@) =~= before.push(
                            Confirmation {
                                entity: entity_id@,
                                observation: at as int,
                                path: path@,
                            },
                        ));
                    },
                    Err(error) => {
                        proof {
                            lemma_verdicts_refused(
                                style,
                                store.entities@,
                                *entry,
                                operations,
                                changed,
                                observations@,
                                i + 1,
                            );
                        }
                        return Err(error);
                    },
                }
            },
        }
        i += 1;
    }
    assert(operations.take(i as int) == operations);
    Ok(validated)
}

/// What a projected file holds, held against the last synced form of its
/// entity.
#[derive(Clone, Copy, Debug, PartialEq, Eq, Structural)]
pub enum FileState {
    Unreadable,
    Diverged,
    Clean,
}

/// A projected file that exists.
#[derive(Debug, PartialEq, Eq)]
pub struct ProjectionFile {
    pub path: String,
    pub state: FileState,
}

/// What is known locally when an undo is considered: the mount of the entry,
/// the root of its content where the state directory is known, what the store
/// holds, the projected files that exist, and every path that exists.
#[derive(Debug, PartialEq, Eq)]
pub struct UndoContext {
    pub mount: Option<MountConfig>,
    pub content_root: Option<String>,
    pub store: UndoStore,
    pub files: Vec<ProjectionFile>,
    pub existing: Vec<String>,
}

/// The state of the projected file at `path`, if there is one.
pub open spec fn file_state(files: Seq<ProjectionFile>, path: Seq<char>) -> Option<FileState>
    decreases files.len(),
{
    if files.len() == 0 {
        None
    } else if files[0].path@ == path {
        Some(files[0].state)
    } else {
        file_state(files.skip(1), path)
    }
}

fn find_file_state(files: &Vec<ProjectionFile>, path: &str) -> (r: Option<FileState>)
    ensures
        r == file_state(files@, path@),
{
    let mut i: usize = 0;
    assert(files@.skip(0) == files@);
    while i < files.len()
        invariant
            i <= files.len(),
            file_state(files@, path@) == file_state(files@.skip(i as int), path@),
        decreases files.len() - i,
    {
        if text::same_text(&files[i].path, path) {
            return Some(files[i].state);
        }
        assert(files@.skip(i as int).skip(1) == files@.skip(i + 1));
        i += 1;
    }
    None
}

/// Where the content of a relative path is written; nowhere where the content
/// is virtual and its root is not known.
pub open spec fn write_path(
    style: PathStyle,
    mount: MountConfig,
    content_root: Option<String>,
    relative: Seq<char>,
) -> Option<Seq<char>> {
    if mount.projection.uses_virtual_filesystem() {
        match content_root {
            Some(root) => Some(paths::joined(style, root@, relative)),
            None => None,
        }
    } else {
        Some(paths::joined(style, mount.root@, relative))
    }
}

/// What is said where virtual content has no known root.
pub open spec fn no_state_root() -> Seq<char> {
    "virtual filesystem undo reconciliation requires a state root"@
}

/// Whether an error is an I/O failure of the store in these words.
pub open spec fn is_store_io(error: HistoryError, message: Seq<char>) -> bool {
    error matches HistoryError::Store(e) && e.kind == StoreErrorKind::Io && e.message@ == message
}

fn store_io(message: &str) -> (r: HistoryError)
    ensures
        is_store_io(r, message@),
{
    HistoryError::Store(StoreError { kind: StoreErrorKind::Io, message: message.to_string() })
}

/// Where the content of a relative path is written.
pub fn undo_projection_write_path(
    style: PathStyle,
    mount: &MountConfig,
    content_root: &Option<String>,
    relative_path: &str,
) -> (r: Result<String, HistoryError>)
    ensures
        match write_path(style, *mount, *content_root, relative_path@) {
            Some(path) => r matches Ok(p) && p@ == path,
            None => r matches Err(e) && is_store_io(e, no_state_root()),
        },
{
    if mount.projection.uses_virtual_filesystem() {
        return match content_root {
            Some(root) => Ok(paths::join(style, root, relative_path)),
            None => Err(
                store_io("virtual filesystem undo reconciliation requires a state root"),
            ),
        };
    }
    Ok(paths::join(style, &mount.root, relative_path))
}

/// Where else a relative path can be seen, each place once, in path order.
pub open spec fn visible_places(
    style: PathStyle,
    roots: Seq<Seq<char>>,
    relative: Seq<char>,
    content: Seq<char>,
) -> Seq<Seq<char>>
    decreases roots.len(),
{
    if roots.len() == 0 {
        Seq::empty()
    } else {
        let before = visible_places(style, roots.drop_last(), relative, content);
        let place = paths::joined(style, roots.last(), relative);
        if paths::same(style, place, content) {
            before
        } else {
            paths::path_insert(style, before, place)
        }
    }
}

/// Where else the file of an entity can be seen.
pub open spec fn visible_paths(
    style: PathStyle,
    mount: MountConfig,
    relative: Seq<char>,
    content: Seq<char>,
) -> Seq<
    Seq<char>,
> {
    if mount.projection.uses_virtual_filesystem() {
        visible_places(style, text::texts(mount.access_roots@), relative, content)
    } else {
        Seq::empty()
    }
}

/// Where the file of an entity is written, and where else it can be seen.
pub fn undo_entity_projection_paths(
    style: PathStyle,
    mount: &MountConfig,
    content_root: &Option<String>,
    relative_path: &str,
) -> (r: Result<(String, Vec<String>), HistoryError>)
    ensures
        match write_path(style, *mount, *content_root, relative_path@) {
            Some(path) => r matches Ok((p, seen)) && p@ == path && text::texts(seen@)
                == visible_paths(style, *mount, relative_path@, path),
            None => r matches Err(e) && is_store_io(e, no_state_root()),
        },
{
    let content_path = match undo_projection_write_path(style, mount, content_root, relative_path) {
        Ok(path) => path,
        Err(error) => {
            return Err(error);
        },
    };
    let mut seen: Vec<String> = Vec::new();
    assert(text::texts(seen@) =~= Seq::<Seq<char>>::empty());
    if mount.projection.uses_virtual_filesystem() {
        let ghost roots = text::texts(mount.access_roots@);
        let mut i: usize = 0;
        assert(roots.take(0) == Seq::<Seq<char>>::empty());
        while i < mount.access_roots.len()
            invariant
                i <= mount.access_roots.len(),
                roots == text::texts(mount.access_roots@),
                text::texts(seen@) == visible_places(
                    style,
                    roots.take(i as int),
                    relative_path@,
                    content_path@,
                ),
            decreases mount.access_roots.len() - i,
        {
            assert(roots.take(i + 1).drop_last() == roots.take(i as int));
            assert(roots.take(i + 1).last() == mount.access_roots@[i as int]@);
            let place = paths::join(style, &mount.access_roots[i], relative_path);
            if !paths::same_path(style, &place, &content_path) {
                paths::insert_path(style, &mut seen, place);
            }
            i += 1;
        }
        assert(roots.take(i as int) == roots);
    }
    Ok((content_path, seen))
}

/// What is wrong with a projected file; one that need not exist may be absent.
pub open spec fn file_fault(files: Seq<ProjectionFile>, path: Seq<char>, needed: bool) -> Option<
    Seq<char>,
> {
    match file_state(files, path) {
        None => if needed {
            Some("projection `"@ + path + "` cannot be read"@)
        } else {
            None
        },
        Some(FileState::Unreadable) => Some("projection `"@ + path + "` cannot be read"@),
        Some(FileState::Diverged) => Some(
            "projection `"@ + path + "` diverges from its synced shadow"@,
        ),
        Some(FileState::Clean) => None,
    }
}

/// What is wrong with the first of the files that has a fault.
pub open spec fn first_file_fault(files: Seq<ProjectionFile>, seen: Seq<Seq<char>>) -> Option<
    Seq<char>,
>
    decreases seen.len(),
{
    if seen.len() == 0 {
        None
    } else {
        match first_file_fault(files, seen.drop_last()) {
            Some(why) => Some(why),
            None => file_fault(files, seen.last(), false),
        }
    }
}

proof fn lemma_first_file_fault(files: Seq<ProjectionFile>, seen: Seq<Seq<char>>, n: int)
    requires
        0 <= n <= seen.len(),
        first_file_fault(files, seen.take(n)) is Some,
    ensures
        first_file_fault(files, seen) == first_file_fault(files, seen.take(n)),
    decreases seen.len() - n,
{
    if n < seen.len() {
        assert(seen.take(n + 1).drop_last() == seen.take(n));
        lemma_first_file_fault(files, seen, n + 1);
    } else {
        assert(seen.take(n) == seen);
    }
}

fn verify_projection_matches_shadow(files: &Vec<ProjectionFile>, path: &str, needed: bool) -> (r:
    Option<String>)
    ensures
        text::opt_text(r) == file_fault(files@, path@, needed),
{
    match find_file_state(files, path) {
        None => if needed {
            Some(text::concat3("projection `", path, "` cannot be read"))
        } else {
            None
        },
        Some(FileState::Unreadable) => Some(
            text::concat3("projection `", path, "` cannot be read"),
        ),
        Some(FileState::Diverged) => Some(
            text::concat3("projection `", path, "` diverges from its synced shadow"),
        ),
        Some(FileState::Clean) => None,
    }
}

/// Whether a pending local change is on the entity.
pub open spec fn mutation_targets(mutations: Seq<VirtualMutationRecord>, id: Seq<char>) -> bool {
    exists|i: int|
        0 <= i < mutations.len() && text::opt_text((#[trigger] mutations[i]).target_remote_id)
            == Some(id)
}

/// The first pending local change at a path.
pub open spec fn mutation_at(
    style: PathStyle,
    mutations: Seq<VirtualMutationRecord>,
    path: Seq<char>,
) -> Option<
    VirtualMutationRecord,
>
    decreases mutations.len(),
{
    if mutations.len() == 0 {
        None
    } else if paths::same(style, mutations[0].projected_path@, path) {
        Some(mutations[0])
    } else {
        mutation_at(style, mutations.skip(1), path)
    }
}

fn targets_entity(mutations: &Vec<VirtualMutationRecord>, id: &str) -> (r: bool)
    ensures
        r == mutation_targets(mutations@, id@),
{
    let mut i: usize = 0;
    while i < mutations.len()
        invariant
            i <= mutations.len(),
            forall|k: int|
                0 <= k < i ==> text::opt_text((#[trigger] mutations@[k]).target_remote_id) != Some(
                    id@,
                ),
        decreases mutations.len() - i,
    {
        if text::option_is(&mutations[i].target_remote_id, id) {
            assert(text::opt_text(mutations@[i as int].target_remote_id) == Some(id@));
            return true;
        }
        i += 1;
    }
    false
}

/// The first pending local change at a path.
pub fn find_mutation_at<'a>(
    style: PathStyle,
    mutations: &'a Vec<VirtualMutationRecord>,
    path: &str,
) -> (r: Option<
    &'a VirtualMutationRecord,
>)
    ensures
        match r {
            Some(m) => mutation_at(style, mutations@, path@) == Some(*m),
            None => mutation_at(style, mutations@, path@) is None,
        },
{
    let mut i: usize = 0;
    assert(mutations@.skip(0) == mutations@);
    while i < mutations.len()
        invariant
            i <= mutations.len(),
            mutation_at(style, mutations@, path@) == mutation_at(
                style,
                mutations@.skip(i as int),
                path@,
            ),
        decreases mutations.len() - i,
    {
        if paths::same_path(style, &mutations[i].projected_path, path) {
            return Some(&mutations[i]);
        }
        assert(mutations@.skip(i as int).skip(1) == mutations@.skip(i + 1));
        i += 1;
    }
    None
}

/// Whether a plan brings an archived entity back.
pub open spec fn restores_archived(operations: Seq<UndoOperation>, id: Seq<char>) -> bool {
    exists|i: int|
        0 <= i < operations.len() && (#[trigger] operations[i] matches
            UndoOperation::RestoreArchivedEntity { entity_id, .. } && entity_id@ == id)
}

/// Whether a plan brings an archived entity back.
pub fn plan_restores_archived(operations: &Vec<UndoOperation>, id: &str) -> (r: bool)
    ensures
        r == restores_archived(operations@, id@),
{
    let mut i: usize = 0;
    while i < operations.len()
        invariant
            i <= operations.len(),
            forall|k: int|
                0 <= k < i ==> !(#[trigger] operations@[k] matches
                    UndoOperation::RestoreArchivedEntity { entity_id, .. } && entity_id@ == id@),
        decreases operations.len() - i,
    {
        if let UndoOperation::RestoreArchivedEntity { entity_id, .. } = &operations[i] {
            if text::same_text(entity_id, id) {
                assert(operations@[i as int] matches UndoOperation::RestoreArchivedEntity {
                    entity_id,
                    ..
                } && entity_id@ == id@);
                return true;
            }
        }
        i += 1;
    }
    false
}

/// Why local state does not allow an undo.
pub enum LocalFault {
    /// Undoing would lose or miss something.
    Unsafe { why: Seq<char> },
    /// Where the content is cannot be told.
    NoStateRoot,
}

/// Why local state does not allow undoing what was done to an entity: it has
/// to be a fully hydrated page without pending changes, whose files all hold
/// the last synced form. An archived entity that comes back may be unknown.
pub open spec fn local_fault(
    style: PathStyle,
    context: UndoContext,
    mount: MountConfig,
    operations: Seq<UndoOperation>,
    id: Seq<char>,
) -> Option<LocalFault> {
    let store = context.store;
    if mutation_targets(store.mutations@, id) {
        Some(LocalFault::Unsafe { why: "entity has a pending local filesystem mutation"@ })
    } else {
        match entity_named(store.entities@, id) {
            None => if restores_archived(operations, id) {
                None
            } else {
                Some(LocalFault::Unsafe { why: "entity is not indexed locally"@ })
            },
            Some(e) => if !(e.record.kind is Page) {
                Some(LocalFault::Unsafe { why: "entity is not a page projection"@ })
            } else if e.record.hydration != HydrationState::Hydrated {
                Some(
                    LocalFault::Unsafe {
                        why: "entity is dirty, conflicted, or not fully hydrated"@,
                    },
                )
            } else if mutation_at(style, store.mutations@, e.record.path@) is Some {
                Some(LocalFault::Unsafe { why: "entity has a pending local filesystem mutation"@ })
            } else {
                match shadow_named(store.shadows@, id) {
                    None => Some(LocalFault::Unsafe { why: "entity shadow is unavailable"@ }),
                    Some(shadow) => if e.record.content_hash is Some && text::opt_text(
                        e.record.content_hash,
                    ) != Some(shadow.body_hash@) {
                        Some(
                            LocalFault::Unsafe {
                                why: "entity content hash does not match its synced shadow"@,
                            },
                        )
                    } else {
                        match write_path(style, mount, context.content_root, e.record.path@) {
                            None => Some(LocalFault::NoStateRoot),
                            Some(content) => match file_fault(context.files@, content, true) {
                                Some(why) => Some(LocalFault::Unsafe { why }),
                                None => match first_file_fault(
                                    context.files@,
                                    visible_paths(style, mount, e.record.path@, content),
                                ) {
                                    Some(why) => Some(LocalFault::Unsafe { why }),
                                    None => None,
                                },
                            },
                        }
                    },
                }
            },
        }
    }
}

/// Whether an error tells of a fault in the local state of an entity.
pub open spec fn tells_fault(error: HistoryError, id: Seq<char>, fault: LocalFault) -> bool {
    match fault {
        LocalFault::Unsafe { why } => is_unsafe(error, id, why),
        LocalFault::NoStateRoot => is_store_io(error, no_state_root()),
    }
}

fn local_fault_of(
    style: PathStyle,
    context: &UndoContext,
    mount: &MountConfig,
    operations: &Vec<UndoOperation>,
    id: &str,
) -> (r: Option<HistoryError>)
    ensures
        match local_fault(style, *context, *mount, operations@, id@) {
            Some(fault) => r matches Some(e) && tells_fault(e, id@, fault),
            None => r is None,
        },
{
    let store = &context.store;
    if targets_entity(&store.mutations, id) {
        return Some(
            unsafe_undo_local_state(
                id,
                "entity has a pending local filesystem mutation".to_string(),
            ),
        );
    }
    let entity = match store.get_entity(id) {
        Some(entity) => entity,
        None => {
            if plan_restores_archived(operations, id) {
                return None;
            }
            return Some(
                unsafe_undo_local_state(id, "entity is not indexed locally".to_string()),
            );
        },
    };
    if !model::kinds_match(&entity.record.kind, &EntityKind::Page) {
        return Some(unsafe_undo_local_state(id, "entity is not a page projection".to_string()));
    }
    if entity.record.hydration != HydrationState::Hydrated {
        return Some(
            unsafe_undo_local_state(
                id,
                "entity is dirty, conflicted, or not fully hydrated".to_string(),
            ),
        );
    }
    if find_mutation_at(style, &store.mutations, &entity.record.path).is_some() {
        return Some(
            unsafe_undo_local_state(
                id,
                "entity has a pending local filesystem mutation".to_string(),
            ),
        );
    }
    let shadow = match store.load_shadow(id) {
        Some(shadow) => shadow,
        None => {
            return Some(unsafe_undo_local_state(id, "entity shadow is unavailable".to_string()));
        },
    };
    if entity.record.content_hash.is_some() && !text::option_is(
        &entity.record.content_hash,
        &shadow.body_hash,
    ) {
        return Some(
            unsafe_undo_local_state(
                id,
                "entity content hash does not match its synced shadow".to_string(),
            ),
        );
    }
    let (content, seen) = match undo_entity_projection_paths(
        style,
        mount,
        &context.content_root,
        &entity.record.path,
    ) {
        Ok(found) => found,
        Err(error) => {
            return Some(error);
        },
    };
    if let Some(why) = verify_projection_matches_shadow(&context.files, &content, true) {
        return Some(unsafe_undo_local_state(id, why));
    }
    let ghost places = text::texts(seen@);
    let mut i: usize = 0;
    assert(places.take(0) == Seq::<Seq<char>>::empty());
    while i < seen.len()
        invariant
            i <= seen.len(),
            places == text::texts(seen@),
            first_file_fault(context.files@, places.take(i as int)) is None,
            match first_file_fault(context.files@, places) {
                Some(why) => local_fault(style, *context, *mount, operations@, id@) == Some(
                    LocalFault::Unsafe { why },
                ),
                None => local_fault(style, *context, *mount, operations@, id@) is None,
            },
        decreases seen.len() - i,
    {
        assert(places.take(i + 1).drop_last() == places.take(i as int));
        assert(places.take(i + 1).last() == seen@[i as int]@);
        if let Some(why) = verify_projection_matches_shadow(&context.files, &seen[i], false) {
            proof {
                lemma_first_file_fault(context.files@, places, i + 1);
            }
            return Some(unsafe_undo_local_state(id, why));
        }
        i += 1;
    }
    assert(places.take(i as int) == places);
    None
}

/// The entities whose local files an undo touches, each once, in order.
pub open spec fn local_entities(entry: JournalEntry, plan: UndoPlan) -> Seq<Seq<char>> {
    sorting::text_set(
        preimage_entities(entry.preimages@) + archived_creations(plan.operations@),
    )
}

/// The first entity whose local state does not allow an undo.
pub open spec fn first_local_fault(
    style: PathStyle,
    context: UndoContext,
    mount: MountConfig,
    operations: Seq<UndoOperation>,
    ids: Seq<Seq<char>>,
) -> Option<(Seq<char>, LocalFault)>
    decreases ids.len(),
{
    if ids.len() == 0 {
        None
    } else {
        match first_local_fault(style, context, mount, operations, ids.drop_last()) {
            Some(found) => Some(found),
            None => match local_fault(style, context, mount, operations, ids.last()) {
                Some(fault) => Some((ids.last(), fault)),
                None => None,
            },
        }
    }
}

proof fn lemma_first_local_fault(
    style: PathStyle,
    context: UndoContext,
    mount: MountConfig,
    operations: Seq<UndoOperation>,
    ids: Seq<Seq<char>>,
    n: int,
)
    requires
        0 <= n <= ids.len(),
        first_local_fault(style, context, mount, operations, ids.take(n)) is Some,
    ensures
        first_local_fault(style, context, mount, operations, ids) == first_local_fault(
            style,
            context,
            mount,
            operations,
            ids.take(n),
        ),
    decreases ids.len() - n,
{
    if n < ids.len() {
        assert(ids.take(n + 1).drop_last() == ids.take(n));
        lemma_first_local_fault(style, context, mount, operations, ids, n + 1);
    } else {
        assert(ids.take(n) == ids);
    }
}

/// Whether local state allows an undo, or what does not.
pub open spec fn local_state_allows(
    style: PathStyle,
    context: UndoContext,
    entry: JournalEntry,
    plan: UndoPlan,
    r: Result<(), HistoryError>,
) -> bool {
    let ids = local_entities(entry, plan);
    if ids.len() == 0 {
        r is Ok
    } else {
        match context.mount {
            None => r matches Err(HistoryError::MountNotFound(id)) && id == entry.mount_id,
            Some(mount) => match first_local_fault(style, context, mount, plan.operations@, ids) {
                Some((id, fault)) => r matches Err(e) && tells_fault(e, id, fault),
                None => r is Ok,
            },
        }
    }
}

/// Whether local state allows an undo: every entity whose local files it
/// touches is checked in order, and the first fault is the one reported.
pub fn preflight_undo_local_state(
    style: PathStyle,
    context: &UndoContext,
    entry: &JournalEntry,
    plan: &UndoPlan,
) -> (r: Result<(), HistoryError>)
    ensures
        local_state_allows(style, *context, *entry, *plan, r),
{
    let ghost a = preimage_entities(entry.preimages@);
    let ghost b = archived_creations(plan.operations@);
    let ghost none = Seq::<Seq<char>>::empty();
    let mut ids: Vec<String> = Vec::new();
    proof {
        assert(text::texts(ids@) =~= none);
        sorting::lemma_set_extend(none, a);
        sorting::lemma_set_extend(none + a, b);
        assert(none + a + b =~= a + b);
    }
    sorting::insert_texts(&mut ids, &preimage_ids(&entry.preimages));
    sorting::insert_texts(&mut ids, &archived_creation_ids(&plan.operations));
    let ghost all = text::texts(ids@);
    assert(all.len() == ids@.len());
    if ids.len() == 0 {
        return Ok(());
    }
    let mount = match &context.mount {
        Some(mount) => mount,
        None => {
            return Err(HistoryError::MountNotFound(entry.mount_id.clone()));
        },
    };
    let mut i: usize = 0;
    assert(all.take(0) == none);
    while i < ids.len()
        invariant
            i <= ids.len(),
            ids@.len() > 0,
            all == text::texts(ids@),
            all == local_entities(*entry, *plan),
            context.mount == Some(*mount),
            first_local_fault(
                style,
                *context,
                *mount,
                plan.operations@,
                all.take(i as int),
            ) is None,
        decreases ids.len() - i,
    {
        assert(all.take(i + 1).drop_last() == all.take(i as int));
        assert(all.take(i + 1).last() == ids@[i as int]@);
        if let Some(error) = local_fault_of(style, context, mount, &plan.operations, &ids[i]) {
            proof {
                lemma_first_local_fault(style, *context, *mount, plan.operations@, all, i + 1);
            }
            return Err(error);
        }
        i += 1;
    }
    assert(all.take(i as int) == all);
    Ok(())
}

} // verus!
