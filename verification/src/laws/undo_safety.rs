//! When a push is undone at its source.
use crate::diff::EntityKind;
use crate::history;
use crate::history::{
    HistoryError, JournalEntry, JournalStatus, UndoOperation, UndoOutcome, UndoPlan,
};
use crate::laws::log;
use crate::model::{LocalityError, MountConfig, ProjectionMode};
use crate::paths;
use crate::paths::PathStyle;
use crate::reconcile;
use crate::reconcile::Reconciliation;
use crate::sorting;
use crate::text;
use crate::undo;
use crate::undo::{IndexedEntity, ProjectionFile, RemoteObservation, UndoContext};
use crate::undo_flow;
use crate::undo_flow::{SourceUndo, UndoStep, Undoing};
use vstd::prelude::*;

verus! {

/// Whether a step of an undo is on an entity as a whole.
pub open spec fn is_on(operation: UndoOperation, id: Seq<char>) -> bool {
    match operation {
        UndoOperation::ArchiveCreatedEntity { entity_id, .. } => entity_id@ == id,
        UndoOperation::RestoreEntityBody { entity_id, .. } => entity_id@ == id,
        UndoOperation::RestoreProperties { entity_id, .. } => entity_id@ == id,
        UndoOperation::RestoreEntityLocation { entity_id, .. } => entity_id@ == id,
        UndoOperation::RestoreArchivedEntity { entity_id, .. } => entity_id@ == id,
        _ => false,
    }
}

/// Whether the journal has the state of an entity before the push.
pub open spec fn has_preimage(entry: JournalEntry, id: Seq<char>) -> bool {
    exists|k: int|
        0 <= k < entry.preimages@.len() && (#[trigger] entry.preimages@[k]).entity_id@ == id
}

/// Whether a step of the plan is on an entity as a whole.
pub open spec fn has_step(plan: UndoPlan, id: Seq<char>) -> bool {
    exists|o: int| 0 <= o < plan.operations@.len() && is_on(#[trigger] plan.operations@[o], id)
}

/// Whether the plan takes back that an entity was created.
pub open spec fn takes_back(plan: UndoPlan, id: Seq<char>) -> bool {
    exists|o: int|
        0 <= o < plan.operations@.len() && (#[trigger] plan.operations@[o] matches
            UndoOperation::ArchiveCreatedEntity { entity_id, .. } && entity_id@ == id)
}

/// Whether the plan brings an entity back from the archive.
pub open spec fn brings_back(plan: UndoPlan, id: Seq<char>) -> bool {
    exists|o: int|
        0 <= o < plan.operations@.len() && (#[trigger] plan.operations@[o] matches
            UndoOperation::RestoreArchivedEntity { entity_id, .. } && entity_id@ == id)
}

/// Whether a push, or what undoes it, touches an entity.
pub open spec fn is_touched(entry: JournalEntry, plan: UndoPlan, id: Seq<char>) -> bool {
    ||| exists|i: int| 0 <= i < entry.remote_ids@.len() && (#[trigger] entry.remote_ids@[i])@ == id
    ||| exists|i: int|
        0 <= i < entry.plan.affected_entities@.len() && (
        #[trigger] entry.plan.affected_entities@[i])@ == id
    ||| has_preimage(entry, id)
    ||| has_step(plan, id)
}

proof fn lemma_operation_entities(operations: Seq<UndoOperation>, id: Seq<char>)
    ensures
        undo::operation_entities(operations).contains(id) <==> exists|o: int|
            0 <= o < operations.len() && is_on(#[trigger] operations[o], id),
    decreases operations.len(),
{
    if operations.len() > 0 {
        let front = operations.drop_last();
        let before = undo::operation_entities(front);
        let all = undo::operation_entities(operations);
        lemma_operation_entities(front, id);
        if before.contains(id) {
            let m = choose|m: int| 0 <= m < before.len() && before[m] == id;
            assert(all[m] == id);
        }
        if all.contains(id) {
            let m = choose|m: int| 0 <= m < all.len() && all[m] == id;
            if m < before.len() {
                assert(before[m] == id);
                let o = choose|o: int| 0 <= o < front.len() && is_on(#[trigger] front[o], id);
                assert(operations[o] == front[o]);
            } else {
                assert(is_on(operations[operations.len() - 1], id));
            }
        }
        if exists|o: int| 0 <= o < operations.len() && is_on(#[trigger] operations[o], id) {
            let o = choose|o: int| 0 <= o < operations.len() && is_on(#[trigger] operations[o], id);
            if o < front.len() {
                assert(front[o] == operations[o]);
            } else {
                assert(all[before.len() as int] == id);
            }
        }
    }
}

proof fn lemma_takes_back(operations: Seq<UndoOperation>, id: Seq<char>)
    ensures
        undo::archived_creations(operations).contains(id) <==> exists|o: int|
            0 <= o < operations.len() && (#[trigger] operations[o] matches
                UndoOperation::ArchiveCreatedEntity { entity_id, .. } && entity_id@ == id),
    decreases operations.len(),
{
    if operations.len() > 0 {
        let front = operations.drop_last();
        let before = undo::archived_creations(front);
        let all = undo::archived_creations(operations);
        lemma_takes_back(front, id);
        if before.contains(id) {
            let m = choose|m: int| 0 <= m < before.len() && before[m] == id;
            assert(all[m] == id);
        }
        if all.contains(id) {
            let m = choose|m: int| 0 <= m < all.len() && all[m] == id;
            if m < before.len() {
                assert(before[m] == id);
                let o = choose|o: int|
                    0 <= o < front.len() && (#[trigger] front[o] matches
                        UndoOperation::ArchiveCreatedEntity { entity_id, .. } && entity_id@ == id);
                assert(operations[o] == front[o]);
            } else {
                assert(operations[operations.len() - 1] matches
                    UndoOperation::ArchiveCreatedEntity { entity_id, .. } && entity_id@ == id);
            }
        }
        if exists|o: int|
            0 <= o < operations.len() && (#[trigger] operations[o] matches
                UndoOperation::ArchiveCreatedEntity { entity_id, .. } && entity_id@ == id) {
            let o = choose|o: int|
                0 <= o < operations.len() && (#[trigger] operations[o] matches
                    UndoOperation::ArchiveCreatedEntity { entity_id, .. } && entity_id@ == id);
            if o < front.len() {
                assert(front[o] == operations[o]);
            } else {
                assert(all[before.len() as int] == id);
            }
        }
    }
}

proof fn lemma_preimages(entry: JournalEntry, id: Seq<char>)
    ensures
        undo::preimage_entities(entry.preimages@).contains(id) == has_preimage(entry, id),
{
    let ids = undo::preimage_entities(entry.preimages@);
    if ids.contains(id) {
        let k = choose|k: int| 0 <= k < ids.len() && ids[k] == id;
        assert(entry.preimages@[k].entity_id@ == id);
    }
    if has_preimage(entry, id) {
        let k = choose|k: int|
            0 <= k < entry.preimages@.len() && (#[trigger] entry.preimages@[k]).entity_id@ == id;
        assert(ids[k] == id);
    }
}

proof fn lemma_texts(all: Seq<String>, id: Seq<char>)
    ensures
        text::texts(all).contains(id) <==> exists|i: int|
            0 <= i < all.len() && (#[trigger] all[i])@ == id,
{
    let ids = text::texts(all);
    if ids.contains(id) {
        let k = choose|k: int| 0 <= k < ids.len() && ids[k] == id;
        assert(all[k]@ == id);
    }
    if exists|i: int| 0 <= i < all.len() && (#[trigger] all[i])@ == id {
        let i = choose|i: int| 0 <= i < all.len() && (#[trigger] all[i])@ == id;
        assert(ids[i] == id);
    }
}

proof fn lemma_sum_contains(a: Seq<Seq<char>>, b: Seq<Seq<char>>, id: Seq<char>)
    ensures
        (a + b).contains(id) == (a.contains(id) || b.contains(id)),
{
    let all = a + b;
    if a.contains(id) {
        let i = choose|i: int| 0 <= i < a.len() && a[i] == id;
        assert(all[i] == id);
    }
    if b.contains(id) {
        let i = choose|i: int| 0 <= i < b.len() && b[i] == id;
        assert(all[a.len() + i] == id);
    }
    if all.contains(id) {
        let i = choose|i: int| 0 <= i < all.len() && all[i] == id;
        if i < a.len() {
            assert(a[i] == id);
        } else {
            assert(b[i - a.len()] == id);
        }
    }
}

proof fn lemma_touched(entry: JournalEntry, plan: UndoPlan, id: Seq<char>)
    ensures
        sorting::text_set(undo::touched(entry, plan)).contains(id) == is_touched(entry, plan, id),
{
    let a = text::texts(entry.remote_ids@);
    let b = text::texts(entry.plan.affected_entities@);
    let c = undo::preimage_entities(entry.preimages@);
    let d = undo::operation_entities(plan.operations@);
    sorting::law_text_set(undo::touched(entry, plan));
    lemma_sum_contains(a, b, id);
    lemma_sum_contains(a + b, c, id);
    lemma_sum_contains(a + b + c, d, id);
    lemma_texts(entry.remote_ids@, id);
    lemma_texts(entry.plan.affected_entities@, id);
    lemma_preimages(entry, id);
    lemma_operation_entities(plan.operations@, id);
}

proof fn lemma_required(entry: JournalEntry, plan: UndoPlan, id: Seq<char>)
    ensures
        sorting::text_set(undo::required(entry, plan)).contains(id) == (has_preimage(entry, id)
            || has_step(plan, id)),
{
    let c = undo::preimage_entities(entry.preimages@);
    let d = undo::operation_entities(plan.operations@);
    sorting::law_text_set(undo::required(entry, plan));
    lemma_sum_contains(c, d, id);
    lemma_preimages(entry, id);
    lemma_operation_entities(plan.operations@, id);
}

proof fn lemma_local(entry: JournalEntry, plan: UndoPlan, id: Seq<char>)
    ensures
        undo::local_entities(entry, plan).contains(id) == (has_preimage(entry, id) || takes_back(
            plan,
            id,
        )),
{
    let c = undo::preimage_entities(entry.preimages@);
    let d = undo::archived_creations(plan.operations@);
    sorting::law_text_set(c + d);
    lemma_sum_contains(c, d, id);
    lemma_preimages(entry, id);
    lemma_takes_back(plan.operations@, id);
}

/// Only a push that was applied is undone at its source, by a complete plan, and only
/// while it is the latest push of every entity that it, or what undoes it, touches.
pub proof fn law_only_the_latest_push_is_undone(
    style: PathStyle,
    context: UndoContext,
    entry: JournalEntry,
    plan: UndoPlan,
    latest: Seq<Option<String>>,
    undoing: Undoing,
    id: Seq<char>,
)
    requires
        undo_flow::begins(style, context, entry, plan, latest, UndoStep::Apply(undoing)),
        is_touched(entry, plan, id),
    ensures
        undoing.entry == entry,
        undoing.plan == plan,
        entry.status is Applied || entry.status is Reconciled,
        plan.status is Complete,
        exists|i: int|
            0 <= i < latest.len() && sorting::text_set(undo::touched(entry, plan))[i] == id && (
            #[trigger] latest[i] matches Some(push) && push@ == entry.push_id@),
{
    lemma_touched(entry, plan, id);
    let ids = sorting::text_set(undo::touched(entry, plan));
    let i = choose|i: int| 0 <= i < ids.len() && ids[i] == id;
    assert(undo::latest_for(latest, i) == Some(entry.push_id@));
    assert(0 <= i < latest.len());
    let push = latest[i];
}

/// Where an undo is refused because of a later push, the entity that it names is one
/// that the push or its undo touches, and another push, or none, is the latest there.
pub proof fn law_refusals_name_a_later_push(
    style: PathStyle,
    context: UndoContext,
    entry: JournalEntry,
    plan: UndoPlan,
    latest: Seq<Option<String>>,
    push_id: String,
    entity_id: String,
    latest_push_id: Option<String>,
)
    requires
        undo_flow::begins(
            style,
            context,
            entry,
            plan,
            latest,
            UndoStep::Fail(HistoryError::UndoNotLatest { push_id, entity_id, latest_push_id }),
        ),
    ensures
        push_id@ == entry.push_id@,
        is_touched(entry, plan, entity_id@),
        text::opt_text(latest_push_id) != Some(entry.push_id@),
{
    let error = HistoryError::UndoNotLatest { push_id, entity_id, latest_push_id };
    let ids = sorting::text_set(undo::touched(entry, plan));
    if !undo::is_latest_of(entry, ids, latest) {
        let i = choose|i: int| #[trigger]
            undo::names_later_push_of(error, entry, ids, latest, i);
        assert(ids.contains(ids[i]));
        lemma_touched(entry, plan, ids[i]);
    } else {
        assert(undo::local_state_allows(style, context, entry, plan, Err(error)));
    }
}

/// Whether `i` is the first file of a path that was looked at.
pub open spec fn is_first_file(files: Seq<ProjectionFile>, i: int, path: Seq<char>) -> bool {
    &&& 0 <= i < files.len()
    &&& files[i].path@ == path
    &&& forall|j: int| 0 <= j < i ==> (#[trigger] files[j]).path@ != path
}

proof fn lemma_file_state(files: Seq<ProjectionFile>, path: Seq<char>)
    ensures
        match undo::file_state(files, path) {
            None => forall|j: int| 0 <= j < files.len() ==> (#[trigger] files[j]).path@ != path,
            Some(s) => exists|i: int| #[trigger]
                is_first_file(files, i, path) && files[i].state == s,
        },
    decreases files.len(),
{
    if files.len() > 0 {
        if files[0].path@ == path {
            assert(is_first_file(files, 0, path));
        } else {
            let rest = files.skip(1);
            lemma_file_state(rest, path);
            match undo::file_state(rest, path) {
                None => {
                    assert forall|j: int| 0 <= j < files.len() implies (#[trigger] files[j]).path@
                        != path by {
                        if j > 0 {
                            assert(rest[j - 1] == files[j]);
                        }
                    }
                },
                Some(s) => {
                    let i = choose|i: int| #[trigger]
                        is_first_file(rest, i, path) && rest[i].state == s;
                    assert forall|j: int| 0 <= j < i + 1 implies (#[trigger] files[j]).path@
                        != path by {
                        if j > 0 {
                            assert(rest[j - 1] == files[j]);
                        }
                    }
                    assert(is_first_file(files, i + 1, path));
                },
            }
        }
    }
}

/// Whether an entity of the index is the first with an identifier.
pub open spec fn is_first_entity(entities: Seq<IndexedEntity>, i: int, id: Seq<char>) -> bool {
    &&& 0 <= i < entities.len()
    &&& entities[i].record.remote_id@ == id
    &&& forall|j: int| 0 <= j < i ==> (#[trigger] entities[j]).record.remote_id@ != id
}

pub proof fn lemma_first_entity(entities: Seq<IndexedEntity>, id: Seq<char>)
    ensures
        match undo::entity_named(entities, id) {
            None => forall|j: int|
                0 <= j < entities.len() ==> (#[trigger] entities[j]).record.remote_id@ != id,
            Some(e) => exists|i: int| #[trigger]
                is_first_entity(entities, i, id) && entities[i] == e,
        },
    decreases entities.len(),
{
    if entities.len() > 0 {
        let front = entities.drop_last();
        lemma_first_entity(front, id);
        match undo::entity_named(front, id) {
            Some(e) => {
                let i = choose|i: int| #[trigger] is_first_entity(front, i, id) && front[i] == e;
                assert forall|j: int| 0 <= j < i implies (#[trigger] entities[j]).record.remote_id@
                    != id by {
                    assert(front[j] == entities[j]);
                }
                assert(is_first_entity(entities, i, id));
            },
            None => {
                assert forall|j: int| 0 <= j < front.len() implies (
                #[trigger] entities[j]).record.remote_id@ != id by {
                    assert(front[j] == entities[j]);
                }
                if entities.last().record.remote_id@ == id {
                    assert(is_first_entity(entities, entities.len() - 1, id));
                }
            },
        }
    }
}

proof fn lemma_shadow_is_there(
    shadows: Seq<crate::model::ShadowDocument>,
    id: Seq<char>,
)
    ensures
        undo::shadow_named(shadows, id) matches Some(s) ==> s.entity_id@ == id && shadows.contains(
            s,
        ),
    decreases shadows.len(),
{
    if shadows.len() > 0 {
        let front = shadows.drop_last();
        lemma_shadow_is_there(front, id);
        match undo::shadow_named(front, id) {
            Some(s) => {
                let i = choose|i: int| 0 <= i < front.len() && front[i] == s;
                assert(shadows[i] == s);
            },
            None => {
                assert(shadows[shadows.len() - 1] == shadows.last());
            },
        }
    }
}

proof fn lemma_no_mutation_at(
    style: PathStyle,
    mutations: Seq<crate::model::VirtualMutationRecord>,
    path: Seq<char>,
)
    requires
        undo::mutation_at(style, mutations, path) is None,
    ensures
        forall|m: int|
            0 <= m < mutations.len() ==> !paths::same(
                style,
                (#[trigger] mutations[m]).projected_path@,
                path,
            ),
    decreases mutations.len(),
{
    if mutations.len() > 0 {
        let rest = mutations.skip(1);
        lemma_no_mutation_at(style, rest, path);
        assert forall|m: int| 0 <= m < mutations.len() implies !paths::same(
            style,
            (#[trigger] mutations[m]).projected_path@,
            path,
        ) by {
            if m > 0 {
                assert(rest[m - 1] == mutations[m]);
            }
        }
    }
}

proof fn lemma_insert_keeps(style: PathStyle, s: Seq<Seq<char>>, path: Seq<char>)
    ensures
        forall|x: Seq<char>| s.contains(x) ==> #[trigger] paths::path_insert(
            style,
            s,
            path,
        ).contains(x),
        exists|x: Seq<char>| #[trigger]
            paths::path_insert(style, s, path).contains(x) && paths::same(style, x, path),
    decreases s.len(),
{
    let all = paths::path_insert(style, s, path);
    if s.len() == 0 {
        assert(all[0] == path);
        assert(all.contains(path));
    } else if paths::same(style, s.last(), path) {
        assert(all.contains(s.last()));
    } else if paths::components_le(
        paths::components(style, s.last()),
        paths::components(style, path),
    ) {
        assert(all[s.len() as int] == path);
        assert(all.contains(path));
        assert forall|x: Seq<char>| s.contains(x) implies #[trigger] all.contains(x) by {
            let i = choose|i: int| 0 <= i < s.len() && s[i] == x;
            assert(all[i] == x);
        }
    } else {
        let front = s.drop_last();
        let before = paths::path_insert(style, front, path);
        lemma_insert_keeps(style, front, path);
        assert forall|x: Seq<char>| s.contains(x) implies #[trigger] all.contains(x) by {
            let i = choose|i: int| 0 <= i < s.len() && s[i] == x;
            if i < front.len() {
                assert(front[i] == x);
                assert(before.contains(x));
                let j = choose|j: int| 0 <= j < before.len() && before[j] == x;
                assert(all[j] == x);
            } else {
                assert(all[before.len() as int] == x);
            }
        }
        let x = choose|x: Seq<char>| #[trigger]
            before.contains(x) && paths::same(style, x, path);
        let j = choose|j: int| 0 <= j < before.len() && before[j] == x;
        assert(all[j] == x);
        assert(all.contains(x));
    }
}

proof fn lemma_visible(
    style: PathStyle,
    roots: Seq<Seq<char>>,
    relative: Seq<char>,
    content: Seq<char>,
    i: int,
)
    requires
        0 <= i < roots.len(),
        !paths::same(style, paths::joined(style, roots[i], relative), content),
    ensures
        exists|x: Seq<char>| #[trigger]
            undo::visible_places(style, roots, relative, content).contains(x) && paths::same(
                style,
                x,
                paths::joined(style, roots[i], relative),
            ),
    decreases roots.len(),
{
    let front = roots.drop_last();
    let before = undo::visible_places(style, front, relative, content);
    let last = paths::joined(style, roots.last(), relative);
    lemma_insert_keeps(style, before, last);
    if i < front.len() {
        assert(front[i] == roots[i]);
        lemma_visible(style, front, relative, content, i);
        let x = choose|x: Seq<char>| #[trigger]
            before.contains(x) && paths::same(style, x, paths::joined(style, roots[i], relative));
        assert(undo::visible_places(style, roots, relative, content).contains(x));
    } else {
        assert(roots[i] == roots.last());
        let x = choose|x: Seq<char>| #[trigger]
            paths::path_insert(style, before, last).contains(x) && paths::same(style, x, last);
        assert(undo::visible_places(style, roots, relative, content).contains(x));
    }
}

proof fn lemma_no_file_fault(files: Seq<ProjectionFile>, seen: Seq<Seq<char>>, x: Seq<char>)
    requires
        undo::first_file_fault(files, seen) is None,
        seen.contains(x),
    ensures
        undo::file_fault(files, x, false) is None,
    decreases seen.len(),
{
    let k = choose|k: int| 0 <= k < seen.len() && seen[k] == x;
    if k < seen.len() - 1 {
        assert(seen.drop_last()[k] == x);
        lemma_no_file_fault(files, seen.drop_last(), x);
    }
}

/// Whether the file of a place is there, and as it was synced.
pub open spec fn is_clean_at(files: Seq<ProjectionFile>, path: Seq<char>) -> bool {
    exists|f: int| #[trigger] is_first_file(files, f, path) && files[f].state is Clean
}

/// Whether nothing speaks against a place: the file there is as it was synced, or none
/// is there.
pub open spec fn is_harmless_at(files: Seq<ProjectionFile>, path: Seq<char>) -> bool {
    forall|f: int| #[trigger] is_first_file(files, f, path) ==> files[f].state is Clean
}

/// Whether undoing loses nothing of what an indexed entity has here: it is a page that
/// was synced and not changed since, in the index, in what is pending, and in every file
/// that shows it.
pub open spec fn is_untouched_here(
    style: PathStyle,
    context: UndoContext,
    mount: MountConfig,
    e: IndexedEntity,
) -> bool {
    let content = match mount.projection {
        ProjectionMode::PlainFiles => paths::joined(style, mount.root@, e.record.path@),
        _ => paths::joined(style, context.content_root->0@, e.record.path@),
    };
    &&& e.record.kind is Page
    &&& e.record.hydration is Hydrated
    &&& forall|m: int|
        0 <= m < context.store.mutations@.len() ==> !paths::same(
            style,
            (#[trigger] context.store.mutations@[m]).projected_path@,
            e.record.path@,
        )
    &&& exists|s: int|
        0 <= s < context.store.shadows@.len() && (
        #[trigger] context.store.shadows@[s]).entity_id@ == e.record.remote_id@ && (
        e.record.content_hash matches Some(hash) ==> hash@ == context.store.shadows@[s].body_hash@)
    &&& mount.projection is PlainFiles || context.content_root is Some
    &&& is_clean_at(context.files@, content)
    &&& !(mount.projection is PlainFiles) ==> forall|a: int|
        0 <= a < mount.access_roots@.len() ==> {
            let place = paths::joined(
                style,
                (#[trigger] mount.access_roots@[a])@,
                e.record.path@,
            );
            ||| paths::same(style, place, content)
            ||| exists|x: Seq<char>|
                paths::same(style, x, place) && #[trigger] is_harmless_at(context.files@, x)
        }
}

proof fn lemma_first_local_fault(
    style: PathStyle,
    context: UndoContext,
    mount: MountConfig,
    operations: Seq<UndoOperation>,
    ids: Seq<Seq<char>>,
    id: Seq<char>,
)
    requires
        undo::first_local_fault(style, context, mount, operations, ids) is None,
        ids.contains(id),
    ensures
        undo::local_fault(style, context, mount, operations, id) is None,
    decreases ids.len(),
{
    let k = choose|k: int| 0 <= k < ids.len() && ids[k] == id;
    if k < ids.len() - 1 {
        assert(ids.drop_last()[k] == id);
        lemma_first_local_fault(style, context, mount, operations, ids.drop_last(), id);
    }
}

/// A push is undone only while nothing here would be lost by it: every entity whose state
/// it brings back, and every one whose creation it takes back, has no pending change, and
/// is untouched since it was synced where it is indexed. It has to be indexed unless the
/// plan brings it back from the archive.
pub proof fn law_undo_loses_nothing_here(
    style: PathStyle,
    context: UndoContext,
    entry: JournalEntry,
    plan: UndoPlan,
    id: Seq<char>,
)
    requires
        undo::local_state_allows(style, context, entry, plan, Ok(())),
        has_preimage(entry, id) || takes_back(plan, id),
    ensures
        context.mount is Some,
        forall|m: int|
            0 <= m < context.store.mutations@.len() ==> text::opt_text(
                (#[trigger] context.store.mutations@[m]).target_remote_id,
            ) != Some(id),
        brings_back(plan, id) || exists|i: int| #[trigger]
            is_first_entity(context.store.entities@, i, id),
        forall|i: int| #[trigger]
            is_first_entity(context.store.entities@, i, id) ==> is_untouched_here(
                style,
                context,
                context.mount->0,
                context.store.entities@[i],
            ),
{
    lemma_local(entry, plan, id);
    let ids = undo::local_entities(entry, plan);
    let mount = context.mount->0;
    assert(ids.len() > 0);
    lemma_first_local_fault(style, context, mount, plan.operations@, ids, id);
    let entities = context.store.entities@;
    lemma_first_entity(entities, id);
    if let Some(e) = undo::entity_named(entities, id) {
        let i = choose|i: int| #[trigger] is_first_entity(entities, i, id) && entities[i] == e;
        assert forall|j: int| #[trigger] is_first_entity(entities, j, id) implies j == i by {}
        lemma_no_mutation_at(style, context.store.mutations@, e.record.path@);
        lemma_shadow_is_there(context.store.shadows@, id);
        let shadow = undo::shadow_named(context.store.shadows@, id)->0;
        let s = choose|s: int|
            0 <= s < context.store.shadows@.len() && context.store.shadows@[s] == shadow;
        assert(context.store.shadows@[s].entity_id@ == id);
        let content = undo::write_path(style, mount, context.content_root, e.record.path@)->0;
        lemma_file_state(context.files@, content);
        let seen = undo::visible_paths(style, mount, e.record.path@, content);
        if !(mount.projection is PlainFiles) {
            let roots = text::texts(mount.access_roots@);
            assert forall|a: int| 0 <= a < mount.access_roots@.len() implies ({
                let place = paths::joined(
                    style,
                    (#[trigger] mount.access_roots@[a])@,
                    e.record.path@,
                );
                ||| paths::same(style, place, content)
                ||| exists|x: Seq<char>|
                    paths::same(style, x, place) && #[trigger] is_harmless_at(context.files@, x)
            }) by {
                assert(roots[a] == mount.access_roots@[a]@);
                let place = paths::joined(style, roots[a], e.record.path@);
                if !paths::same(style, place, content) {
                    lemma_visible(style, roots, e.record.path@, content, a);
                    let x = choose|x: Seq<char>| #[trigger]
                        seen.contains(x) && paths::same(style, x, place);
                    lemma_no_file_fault(context.files@, seen, x);
                    lemma_file_state(context.files@, x);
                    assert(is_harmless_at(context.files@, x));
                }
            }
        }
        assert(is_untouched_here(style, context, mount, e));
    }
}

proof fn lemma_nothing_absent(wanted: Seq<Seq<char>>, given: Seq<Seq<char>>, id: Seq<char>)
    requires
        undo::absent(wanted, given).len() == 0,
        wanted.contains(id),
    ensures
        given.contains(id),
    decreases wanted.len(),
{
    let k = choose|k: int| 0 <= k < wanted.len() && wanted[k] == id;
    if k < wanted.len() - 1 {
        assert(wanted.drop_last()[k] == id);
        lemma_nothing_absent(wanted.drop_last(), given, id);
    }
}

/// What the source did is taken up here only where it reports every entity as changed whose
/// state the journal has from before the push or that a step of the plan is on.
pub proof fn law_incomplete_undos_are_refused(
    style: PathStyle,
    context: UndoContext,
    undoing: Undoing,
    done: SourceUndo,
    result: Reconciliation,
    id: Seq<char>,
)
    requires
        undo_flow::finishes(style, context, undoing, done, Ok(result)),
        has_preimage(undoing.entry, id) || has_step(undoing.plan, id),
    ensures
        exists|i: int|
            0 <= i < done.changed_remote_ids@.len() && (
            #[trigger] done.changed_remote_ids@[i])@ == id,
{
    lemma_required(undoing.entry, undoing.plan, id);
    lemma_nothing_absent(
        sorting::text_set(undo::required(undoing.entry, undoing.plan)),
        text::texts(done.changed_remote_ids@),
        id,
    );
    lemma_texts(done.changed_remote_ids@, id);
}

/// Where the source refuses an undo, nothing is marked as reverted, and the report has the
/// reason and says what kind of refusal it is.
pub proof fn law_refused_undos_revert_nothing(
    style: PathStyle,
    context: UndoContext,
    undoing: Undoing,
    error: LocalityError,
    r: UndoStep,
)
    requires
        undo_flow::follows_source(style, context, undoing, Err(error), r),
    ensures
        r matches UndoStep::Finish(outcome) && {
            &&& !outcome.mark_reverted
            &&& !outcome.report.ok
            &&& outcome.report.push_id@ == undoing.entry.push_id@
            &&& outcome.report.message@ == error.message@
            &&& outcome.report.changed_remote_ids@.len() == 0
            &&& error.kind is NotImplemented ==> outcome.report.action@
                == "reverse_apply_not_implemented"@
            &&& error.kind is RemoteNotFound ==> outcome.report.action@
                == "reverse_apply_remote_not_found"@
            &&& error.kind is UpdateRequired ==> outcome.report.action@ == "update_required"@
            &&& !(error.kind is NotImplemented || error.kind is RemoteNotFound || error.kind
                is UpdateRequired) ==> outcome.report.action@ == "reverse_apply_failed"@
            &&& outcome.report.entry matches Some(shown)
            &&& log::tells_of(undoing.entry, undoing.entry.status, false, shown)
        },
{
}

/// What the source says of an entity that a step moved back, brought back or took away: the
/// one word on it, which is of the mount, has the parent and the kind that were there
/// before, and says whether it is deleted.
pub open spec fn is_confirmed(
    entities: Seq<IndexedEntity>,
    entry: JournalEntry,
    operation: UndoOperation,
    observations: Seq<RemoteObservation>,
    n: int,
) -> bool {
    let word = observations[n];
    &&& 0 <= n < observations.len()
    &&& word.mount_id@ == entry.mount_id@
    &&& match operation {
        UndoOperation::RestoreEntityLocation {
            entity_id,
            previous_parent_id,
            previous_title,
            ..
        } => {
            &&& word.remote_id@ == entity_id@
            &&& !word.deleted
            &&& word.parent_remote_id matches Some(parent)
            &&& parent@ == previous_parent_id@
            &&& word.title@ == previous_title@
        },
        UndoOperation::RestoreArchivedEntity { entity_id, .. } => {
            &&& word.remote_id@ == entity_id@
            &&& !word.deleted
            &&& exists|k: int|
                0 <= k < entry.preimages@.len() && (#[trigger] entry.preimages@[k]).entity_id@
                    == entity_id@ && text::opt_text(word.parent_remote_id) == text::opt_text(
                    entry.preimages@[k].parent_id,
                ) && (entry.preimages@[k].kind matches Some(kind) && (kind is Page <==> word.kind
                    is Page))
        },
        UndoOperation::ArchiveCreatedEntity { entity_id, .. } => {
            &&& word.remote_id@ == entity_id@
            &&& word.deleted
            &&& exists|i: int| #[trigger]
                is_first_entity(entities, i, entity_id@) && (entities[i].record.kind is Page
                    <==> word.kind is Page)
        },
        _ => true,
    }
    &&& forall|m: int|
        0 <= m < observations.len() && (#[trigger] observations[m]).remote_id@ == word.remote_id@
            ==> m == n
}

/// Whether a step needs the word of the source on where its entity is.
pub open spec fn needs_word(operation: UndoOperation) -> bool {
    ||| operation is RestoreEntityLocation
    ||| operation is RestoreArchivedEntity
    ||| operation is ArchiveCreatedEntity
}

proof fn lemma_verdict_of(
    style: PathStyle,
    entities: Seq<IndexedEntity>,
    entry: JournalEntry,
    operations: Seq<UndoOperation>,
    changed: Seq<Seq<char>>,
    observations: Seq<RemoteObservation>,
    o: int,
)
    requires
        undo::verdicts(style, entities, entry, operations, changed, observations) is Ok,
        0 <= o < operations.len(),
    ensures
        !(undo::verdict(style, entities, entry, operations[o], changed, observations) is Refused),
    decreases operations.len(),
{
    if o < operations.len() - 1 {
        assert(operations.drop_last()[o] == operations[o]);
        lemma_verdict_of(
            style,
            entities,
            entry,
            operations.drop_last(),
            changed,
            observations,
            o,
        );
    }
}

proof fn lemma_matching(observations: Seq<RemoteObservation>, id: Seq<char>, m: int)
    ensures
        undo::matching(observations, id).contains(m) <==> 0 <= m < observations.len()
            && observations[m].remote_id@ == id,
    decreases observations.len(),
{
    if observations.len() > 0 {
        let front = observations.drop_last();
        let before = undo::matching(front, id);
        let all = undo::matching(observations, id);
        lemma_matching(front, id, m);
        if before.contains(m) {
            let k = choose|k: int| 0 <= k < before.len() && before[k] == m;
            assert(all[k] == m);
            assert(front[m] == observations[m]);
        }
        if all.contains(m) {
            let k = choose|k: int| 0 <= k < all.len() && all[k] == m;
            if k < before.len() {
                assert(before[k] == m);
            }
        }
        if 0 <= m < observations.len() && observations[m].remote_id@ == id {
            if m < front.len() {
                assert(front[m] == observations[m]);
            } else {
                assert(all[before.len() as int] == m);
            }
        }
    }
}

proof fn lemma_preimage_of(entry: JournalEntry, preimages: Seq<history::JournalPreimage>, id: Seq<char>)
    ensures
        undo::preimage_of(preimages, id) matches Some(p) ==> p.entity_id@ == id
            && preimages.contains(p),
    decreases preimages.len(),
{
    if preimages.len() > 0 {
        if preimages[0].entity_id@ == id {
            assert(preimages.contains(preimages[0]));
        } else {
            let rest = preimages.skip(1);
            lemma_preimage_of(entry, rest, id);
            if let Some(p) = undo::preimage_of(rest, id) {
                let k = choose|k: int| 0 <= k < rest.len() && rest[k] == p;
                assert(preimages[k + 1] == p);
            }
        }
    }
}

/// What the source did is taken up here only where its word confirms each step that moves
/// an entity back, brings it back or takes it away.
pub proof fn law_undo_goes_by_the_word_of_the_source(
    style: PathStyle,
    context: UndoContext,
    entry: JournalEntry,
    plan: UndoPlan,
    changed: Seq<Seq<char>>,
    observations: Seq<RemoteObservation>,
    done: Reconciliation,
    o: int,
)
    requires
        reconcile::reconciliation_result(
            style,
            context,
            entry,
            plan,
            changed,
            observations,
            Ok(done),
        ),
        0 <= o < plan.operations@.len(),
        needs_word(plan.operations@[o]),
    ensures
        exists|n: int| #[trigger]
            is_confirmed(
                context.store.entities@,
                entry,
                plan.operations@[o],
                observations,
                n,
            ) && changed.contains(observations[n].remote_id@),
{
    let entities = context.store.entities@;
    let operation = plan.operations@[o];
    lemma_verdict_of(style, entities, entry, plan.operations@, changed, observations, o);
    let id = match operation {
        UndoOperation::RestoreEntityLocation { entity_id, .. } => entity_id@,
        UndoOperation::RestoreArchivedEntity { entity_id, .. } => entity_id@,
        UndoOperation::ArchiveCreatedEntity { entity_id, .. } => entity_id@,
        _ => Seq::empty(),
    };
    let all = undo::matching(observations, id);
    assert(all.len() == 1);
    let n = all[0];
    assert(all.contains(n));
    lemma_matching(observations, id, n);
    lemma_first_entity(entities, id);
    lemma_preimage_of(entry, entry.preimages@, id);
    assert forall|m: int|
        0 <= m < observations.len() && (#[trigger] observations[m]).remote_id@ == id implies m
        == n by {
        lemma_matching(observations, id, m);
    }
    if operation is RestoreArchivedEntity {
        let p = undo::preimage_of(entry.preimages@, id)->0;
        let k = choose|k: int| 0 <= k < entry.preimages@.len() && entry.preimages@[k] == p;
        assert(entry.preimages@[k].entity_id@ == id);
    }
    assert(is_confirmed(entities, entry, operation, observations, n));
}

/// The place that the source names for an entity is one that no other entity has, and stands
/// directly below the parent, or at the top where there is none.
pub proof fn law_observed_places_are_free(
    style: PathStyle,
    entities: Seq<IndexedEntity>,
    entity: Seq<char>,
    parent: Option<Seq<char>>,
    kind: EntityKind,
    path: Seq<char>,
)
    requires
        undo::observed_path(style, entities, entity, parent, kind, path) is Ok,
    ensures
        ({
            let place = undo::observed_path(style, entities, entity, parent, kind, path)->Ok_0;
            let c = paths::components(style, path);
            &&& path.len() > 0
            &&& !paths::absolute(style, path)
            &&& forall|i: int| 0 <= i < c.len() ==> (#[trigger] c[i]) is Normal
            &&& forall|i: int| #[trigger]
                is_first_at(style, entities, i, place) ==> entities[i].record.remote_id@ == entity
            &&& match parent {
                None => place == path && (c.len() == 1 || (kind is Page && c.len() == 2
                    && paths::last_name(c) == Some("page.md"@))),
                Some(id) => exists|i: int| #[trigger]
                    is_first_entity(entities, i, id) && {
                        let below = if entities[i].record.kind is Page {
                            entities[i].container@
                        } else {
                            entities[i].record.path@
                        };
                        ||| place == path && paths::is_below(c, paths::components(style, below))
                        ||| place == paths::joined(style, below, path) && (c.len() == 1 || (kind
                            is Page && c.len() == 2 && paths::last_name(c) == Some("page.md"@)))
                    },
            }
        }),
{
    let place = undo::observed_path(style, entities, entity, parent, kind, path)->Ok_0;
    if let Some(id) = parent {
        lemma_first_entity(entities, id);
    }
    lemma_owner(style, entities, place);
}

/// Whether an entity of the index is the first at a place.
pub open spec fn is_first_at(
    style: PathStyle,
    entities: Seq<IndexedEntity>,
    i: int,
    place: Seq<char>,
) -> bool {
    &&& 0 <= i < entities.len()
    &&& paths::same(style, entities[i].record.path@, place)
    &&& forall|j: int|
        0 <= j < i ==> !paths::same(style, (#[trigger] entities[j]).record.path@, place)
}

proof fn lemma_owner(style: PathStyle, entities: Seq<IndexedEntity>, place: Seq<char>)
    ensures
        forall|i: int| #[trigger]
            is_first_at(style, entities, i, place) ==> undo::entity_at(style, entities, place)
                == Some(entities[i]),
        (forall|j: int|
            0 <= j < entities.len() ==> !paths::same(
                style,
                (#[trigger] entities[j]).record.path@,
                place,
            )) ==> undo::entity_at(style, entities, place) is None,
    decreases entities.len(),
{
    if entities.len() > 0 {
        let front = entities.drop_last();
        lemma_owner(style, front, place);
        assert(forall|j: int| 0 <= j < front.len() ==> #[trigger] front[j] == entities[j]);
        assert forall|i: int| #[trigger]
            is_first_at(style, entities, i, place) implies undo::entity_at(
            style,
            entities,
            place,
        ) == Some(entities[i]) by {
            if i < front.len() {
                assert(is_first_at(style, front, i, place));
            } else {
                assert forall|j: int| 0 <= j < front.len() implies !paths::same(
                    style,
                    (#[trigger] front[j]).record.path@,
                    place,
                ) by {
                    assert(front[j] == entities[j]);
                }
            }
        }
        if forall|j: int|
            0 <= j < entities.len() ==> !paths::same(
                style,
                (#[trigger] entities[j]).record.path@,
                place,
            ) {
            assert forall|j: int| 0 <= j < front.len() implies !paths::same(
                style,
                (#[trigger] front[j]).record.path@,
                place,
            ) by {
                assert(front[j] == entities[j]);
            }
        }
    }
}

/// A push that was undone here without its source is shown as reverted, and one that was not
/// keeps its status; the report is on that push.
pub proof fn law_undo_reports_are_on_their_push(
    entry: JournalEntry,
    plan: UndoPlan,
    outcome: UndoOutcome,
)
    requires
        history::undo_outcome(entry, plan, outcome),
    ensures
        outcome.report.command@ == "undo"@,
        outcome.report.push_id@ == entry.push_id@,
        outcome.report.changed_remote_ids@.len() == 0,
        outcome.report.ok ==> outcome.report.status@ == "reverted"@ && (
        outcome.report.entry matches Some(shown) && log::tells_of(
            entry,
            JournalStatus::Reverted,
            false,
            shown,
        )),
        !outcome.report.ok ==> (outcome.report.entry matches Some(shown) && log::tells_of(
            entry,
            entry.status,
            false,
            shown,
        ) && outcome.report.status@ == shown.status@),
        outcome.report.undo_plan is Some <==> entry.status is Applied || entry.status
            is Reconciled,
        entry.status is Applied || entry.status is Reconciled ==> {
            &&& plan.status is Complete ==> outcome.report.action@
                == "reverse_apply_not_implemented"@
            &&& plan.status is Partial ==> outcome.report.action@ == "undo_plan_partial"@
            &&& plan.status is Blocked ==> outcome.report.action@ == "undo_plan_blocked"@
        },
        entry.status is Applying || (entry.status is Failed && entry.apply_effects@.len() > 0)
            ==> !outcome.report.ok && outcome.report.action@ == "undo_unsafe_journal_status"@,
{
}

/// An undo that went through ends well, every other one does not; only a source that failed
/// in doing it is told apart from a push that cannot be undone.
pub proof fn law_undo_exit_codes(ok: bool, action: Seq<char>)
    ensures
        history::undo_exit_code(ok, action) == 0 <==> ok,
        !ok ==> (history::undo_exit_code(ok, action) == 1 <==> action
            == "reverse_apply_failed"@),
        history::undo_exit_code(ok, action) == 0 || history::undo_exit_code(ok, action) == 1
            || history::undo_exit_code(ok, action) == 5,
{
}

} // verus!
