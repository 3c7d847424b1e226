//! Where an undo puts what it brings back, and who is told.
use crate::history::{JournalEntry, JournalPreimage, UndoPlan};
use crate::laws::undo::file_place;
use crate::laws::undo_safety;
use crate::model::MountConfig;
use crate::paths;
use crate::paths::PathStyle;
use crate::reconcile;
use crate::reconcile::{Ground, Progress, Reconciliation, RefreshView, StepView};
use crate::sorting;
use crate::text;
use crate::undo;
use crate::undo::{Confirmation, RemoteObservation, UndoContext};
use vstd::prelude::*;

verus! {

/// The index entry of what an undo brings back is under the title, of the kind, at the place and of
/// the version that the source reports, where it has a word on it; else it stays as it was. An
/// entity that was gone is of the mount of the push.
pub proof fn law_restored_entries_are_as_the_source_says(
    style: PathStyle,
    g: Ground,
    p: Progress,
    preimage: JournalPreimage,
)
    requires
        p.stop is None,
    ensures
        ({
            let after = reconcile::preimage_restored(style, g, p, preimage);
            let id = preimage.entity_id@;
            let word = reconcile::confirmation_for(g.confirmed, id);
            let before = reconcile::entity_now(g.context.store.entities@, p.entities, id);
            after.entities.len() > p.entities.len() ==> {
                let saved = after.entities.last();
                &&& saved.0 == id
                &&& saved.1 matches Some(record) && {
                    &&& word matches Some(c) ==> {
                        &&& record.path == c.path
                        &&& record.title == g.observations[c.observation].title@
                        &&& record.kind == g.observations[c.observation].kind
                        &&& record.synced_remote_version == text::opt_text(
                            g.observations[c.observation].remote_version,
                        )
                    }
                    &&& word is None ==> before is Some && record.path == before->0.path
                        && record.title == before->0.title && record.kind == before->0.kind
                        && record.synced_remote_version == before->0.synced_remote_version
                    &&& before is Some ==> record.mount_id == before->0.mount_id
                        && record.remote_edited_at == before->0.remote_edited_at
                    &&& before is None ==> record.mount_id == g.mount_id && record.remote_edited_at
                        is None
                    &&& record.hydration is Hydrated
                    &&& record.content_hash == Some(preimage.shadow.body_hash@)
                }
            }
        }),
{
}

/// Whoever shows an entity that an undo brought back is told: on macOS its folders of before and
/// now, and on Windows what its copy was, unless it is new there.
pub proof fn law_restored_entries_are_shown_anew(
    style: PathStyle,
    g: Ground,
    p: Progress,
    preimage: JournalPreimage,
)
    requires
        p.stop is None,
    ensures
        ({
            let after = reconcile::preimage_restored(style, g, p, preimage);
            let id = preimage.entity_id@;
            let before = reconcile::entity_now(g.context.store.entities@, p.entities, id);
            after.entities.len() > p.entities.len() ==> {
                &&& g.mount.projection is MacosFileProvider ==> after.steps.last() == (
                StepView::Refresh {
                    refresh: RefreshView::Macos { entity_id: id, with_current: true },
                })
                &&& g.mount.projection is WindowsCloudFiles && before is Some
                    && g.context.content_root is Some ==> (
                after.steps.last() matches StepView::Refresh {
                    refresh: RefreshView::WindowsEntity { entity_id, previous_path, previous_shadow },
                } && entity_id == id && previous_path == before->0.path && Some(previous_shadow)
                    == reconcile::shadow_now(g.context.store.shadows@, p.shadows, id))
                &&& g.mount.projection is PlainFiles || g.mount.projection is LinuxFuse
                    ==> after.steps.last() is SaveEntity
            }
        }),
{
}

/// Whoever showed an entity whose creation an undo takes back is told that it is gone.
pub proof fn law_taken_back_entries_are_shown_no_more(
    style: PathStyle,
    g: Ground,
    p: Progress,
    id: Seq<char>,
)
    requires
        p.stop is None,
    ensures
        ({
            let after = reconcile::creation_archived(style, g, p, id);
            let before = reconcile::entity_now(g.context.store.entities@, p.entities, id);
            after.stop is None ==> {
                &&& before is Some
                &&& after.entities.last() == (id, None::<reconcile::EntityView>)
                &&& g.mount.projection is MacosFileProvider ==> after.steps.last() == (
                StepView::Refresh {
                    refresh: RefreshView::Macos { entity_id: id, with_current: false },
                })
                &&& g.mount.projection is WindowsCloudFiles ==> (
                after.steps.last() matches StepView::Refresh {
                    refresh: RefreshView::WindowsRemoved {
                        entity_id,
                        previous_path,
                        previous_shadow,
                    },
                } && entity_id == id && previous_path == before->0.path && Some(previous_shadow)
                    == reconcile::shadow_now(g.context.store.shadows@, p.shadows, id))
                &&& g.mount.projection is PlainFiles || g.mount.projection is LinuxFuse
                    ==> after.steps.last() == (StepView::DeleteEntity { entity_id: id })
            }
        }),
{
}

proof fn lemma_no_place_fault(
    style: PathStyle,
    context: UndoContext,
    mount: MountConfig,
    confirmed: Seq<Confirmation>,
    changed: Seq<Seq<char>>,
    ids: Seq<Seq<char>>,
    k: int,
)
    requires
        reconcile::first_place_fault(style, context, mount, confirmed, changed, ids) is None,
        0 <= k < ids.len(),
        changed.contains(ids[k]),
    ensures
        reconcile::place_fault(style, context, mount, confirmed, ids[k]) is None,
    decreases ids.len(),
{
    if k < ids.len() - 1 {
        assert(ids.drop_last()[k] == ids[k]);
        lemma_no_place_fault(
            style,
            context,
            mount,
            confirmed,
            changed,
            ids.drop_last(),
            k,
        );
    }
}

proof fn lemma_nothing_seen(
    style: PathStyle,
    existing: Seq<Seq<char>>,
    roots: Seq<Seq<char>>,
    destination: Seq<char>,
    backing: Seq<char>,
    a: int,
)
    requires
        reconcile::seen_fault(style, existing, roots, destination, backing) is None,
        0 <= a < roots.len(),
    ensures
        ({
            let place = paths::joined(style, roots[a], destination);
            paths::same(style, place, backing) || !existing.contains(place)
        }),
    decreases roots.len(),
{
    if a < roots.len() - 1 {
        assert(roots.drop_last()[a] == roots[a]);
        lemma_nothing_seen(style, existing, roots.drop_last(), destination, backing, a);
    }
}

proof fn lemma_no_mutation(
    style: PathStyle,
    mutations: Seq<crate::model::VirtualMutationRecord>,
    path: Seq<char>,
    m: int,
)
    requires
        undo::mutation_at(style, mutations, path) is None,
        0 <= m < mutations.len(),
    ensures
        !paths::same(style, mutations[m].projected_path@, path),
    decreases mutations.len(),
{
    if m > 0 {
        assert(mutations.skip(1)[m - 1] == mutations[m]);
        lemma_no_mutation(style, mutations.skip(1), path, m - 1);
    }
}

/// Whether a place below a mount is free for what comes back to it: no pending change has it, no
/// file is at it, in the mount or where it is seen, and no other page has its directory.
pub open spec fn is_free_for(
    style: PathStyle,
    context: UndoContext,
    mount: MountConfig,
    id: Seq<char>,
    to: Seq<char>,
) -> bool {
    let place = file_place(style, mount, context, to);
    &&& forall|m: int|
        0 <= m < context.store.mutations@.len() ==> !paths::same(
            style,
            (#[trigger] context.store.mutations@[m]).projected_path@,
            to,
        )
    &&& forall|x: int|
        0 <= x < context.existing@.len() ==> (#[trigger] context.existing@[x])@ != place
    &&& !(mount.projection is PlainFiles) ==> context.content_root is Some && forall|a: int|
        0 <= a < mount.access_roots@.len() ==> {
            let seen = paths::joined(style, (#[trigger] mount.access_roots@[a])@, to);
            paths::same(style, seen, place) || forall|x: int|
                0 <= x < context.existing@.len() ==> (#[trigger] context.existing@[x])@ != seen
        }
    &&& paths::last_name(paths::components(style, to)) == Some("page.md"@) ==> forall|i: int|
        0 <= i < context.store.entities@.len() ==> {
            let e = #[trigger] context.store.entities@[i];
            e.record.remote_id@ == id || !(e.record.kind is Page) || paths::components(
                style,
                e.container@,
            ) != paths::components(style, to).drop_last()
        }
}

/// What an undo brings back goes only to a place that is free, unless it is there already.
pub proof fn law_undo_overwrites_nothing_else(
    style: PathStyle,
    context: UndoContext,
    mount: MountConfig,
    entry: JournalEntry,
    plan: UndoPlan,
    changed: Seq<Seq<char>>,
    observations: Seq<RemoteObservation>,
    done: Reconciliation,
    k: int,
    to: Seq<char>,
)
    requires
        reconcile::reconciliation_result(
            style,
            context,
            entry,
            plan,
            changed,
            observations,
            Ok(done),
        ),
        context.mount == Some(mount),
        0 <= k < entry.preimages@.len(),
        changed.contains(entry.preimages@[k].entity_id@),
        ({
            let confirmed = undo::verdicts(
                style,
                context.store.entities@,
                entry,
                plan.operations@,
                changed,
                observations,
            )->Ok_0;
            reconcile::confirmation_for(confirmed, entry.preimages@[k].entity_id@) matches Some(c)
                && c.path == to
        }),
    ensures
        is_free_for(style, context, mount, entry.preimages@[k].entity_id@, to) || exists|i: int|
            #[trigger]
            undo_safety::is_first_entity(
                context.store.entities@,
                i,
                entry.preimages@[k].entity_id@,
            ) && paths::same(style, context.store.entities@[i].record.path@, to),
{
    let id = entry.preimages@[k].entity_id@;
    let ids = undo::preimage_entities(entry.preimages@);
    let confirmed = undo::verdicts(
        style,
        context.store.entities@,
        entry,
        plan.operations@,
        changed,
        observations,
    )->Ok_0;
    assert(changed.len() > 0);
    assert(ids[k] == id);
    lemma_no_place_fault(style, context, mount, confirmed, changed, ids, k);
    undo_safety::lemma_first_entity(context.store.entities@, id);
    let existing = undo::entity_named(context.store.entities@, id);
    if !(existing matches Some(e) && paths::same(style, e.record.path@, to)) {
        let files = text::texts(context.existing@);
        let place = file_place(style, mount, context, to);
        assert forall|m: int| 0 <= m < context.store.mutations@.len() implies !paths::same(
            style,
            (#[trigger] context.store.mutations@[m]).projected_path@,
            to,
        ) by {
            lemma_no_mutation(style, context.store.mutations@, to, m);
        }
        assert(undo::write_path(style, mount, context.content_root, to) == Some(place));
        assert(!files.contains(place));
        assert forall|x: int| 0 <= x < context.existing@.len() implies (
        #[trigger] context.existing@[x])@ != place by {
            assert(files[x] == context.existing@[x]@);
        }
        if !(mount.projection is PlainFiles) {
            let roots = text::texts(mount.access_roots@);
            assert forall|a: int| 0 <= a < mount.access_roots@.len() implies ({
                let seen = paths::joined(style, (#[trigger] mount.access_roots@[a])@, to);
                paths::same(style, seen, place) || forall|x: int|
                    0 <= x < context.existing@.len() ==> (#[trigger] context.existing@[x])@ != seen
            }) by {
                assert(roots[a] == mount.access_roots@[a]@);
                lemma_nothing_seen(style, files, roots, to, place, a);
                let seen = paths::joined(style, roots[a], to);
                if !paths::same(style, seen, place) {
                    assert forall|x: int| 0 <= x < context.existing@.len() implies (
                    #[trigger] context.existing@[x])@ != seen by {
                        assert(files[x] == context.existing@[x]@);
                    }
                }
            }
        }
    }
}

/// The folders of a mount on macOS that catch up are those that were named, and what was used last.
pub proof fn law_what_was_used_last_catches_up(identifiers: Seq<Seq<char>>, id: Seq<char>)
    ensures
        reconcile::signalled(identifiers).contains(id) <==> identifiers.contains(id) || id
            == "working-set"@,
{
    let all = identifiers.push("working-set"@);
    sorting::law_text_set(all);
    if identifiers.contains(id) {
        let i = choose|i: int| 0 <= i < identifiers.len() && identifiers[i] == id;
        assert(all[i] == id);
    }
    if id == "working-set"@ {
        assert(all[identifiers.len() as int] == id);
    }
    if all.contains(id) {
        let i = choose|i: int| 0 <= i < all.len() && all[i] == id;
        if i < identifiers.len() {
            assert(identifiers[i] == id);
        }
    }
}

} // verus!
