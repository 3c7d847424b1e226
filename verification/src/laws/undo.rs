//! What an undo promises: what it writes, saves and removes is what was there
//! before the push, and nothing else.
use crate::history::{JournalEntry, JournalPreimage, UndoOperation, UndoPlan};
use crate::model::{HydrationState, MountConfig, ProjectionMode};
use crate::paths;
use crate::paths::PathStyle;
use crate::quoting;
use crate::reconcile;
use crate::reconcile::{Ground, Progress, ReconcileStep, Reconciliation, StepView};
use crate::text;
use crate::undo;
use crate::undo::{RemoteObservation, UndoContext};
use vstd::prelude::*;

verus! {

/// Where the file of a relative path is: below the mount, or below the content
/// root where the mount has a virtual filesystem.
pub open spec fn file_place(
    style: PathStyle,
    mount: MountConfig,
    context: UndoContext,
    relative: Seq<char>,
) -> Seq<char> {
    match (mount.projection, context.content_root) {
        (ProjectionMode::PlainFiles, _) => paths::joined(style, mount.root@, relative),
        (_, Some(root)) => paths::joined(style, root@, relative),
        (_, None) => relative,
    }
}

/// Whether the steps from `i` on bring an entity back to a preimage: its document
/// is written, then its shadow is saved, and then its index entry. The document
/// is the one that the shadow stands for; a frontmatter is made up only where the
/// shadow has a blank one.
pub open spec fn restores(
    style: PathStyle,
    mount: MountConfig,
    context: UndoContext,
    preimage: JournalPreimage,
    steps: Seq<StepView>,
    i: int,
    j: int,
) -> bool {
    &&& 0 <= i < j
    &&& j + 1 < steps.len()
    &&& steps[j] == (StepView::SaveShadow { shadow: preimage.shadow })
    &&& match (steps[i], steps[j + 1]) {
        (
            StepView::WriteDocument { path, frontmatter, body },
            StepView::SaveEntity { record },
        ) => {
            &&& body == preimage.shadow.rendered_body@
            &&& text::trimmed(preimage.shadow.frontmatter@).len() > 0 ==> frontmatter
                == preimage.shadow.frontmatter@
            &&& text::trimmed(preimage.shadow.frontmatter@).len() == 0 ==> frontmatter
                == "loc:\n  id: "@ + preimage.entity_id@ + "\n  type: page\n"@ + (
            match record.remote_edited_at {
                Some(at) => "  remote_edited_at: "@ + at + "\n"@,
                None => Seq::empty(),
            }) + ("title: "@ + quoting::double_quoted(
                quoting::SafeSet::YamlScalar,
                quoting::Expansion::Quotes,
                record.title,
            ) + "\n"@)
            &&& record.remote_id == preimage.entity_id@
            &&& record.content_hash == Some(preimage.shadow.body_hash@)
            &&& record.hydration is Hydrated
            &&& path == file_place(style, mount, context, record.path)
        },
        _ => false,
    }
}

/// Whether an entity was at a path before step `i`: the index has it there, or an
/// earlier step put it there.
pub open spec fn was_at(
    context: UndoContext,
    steps: Seq<StepView>,
    i: int,
    id: Seq<char>,
    path: Seq<char>,
) -> bool {
    ||| undo::entity_named(context.store.entities@, id) matches Some(e) && e.record.path@ == path
    ||| exists|m: int|
        0 <= m < i && m < steps.len() && (#[trigger] steps[m] matches StepView::SaveEntity {
            record,
        } && record.remote_id == id && record.path == path)
}

/// Whether a step belongs to what the undo brings back or takes away.
spec fn belongs(
    style: PathStyle,
    g: Ground,
    preimages: Seq<JournalPreimage>,
    changed: Seq<Seq<char>>,
    steps: Seq<StepView>,
    i: int,
) -> bool {
    match steps[i] {
        StepView::WriteDocument { .. } => exists|j: int, k: int|
            #[trigger] restores_changed(style, g, preimages, changed, steps, i, j, k),
        StepView::SaveShadow { .. } => exists|w: int, k: int|
            #[trigger] restores_changed(style, g, preimages, changed, steps, w, i, k),
        StepView::SaveEntity { .. } => exists|w: int, k: int|
            #[trigger] restores_changed(style, g, preimages, changed, steps, w, i - 1, k),
        StepView::RemoveFile { path, must_exist: false } => exists|j: int, k: int, from: Seq<char>|
            #[trigger] leaves(style, g, preimages, changed, steps, i, j, k, from),
        StepView::RemoveFile { path, must_exist: true } => exists|id: Seq<char>, at: Seq<char>|
            #[trigger] archives(g, id) && path == file_place(style, g.mount, g.context, at)
                && #[trigger] was_at(g.context, steps, i, id, at),
        StepView::DeleteEntity { entity_id } => archives(g, entity_id),
        StepView::RememberContainers { entity_id } => changed.contains(entity_id) || archives(
            g,
            entity_id,
        ),
        _ => true,
    }
}

/// Whether the plan archives a created entity.
pub open spec fn archives(g: Ground, id: Seq<char>) -> bool {
    undo::archived_creations(g.operations).contains(id)
}

spec fn restores_changed(
    style: PathStyle,
    g: Ground,
    preimages: Seq<JournalPreimage>,
    changed: Seq<Seq<char>>,
    steps: Seq<StepView>,
    i: int,
    j: int,
    k: int,
) -> bool {
    &&& 0 <= k < preimages.len()
    &&& changed.contains(preimages[k].entity_id@)
    &&& restores(style, g.mount, g.context, preimages[k], steps, i, j)
}

spec fn leaves(
    style: PathStyle,
    g: Ground,
    preimages: Seq<JournalPreimage>,
    changed: Seq<Seq<char>>,
    steps: Seq<StepView>,
    i: int,
    j: int,
    k: int,
    from: Seq<char>,
) -> bool {
    &&& i < j
    &&& restores_changed(style, g, preimages, changed, steps, i - 1, j, k)
    &&& steps[i] == (StepView::RemoveFile {
        path: file_place(style, g.mount, g.context, from),
        must_exist: false,
    })
    &&& was_at(g.context, steps, i, preimages[k].entity_id@, from)
    &&& (steps[j + 1] matches StepView::SaveEntity { record } && !paths::same(
        style,
        from,
        record.path,
    ))
}

spec fn all_belong(
    style: PathStyle,
    g: Ground,
    preimages: Seq<JournalPreimage>,
    changed: Seq<Seq<char>>,
    steps: Seq<StepView>,
) -> bool {
    forall|i: int|
        0 <= i < steps.len() ==> #[trigger] belongs(style, g, preimages, changed, steps, i)
}

/// Whether what is remembered of saved entities is what the steps save.
spec fn remembers(p: Progress) -> bool {
    forall|e: int|
        0 <= e < p.entities.len() ==> match (#[trigger] p.entities[e]).1 {
            Some(r) => r.remote_id == p.entities[e].0 && exists|m: int|
                0 <= m < p.steps.len() && #[trigger] p.steps[m] == (StepView::SaveEntity {
                    record: r,
                }),
            None => true,
        }
}

proof fn lemma_belongs_extended(
    style: PathStyle,
    g: Ground,
    preimages: Seq<JournalPreimage>,
    changed: Seq<Seq<char>>,
    steps: Seq<StepView>,
    more: Seq<StepView>,
    i: int,
)
    requires
        0 <= i < steps.len(),
        steps.len() <= more.len(),
        more.take(steps.len() as int) == steps,
        belongs(style, g, preimages, changed, steps, i),
    ensures
        belongs(style, g, preimages, changed, more, i),
{
    assert(forall|m: int| 0 <= m < steps.len() ==> more[m] == #[trigger] steps[m]) by {
        assert forall|m: int| 0 <= m < steps.len() implies more[m] == #[trigger] steps[m] by {
            assert(more.take(steps.len() as int)[m] == more[m]);
        }
    }
    assert(more[i] == steps[i]);
    match steps[i] {
        StepView::WriteDocument { .. } => {
            let (j, k) = choose|j: int, k: int|
                #[trigger] restores_changed(style, g, preimages, changed, steps, i, j, k);
            assert(restores_changed(style, g, preimages, changed, more, i, j, k));
        },
        StepView::SaveShadow { .. } => {
            let (w, k) = choose|w: int, k: int|
                #[trigger] restores_changed(style, g, preimages, changed, steps, w, i, k);
            assert(restores_changed(style, g, preimages, changed, more, w, i, k));
        },
        StepView::SaveEntity { .. } => {
            let (w, k) = choose|w: int, k: int|
                #[trigger] restores_changed(style, g, preimages, changed, steps, w, i - 1, k);
            assert(restores_changed(style, g, preimages, changed, more, w, i - 1, k));
        },
        StepView::RemoveFile { path, must_exist: false } => {
            let (j, k, from) = choose|j: int, k: int, from: Seq<char>|
                #[trigger] leaves(style, g, preimages, changed, steps, i, j, k, from);
            lemma_was_at_extended(g.context, steps, more, i, preimages[k].entity_id@, from);
            assert(restores_changed(style, g, preimages, changed, more, i - 1, j, k));
            assert(leaves(style, g, preimages, changed, more, i, j, k, from));
        },
        StepView::RemoveFile { path, must_exist: true } => {
            let (id, at) = choose|id: Seq<char>, at: Seq<char>|
                #[trigger] archives(g, id) && path == file_place(style, g.mount, g.context, at)
                    && #[trigger] was_at(g.context, steps, i, id, at);
            lemma_was_at_extended(g.context, steps, more, i, id, at);
            assert(archives(g, id));
            assert(was_at(g.context, more, i, id, at));
        },
        _ => {},
    }
}

proof fn lemma_was_at_extended(
    context: UndoContext,
    steps: Seq<StepView>,
    more: Seq<StepView>,
    i: int,
    id: Seq<char>,
    path: Seq<char>,
)
    requires
        i <= steps.len(),
        steps.len() <= more.len(),
        forall|m: int| 0 <= m < steps.len() ==> more[m] == #[trigger] steps[m],
        was_at(context, steps, i, id, path),
    ensures
        was_at(context, more, i, id, path),
{
    if !(undo::entity_named(context.store.entities@, id) matches Some(e) && e.record.path@
        == path) {
        let m = choose|m: int|
            0 <= m < i && m < steps.len() && (#[trigger] steps[m] matches StepView::SaveEntity {
                record,
            } && record.remote_id == id && record.path == path);
        assert(more[m] == steps[m]);
    }
}

proof fn lemma_entity_named(entities: Seq<undo::IndexedEntity>, id: Seq<char>)
    ensures
        undo::entity_named(entities, id) matches Some(e) ==> e.record.remote_id@ == id,
    decreases entities.len(),
{
    if entities.len() > 0 {
        lemma_entity_named(entities.drop_last(), id);
    }
}

/// What is known of the entity as the steps so far leave it.
proof fn lemma_entity_now(
    context: UndoContext,
    p: Progress,
    n: int,
    id: Seq<char>,
)
    requires
        remembers(p),
        0 <= n <= p.entities.len(),
    ensures
        reconcile::entity_now(context.store.entities@, p.entities.take(n), id) matches Some(e)
            ==> e.remote_id == id && was_at(context, p.steps, p.steps.len() as int, id, e.path),
    decreases n,
{
    let saved = p.entities.take(n);
    if n == 0 {
        lemma_entity_named(context.store.entities@, id);
    } else {
        assert(saved.last() == p.entities[n - 1]);
        assert(saved.drop_last() =~= p.entities.take(n - 1));
        if saved.last().0 == id {
            if let Some(r) = saved.last().1 {
                let m = choose|m: int|
                    0 <= m < p.steps.len() && #[trigger] p.steps[m] == (StepView::SaveEntity {
                        record: r,
                    });
                assert(p.steps[m] matches StepView::SaveEntity { record } && record.remote_id == id
                    && record.path == r.path);
            }
        } else {
            lemma_entity_now(context, p, n - 1, id);
        }
    }
}

/// What stands where, once an entity is brought back: nothing, where the entity
/// is not known or the reconciliation stops, or else its document at `w` and its
/// shadow at `j`.
struct Shape {
    w: int,
    j: int,
    moved: bool,
    record: reconcile::EntityView,
}

spec fn known(g: Ground, p: Progress, id: Seq<char>) -> Option<reconcile::EntityView> {
    reconcile::entity_now(g.context.store.entities@, p.entities, id)
}

proof fn lemma_shape(style: PathStyle, g: Ground, p: Progress, preimage: JournalPreimage) -> (r:
    Option<Shape>)
    requires
        p.stop is None,
        known(g, p, preimage.entity_id@) matches Some(e) ==> e.remote_id == preimage.entity_id@,
    ensures
        ({
            let after = reconcile::preimage_restored(style, g, p, preimage);
            let n = p.steps.len() as int;
            let existing = known(g, p, preimage.entity_id@);
            &&& n <= after.steps.len()
            &&& after.steps.take(n) == p.steps
            &&& r is None ==> {
                &&& after.entities == p.entities
                &&& after.steps.len() <= n + 1
                &&& forall|i: int|
                    n <= i < after.steps.len() ==> #[trigger] after.steps[i] == (
                    StepView::RememberContainers { entity_id: preimage.entity_id@ })
                &&& after.stop is None ==> existing is None && !undo::restores_archived(
                    g.operations,
                    preimage.entity_id@,
                )
            }
            &&& r matches Some(s) ==> {
                &&& n <= s.w <= n + 1
                &&& s.w + 1 <= s.j <= s.w + 3
                &&& s.moved ==> s.w + 2 <= s.j
                &&& after.stop is None
                &&& s.w == n + 1 ==> after.steps[n] == (StepView::RememberContainers {
                    entity_id: preimage.entity_id@,
                })
                &&& restores(style, g.mount, g.context, preimage, after.steps, s.w, s.j)
                &&& after.steps[s.j + 1] == (StepView::SaveEntity { record: s.record })
                &&& after.entities == p.entities.push((preimage.entity_id@, Some(s.record)))
                &&& s.record.remote_id == preimage.entity_id@
                &&& s.moved ==> existing is Some && after.steps[s.w + 1] == (StepView::RemoveFile {
                    path: file_place(style, g.mount, g.context, existing->0.path),
                    must_exist: false,
                }) && !paths::same(style, existing->0.path, s.record.path)
                &&& forall|i: int|
                    s.w + (if s.moved {
                        2int
                    } else {
                        1
                    }) <= i < s.j ==> (#[trigger] after.steps[i]) is RemoveEmptyDirectory
                &&& forall|i: int|
                    s.j + 2 <= i < after.steps.len() ==> (#[trigger] after.steps[i]) is Refresh
            }
        }),
{
    let id = preimage.entity_id@;
    let after = reconcile::preimage_restored(style, g, p, preimage);
    let existing = known(g, p, id);
    let n = p.steps.len() as int;
    let virtual_fs = g.mount.projection != ProjectionMode::PlainFiles;
    let confirmation = reconcile::confirmation_for(g.confirmed, id);
    let shadow = reconcile::shadow_now(g.context.store.shadows@, p.shadows, id);
    assert(after.steps.take(n) =~= p.steps);
    let before = match existing {
        Some(e) => e,
        None => reconcile::restored_entity(
            g.mount_id,
            id,
            g.observations[confirmation->0.observation],
            confirmation->0.path,
        ),
    };
    let to = match confirmation {
        Some(c) => reconcile::observed_entity(before, g.observations[c.observation], c.path),
        None => before,
    };
    let place = undo::write_path(style, g.mount, g.context.content_root, to.path);
    if (existing is Some && shadow is None) || (existing is None && (!undo::restores_archived(
        g.operations,
        id,
    ) || confirmation is None)) || place is None {
        None
    } else {
        let moved = existing is Some && !paths::same(style, existing->0.path, to.path);
        assert(place->0 == file_place(style, g.mount, g.context, to.path));
        let record = reconcile::EntityView {
            hydration: HydrationState::Hydrated,
            content_hash: Some(preimage.shadow.body_hash@),
            ..to
        };
        let old = undo::write_path(style, g.mount, g.context.content_root, existing->0.path);
        assert(old is Some);
        let removes = moved && paths::parent_of(style, old->0) is Some && !virtual_fs
            && paths::components(style, existing->0.path).len() >= 2 && reconcile::is_page_document(
            style,
            existing->0.path,
        );
        let w = n + (if existing is Some && virtual_fs {
            1int
        } else {
            0
        });
        let j = w + 1 + (if moved {
            1int
        } else {
            0
        }) + (if removes {
            1int
        } else {
            0
        });
        assert(after.stop is None);
        assert(after.steps[w] == (StepView::WriteDocument {
            path: place->0,
            frontmatter: reconcile::document_frontmatter(preimage, to),
            body: preimage.shadow.rendered_body@,
        }));
        assert(after.steps[j] == (StepView::SaveShadow { shadow: preimage.shadow }));
        assert(after.steps[j + 1] == (StepView::SaveEntity { record }));
        Some(Shape { w, j, moved, record })
    }
}

/// Bringing one entity back keeps what holds of the steps, and saves its shadow
/// unless it stops or the entity is not known.
proof fn lemma_preimage_belongs(
    style: PathStyle,
    g: Ground,
    preimages: Seq<JournalPreimage>,
    changed: Seq<Seq<char>>,
    p: Progress,
    k: int,
)
    requires
        p.stop is None,
        all_belong(style, g, preimages, changed, p.steps),
        remembers(p),
        0 <= k < preimages.len(),
        changed.contains(preimages[k].entity_id@),
    ensures
        ({
            let after = reconcile::preimage_restored(style, g, p, preimages[k]);
            let existing = known(g, p, preimages[k].entity_id@);
            &&& all_belong(style, g, preimages, changed, after.steps)
            &&& remembers(after)
            &&& p.steps.len() <= after.steps.len()
            &&& after.steps.take(p.steps.len() as int) == p.steps
            &&& after.stop is None && (existing is Some || undo::restores_archived(
                g.operations,
                preimages[k].entity_id@,
            )) ==> exists|i: int, j: int| #[trigger]
                restores(style, g.mount, g.context, preimages[k], after.steps, i, j)
            &&& after.entities == p.entities || (after.entities.len() == p.entities.len() + 1
                && after.entities.last().1 is Some && after.entities.drop_last() == p.entities)
        }),
{
    let preimage = preimages[k];
    let id = preimage.entity_id@;
    let after = reconcile::preimage_restored(style, g, p, preimage);
    let n = p.steps.len() as int;
    assert(p.entities.take(p.entities.len() as int) =~= p.entities);
    lemma_entity_now(g.context, p, p.entities.len() as int, id);
    let shape = lemma_shape(style, g, p, preimage);
    assert(forall|m: int| 0 <= m < n ==> after.steps[m] == #[trigger] p.steps[m]) by {
        assert forall|m: int| 0 <= m < n implies after.steps[m] == #[trigger] p.steps[m] by {
            assert(after.steps.take(n)[m] == after.steps[m]);
        }
    }
    assert forall|i: int| 0 <= i < n implies #[trigger] belongs(
        style,
        g,
        preimages,
        changed,
        after.steps,
        i,
    ) by {
        lemma_belongs_extended(style, g, preimages, changed, p.steps, after.steps, i);
    }
    assert forall|e: int| 0 <= e < after.entities.len() implies match (
    #[trigger] after.entities[e]).1 {
        Some(r) => r.remote_id == after.entities[e].0 && exists|m: int|
            0 <= m < after.steps.len() && #[trigger] after.steps[m] == (StepView::SaveEntity {
                record: r,
            }),
        None => true,
    } by {
        if e < p.entities.len() {
            assert(after.entities[e] == p.entities[e]);
            if let Some(r) = p.entities[e].1 {
                let m = choose|m: int|
                    0 <= m < p.steps.len() && #[trigger] p.steps[m] == (StepView::SaveEntity {
                        record: r,
                    });
                assert(after.steps[m] == p.steps[m]);
            }
        } else {
            assert(after.steps[shape->0.j + 1] == (StepView::SaveEntity {
                record: shape->0.record,
            }));
        }
    }
    if let Some(s) = shape {
        assert(restores_changed(style, g, preimages, changed, after.steps, s.w, s.j, k));
        assert(after.entities.drop_last() =~= p.entities);
        assert forall|i: int| n <= i < after.steps.len() implies #[trigger] belongs(
            style,
            g,
            preimages,
            changed,
            after.steps,
            i,
        ) by {
            if i == s.j {
                assert(restores_changed(style, g, preimages, changed, after.steps, s.w, i, k));
            } else if i == s.j + 1 {
                assert(restores_changed(style, g, preimages, changed, after.steps, s.w, i - 1, k));
            } else if i == s.w + 1 && s.moved {
                let from = known(g, p, id)->0.path;
                if !(undo::entity_named(g.context.store.entities@, id) matches Some(e)
                    && e.record.path@ == from) {
                    let m = choose|m: int|
                        0 <= m < n && m < p.steps.len() && (#[trigger] p.steps[m] matches
                            StepView::SaveEntity { record } && record.remote_id == id && record.path
                            == from);
                    assert(after.steps[m] == p.steps[m]);
                }
                assert(was_at(g.context, after.steps, i, id, from));
                assert(restores_changed(style, g, preimages, changed, after.steps, i - 1, s.j, k));
                assert(leaves(style, g, preimages, changed, after.steps, i, s.j, k, from));
            } else if i == s.w {
            } else if i < s.w {
                assert(i == n);
            } else if i < s.j {
                assert(after.steps[i] is RemoveEmptyDirectory);
            } else {
                assert(after.steps[i] is Refresh);
            }
        }
    }
}

/// Taking one created entity away keeps what holds of the steps, and forgets it
/// unless it stops.
proof fn lemma_creation_belongs(
    style: PathStyle,
    g: Ground,
    preimages: Seq<JournalPreimage>,
    changed: Seq<Seq<char>>,
    p: Progress,
    id: Seq<char>,
)
    requires
        p.stop is None,
        all_belong(style, g, preimages, changed, p.steps),
        remembers(p),
        archives(g, id),
    ensures
        ({
            let after = reconcile::creation_archived(style, g, p, id);
            &&& all_belong(style, g, preimages, changed, after.steps)
            &&& remembers(after)
            &&& p.steps.len() <= after.steps.len()
            &&& after.steps.take(p.steps.len() as int) == p.steps
            &&& after.stop is None ==> exists|m: int|
                0 <= m < after.steps.len() && #[trigger] after.steps[m] == (
                StepView::DeleteEntity { entity_id: id })
        }),
{
    let after = reconcile::creation_archived(style, g, p, id);
    let n = p.steps.len() as int;
    let existing = known(g, p, id);
    assert(p.entities.take(p.entities.len() as int) =~= p.entities);
    lemma_entity_now(g.context, p, p.entities.len() as int, id);
    assert(after.steps.take(n) =~= p.steps);
    assert(forall|m: int| 0 <= m < n ==> after.steps[m] == #[trigger] p.steps[m]) by {
        assert forall|m: int| 0 <= m < n implies after.steps[m] == #[trigger] p.steps[m] by {
            assert(after.steps.take(n)[m] == after.steps[m]);
        }
    }
    assert forall|i: int| 0 <= i < n implies #[trigger] belongs(
        style,
        g,
        preimages,
        changed,
        after.steps,
        i,
    ) by {
        lemma_belongs_extended(style, g, preimages, changed, p.steps, after.steps, i);
    }
    assert forall|e: int| 0 <= e < after.entities.len() implies match (
    #[trigger] after.entities[e]).1 {
        Some(r) => r.remote_id == after.entities[e].0 && exists|m: int|
            0 <= m < after.steps.len() && #[trigger] after.steps[m] == (StepView::SaveEntity {
                record: r,
            }),
        None => true,
    } by {
        if e < p.entities.len() {
            assert(after.entities[e] == p.entities[e]);
            if let Some(r) = p.entities[e].1 {
                let m = choose|m: int|
                    0 <= m < p.steps.len() && #[trigger] p.steps[m] == (StepView::SaveEntity {
                        record: r,
                    });
                assert(after.steps[m] == p.steps[m]);
            }
        }
    }
    let w = n + (if g.mount.projection != ProjectionMode::PlainFiles {
        1int
    } else {
        0
    });
    if after.steps.len() > w {
        let e = existing->0;
        let place = undo::write_path(style, g.mount, g.context.content_root, e.path);
        assert(place->0 == file_place(style, g.mount, g.context, e.path));
        assert(after.steps[w] == (StepView::RemoveFile { path: place->0, must_exist: true }));
        let removes = paths::parent_of(style, place->0) is Some && reconcile::is_page_document(
            style,
            place->0,
        );
        let d = w + 1 + (if removes {
            1int
        } else {
            0
        });
        assert(after.steps[d] == (StepView::DeleteEntity { entity_id: id }));
        assert forall|i: int| n <= i < after.steps.len() implies #[trigger] belongs(
            style,
            g,
            preimages,
            changed,
            after.steps,
            i,
        ) by {
            if i == w {
                let at = e.path;
                if !(undo::entity_named(g.context.store.entities@, id) matches Some(x)
                    && x.record.path@ == at) {
                    let m = choose|m: int|
                        0 <= m < n && m < p.steps.len() && (#[trigger] p.steps[m] matches
                            StepView::SaveEntity { record } && record.remote_id == id && record.path
                            == at);
                    assert(after.steps[m] == p.steps[m]);
                }
                assert(was_at(g.context, after.steps, i, id, at));
                assert(archives(g, id));
            }
        }
    }
}

/// Whether each of the first preimages that changed, and is known or comes back,
/// is brought back by the steps.
spec fn all_restored(
    style: PathStyle,
    g: Ground,
    preimages: Seq<JournalPreimage>,
    changed: Seq<Seq<char>>,
    steps: Seq<StepView>,
    n: int,
) -> bool {
    forall|k: int|
        0 <= k < n && changed.contains((#[trigger] preimages[k]).entity_id@) && (
        undo::entity_named(g.context.store.entities@, preimages[k].entity_id@) is Some
            || undo::restores_archived(g.operations, preimages[k].entity_id@)) ==> exists|
            i: int,
            j: int,
        | #[trigger]
            restores(style, g.mount, g.context, preimages[k], steps, i, j)
}

proof fn lemma_restored_extended(
    style: PathStyle,
    g: Ground,
    preimages: Seq<JournalPreimage>,
    changed: Seq<Seq<char>>,
    steps: Seq<StepView>,
    more: Seq<StepView>,
    n: int,
)
    requires
        0 <= n <= preimages.len(),
        steps.len() <= more.len(),
        more.take(steps.len() as int) == steps,
        all_restored(style, g, preimages, changed, steps, n),
    ensures
        all_restored(style, g, preimages, changed, more, n),
{
    assert forall|m: int| 0 <= m < steps.len() implies more[m] == #[trigger] steps[m] by {
        assert(more.take(steps.len() as int)[m] == more[m]);
    }
    assert forall|k: int|
        0 <= k < n && changed.contains((#[trigger] preimages[k]).entity_id@) && (
        undo::entity_named(g.context.store.entities@, preimages[k].entity_id@) is Some
            || undo::restores_archived(g.operations, preimages[k].entity_id@)) implies exists|
            i: int,
            j: int,
        | #[trigger]
            restores(style, g.mount, g.context, preimages[k], more, i, j) by {
        let (i, j) = choose|i: int, j: int| #[trigger]
            restores(style, g.mount, g.context, preimages[k], steps, i, j);
        assert(restores(style, g.mount, g.context, preimages[k], more, i, j));
    }
}

proof fn lemma_still_known(g: Ground, p: Progress, n: int, id: Seq<char>)
    requires
        0 <= n <= p.entities.len(),
        forall|e: int| 0 <= e < p.entities.len() ==> (#[trigger] p.entities[e]).1 is Some,
        undo::entity_named(g.context.store.entities@, id) is Some,
    ensures
        reconcile::entity_now(g.context.store.entities@, p.entities.take(n), id) is Some,
    decreases n,
{
    if n > 0 {
        let saved = p.entities.take(n);
        assert(saved.last() == p.entities[n - 1]);
        assert(saved.drop_last() =~= p.entities.take(n - 1));
        lemma_still_known(g, p, n - 1, id);
    }
}

proof fn lemma_preimages_belong(
    style: PathStyle,
    g: Ground,
    preimages: Seq<JournalPreimage>,
    changed: Seq<Seq<char>>,
    n: int,
)
    requires
        0 <= n <= preimages.len(),
    ensures
        ({
            let p = reconcile::preimages_restored(
                style,
                g,
                reconcile::no_progress(),
                preimages.take(n),
                changed,
            );
            &&& all_belong(style, g, preimages, changed, p.steps)
            &&& remembers(p)
            &&& forall|e: int| 0 <= e < p.entities.len() ==> (#[trigger] p.entities[e]).1 is Some
            &&& p.stop is None ==> all_restored(style, g, preimages, changed, p.steps, n)
        }),
    decreases n,
{
    if n > 0 {
        let now = preimages.take(n);
        assert(now.drop_last() =~= preimages.take(n - 1));
        assert(now.last() == preimages[n - 1]);
        lemma_preimages_belong(style, g, preimages, changed, n - 1);
        let p = reconcile::preimages_restored(
            style,
            g,
            reconcile::no_progress(),
            preimages.take(n - 1),
            changed,
        );
        let after = reconcile::preimages_restored(
            style,
            g,
            reconcile::no_progress(),
            now,
            changed,
        );
        let id = preimages[n - 1].entity_id@;
        if p.stop is None && changed.contains(id) {
            lemma_preimage_belongs(style, g, preimages, changed, p, n - 1);
            if after.stop is None {
                lemma_restored_extended(
                    style,
                    g,
                    preimages,
                    changed,
                    p.steps,
                    after.steps,
                    n - 1,
                );
                if undo::entity_named(g.context.store.entities@, id) is Some {
                    assert(p.entities.take(p.entities.len() as int) =~= p.entities);
                    lemma_still_known(g, p, p.entities.len() as int, id);
                }
            }
            assert forall|e: int| 0 <= e < after.entities.len() implies (
            #[trigger] after.entities[e]).1 is Some by {
                if e < p.entities.len() {
                    assert(after.entities.take(p.entities.len() as int) =~= p.entities);
                    assert(after.entities[e] == p.entities[e]);
                }
            }
        }
    }
}

proof fn lemma_creations_belong(
    style: PathStyle,
    g: Ground,
    preimages: Seq<JournalPreimage>,
    changed: Seq<Seq<char>>,
    p: Progress,
    n: int,
)
    requires
        p.stop is None,
        all_belong(style, g, preimages, changed, p.steps),
        remembers(p),
        0 <= n <= undo::archived_creations(g.operations).len(),
    ensures
        ({
            let ids = undo::archived_creations(g.operations);
            let after = reconcile::creations_archived(style, g, p, ids.take(n));
            &&& all_belong(style, g, preimages, changed, after.steps)
            &&& remembers(after)
            &&& p.steps.len() <= after.steps.len()
            &&& after.steps.take(p.steps.len() as int) == p.steps
            &&& after.stop is None ==> forall|k: int|
                0 <= k < n ==> after.steps.contains(
                    StepView::DeleteEntity { entity_id: #[trigger] ids[k] },
                )
        }),
    decreases n,
{
    let ids = undo::archived_creations(g.operations);
    if n == 0 {
        assert(p.steps.take(p.steps.len() as int) =~= p.steps);
    } else {
        let now = ids.take(n);
        assert(now.drop_last() =~= ids.take(n - 1));
        assert(now.last() == ids[n - 1]);
        lemma_creations_belong(style, g, preimages, changed, p, n - 1);
        let before = reconcile::creations_archived(style, g, p, ids.take(n - 1));
        let after = reconcile::creations_archived(style, g, p, now);
        if before.stop is None {
            assert(archives(g, ids[n - 1]));
            lemma_creation_belongs(style, g, preimages, changed, before, ids[n - 1]);
            assert forall|m: int| 0 <= m < before.steps.len() implies after.steps[m]
                == #[trigger] before.steps[m] by {
                assert(after.steps.take(before.steps.len() as int)[m] == after.steps[m]);
            }
            assert forall|m: int| 0 <= m < p.steps.len() implies before.steps[m]
                == #[trigger] p.steps[m] by {
                assert(before.steps.take(p.steps.len() as int)[m] == before.steps[m]);
            }
            assert(after.steps.take(p.steps.len() as int) =~= p.steps);
            if after.stop is None {
                assert forall|k: int| 0 <= k < n implies after.steps.contains(
                    StepView::DeleteEntity { entity_id: #[trigger] ids[k] },
                ) by {
                    let step = StepView::DeleteEntity { entity_id: ids[k] };
                    if k < n - 1 {
                        let m = choose|m: int|
                            0 <= m < before.steps.len() && before.steps[m] == step;
                        assert(after.steps[m] == before.steps[m]);
                    }
                }
            }
        }
    }
}

/// What holds of all the steps of an undo.
proof fn lemma_reconciled(
    style: PathStyle,
    g: Ground,
    entry: JournalEntry,
    changed: Seq<Seq<char>>,
)
    ensures
        ({
            let p = reconcile::reconciled(style, g, entry, changed);
            let preimages = entry.preimages@;
            let ids = undo::archived_creations(g.operations);
            &&& all_belong(style, g, preimages, changed, p.steps)
            &&& p.stop is None ==> all_restored(
                style,
                g,
                preimages,
                changed,
                p.steps,
                preimages.len() as int,
            )
            &&& p.stop is None ==> forall|k: int|
                0 <= k < ids.len() ==> p.steps.contains(
                    StepView::DeleteEntity { entity_id: #[trigger] ids[k] },
                )
        }),
{
    let preimages = entry.preimages@;
    let n = preimages.len() as int;
    let ids = undo::archived_creations(g.operations);
    assert(preimages.take(n) =~= preimages);
    assert(ids.take(ids.len() as int) =~= ids);
    lemma_preimages_belong(style, g, preimages, changed, n);
    let half = reconcile::preimages_restored(
        style,
        g,
        reconcile::no_progress(),
        preimages,
        changed,
    );
    if half.stop is None {
        lemma_creations_belong(style, g, preimages, changed, half, ids.len() as int);
        let p = reconcile::reconciled(style, g, entry, changed);
        lemma_restored_extended(style, g, preimages, changed, half.steps, p.steps, n);
    }
}

/// What reconciliation goes by, where an undo is reconciled.
spec fn ground_of(
    style: PathStyle,
    context: UndoContext,
    mount: MountConfig,
    entry: JournalEntry,
    plan: UndoPlan,
    changed: Seq<Seq<char>>,
    observations: Seq<RemoteObservation>,
) -> Ground {
    Ground {
        context,
        mount,
        mount_id: entry.mount_id@,
        operations: plan.operations@,
        observations,
        confirmed: undo::verdicts(
            style,
            context.store.entities@,
            entry,
            plan.operations@,
            changed,
            observations,
        )->Ok_0,
    }
}

proof fn lemma_archived_creation(operations: Seq<UndoOperation>, id: Seq<char>)
    ensures
        undo::archived_creations(operations).contains(id) <==> exists|i: int|
            0 <= i < operations.len() && (#[trigger] operations[i] matches
                UndoOperation::ArchiveCreatedEntity { entity_id, .. } && entity_id@ == id),
    decreases operations.len(),
{
    if operations.len() > 0 {
        let front = operations.drop_last();
        let before = undo::archived_creations(front);
        let all = undo::archived_creations(operations);
        lemma_archived_creation(front, id);
        if before.contains(id) {
            let m = choose|m: int| 0 <= m < before.len() && before[m] == id;
            assert(all[m] == id);
        }
        if all.contains(id) {
            let m = choose|m: int| 0 <= m < all.len() && all[m] == id;
            if m < before.len() {
                assert(before[m] == id);
                let i = choose|i: int|
                    0 <= i < front.len() && (#[trigger] front[i] matches
                        UndoOperation::ArchiveCreatedEntity { entity_id, .. } && entity_id@ == id);
                assert(operations[i] == front[i]);
            } else {
                assert(operations[operations.len() - 1] matches
                    UndoOperation::ArchiveCreatedEntity { entity_id, .. } && entity_id@ == id);
            }
        }
        if exists|i: int|
            0 <= i < operations.len() && (#[trigger] operations[i] matches
                UndoOperation::ArchiveCreatedEntity { entity_id, .. } && entity_id@ == id) {
            let i = choose|i: int|
                0 <= i < operations.len() && (#[trigger] operations[i] matches
                    UndoOperation::ArchiveCreatedEntity { entity_id, .. } && entity_id@ == id);
            if i < front.len() {
                assert(front[i] == operations[i]);
            } else {
                assert(all[before.len() as int] == id);
            }
        }
    }
}

/// Every document that an undo writes is the one that a shadow of the journal
/// stands for: it is of an entity that the source reported as changed, has the
/// body of its preimage and, unless that is blank, the frontmatter of its
/// preimage; and the shadow and the index entry that are saved behind it are of
/// that document.
pub proof fn law_undo_writes_what_its_shadows_stand_for(
    style: PathStyle,
    context: UndoContext,
    mount: MountConfig,
    entry: JournalEntry,
    plan: UndoPlan,
    changed: Seq<Seq<char>>,
    observations: Seq<RemoteObservation>,
    done: Reconciliation,
    i: int,
)
    requires
        reconcile::reconciliation_result(
            style,
            context,
            entry,
            plan,
            changed,
            observations,
            Ok(done),
        ),
        context.mount == Some(mount),
        0 <= i < done.steps@.len(),
        done.steps@[i] is WriteDocument,
    ensures
        exists|j: int, k: int|
            #![trigger done.steps@[j], entry.preimages@[k]]
            i < j && j + 1 < done.steps@.len() && 0 <= k < entry.preimages@.len()
                && changed.contains(entry.preimages@[k].entity_id@) && match (
                done.steps@[i],
                done.steps@[j],
                done.steps@[j + 1],
            ) {
                (
                    ReconcileStep::WriteDocument { path, frontmatter, body },
                    ReconcileStep::SaveShadow { shadow },
                    ReconcileStep::SaveEntity { record },
                ) => {
                    &&& shadow == entry.preimages@[k].shadow
                    &&& body@ == shadow.rendered_body@
                    &&& text::trimmed(shadow.frontmatter@).len() > 0 ==> frontmatter@
                        == shadow.frontmatter@
                    &&& text::trimmed(shadow.frontmatter@).len() == 0 ==> frontmatter@
                        == "loc:\n  id: "@ + entry.preimages@[k].entity_id@
                        + "\n  type: page\n"@ + (match record.remote_edited_at {
                        Some(at) => "  remote_edited_at: "@ + at@ + "\n"@,
                        None => Seq::empty(),
                    }) + ("title: "@ + quoting::double_quoted(
                        quoting::SafeSet::YamlScalar,
                        quoting::Expansion::Quotes,
                        record.title@,
                    ) + "\n"@)
                    &&& record.remote_id@ == entry.preimages@[k].entity_id@
                    &&& record.content_hash matches Some(hash) && hash@ == shadow.body_hash@
                    &&& record.hydration is Hydrated
                    &&& path@ == file_place(style, mount, context, record.path@)
                },
                _ => false,
            },
{
    let g = ground_of(style, context, mount, entry, plan, changed, observations);
    let steps = reconcile::step_views(done.steps@);
    lemma_reconciled(style, g, entry, changed);
    assert(steps == reconcile::reconciled(style, g, entry, changed).steps);
    assert(steps[i] == done.steps@[i]@);
    assert(belongs(style, g, entry.preimages@, changed, steps, i));
    let (j, k) = choose|j: int, k: int|
        #[trigger] restores_changed(style, g, entry.preimages@, changed, steps, i, j, k);
    assert(steps[j] == done.steps@[j]@);
    assert(steps[j + 1] == done.steps@[j + 1]@);
    let at = done.steps@[j];
    let of = entry.preimages@[k];
}

/// An undo that goes through brings every entity back that the source reported as
/// changed: each preimage of an entity that is indexed, or that the plan brings
/// back from the archive, has its document written and its shadow and index entry
/// saved.
pub proof fn law_undo_restores_every_changed_entity(
    style: PathStyle,
    context: UndoContext,
    mount: MountConfig,
    entry: JournalEntry,
    plan: UndoPlan,
    changed: Seq<Seq<char>>,
    observations: Seq<RemoteObservation>,
    done: Reconciliation,
    k: int,
)
    requires
        reconcile::reconciliation_result(
            style,
            context,
            entry,
            plan,
            changed,
            observations,
            Ok(done),
        ),
        context.mount == Some(mount),
        done.failure is None,
        0 <= k < entry.preimages@.len(),
        changed.contains(entry.preimages@[k].entity_id@),
        ({
            ||| exists|e: int|
                0 <= e < context.store.entities@.len() && (#[trigger]
                context.store.entities@[e]).record.remote_id@ == entry.preimages@[k].entity_id@
            ||| exists|o: int|
                0 <= o < plan.operations@.len() && (#[trigger] plan.operations@[o] matches
                    UndoOperation::RestoreArchivedEntity { entity_id, .. } && entity_id@
                    == entry.preimages@[k].entity_id@)
        }),
    ensures
        exists|i: int, j: int| #[trigger]
            restores(
                style,
                mount,
                context,
                entry.preimages@[k],
                reconcile::step_views(done.steps@),
                i,
                j,
            ),
{
    let g = ground_of(style, context, mount, entry, plan, changed, observations);
    let id = entry.preimages@[k].entity_id@;
    lemma_reconciled(style, g, entry, changed);
    assert(changed.len() > 0);
    if exists|e: int|
        0 <= e < context.store.entities@.len() && (#[trigger]
        context.store.entities@[e]).record.remote_id@ == id {
        let e = choose|e: int|
            0 <= e < context.store.entities@.len() && (#[trigger]
            context.store.entities@[e]).record.remote_id@ == id;
        lemma_named_exists(context.store.entities@, e, id);
    }
}

proof fn lemma_named_exists(entities: Seq<undo::IndexedEntity>, e: int, id: Seq<char>)
    requires
        0 <= e < entities.len(),
        entities[e].record.remote_id@ == id,
    ensures
        undo::entity_named(entities, id) is Some,
    decreases entities.len(),
{
    if e < entities.len() - 1 {
        lemma_named_exists(entities.drop_last(), e, id);
    }
}

/// An undo forgets exactly the entities whose creation it takes back, where it
/// goes through, and no others in any case.
pub proof fn law_undo_forgets_created_entities_alone(
    style: PathStyle,
    context: UndoContext,
    mount: MountConfig,
    entry: JournalEntry,
    plan: UndoPlan,
    changed: Seq<Seq<char>>,
    observations: Seq<RemoteObservation>,
    done: Reconciliation,
    id: Seq<char>,
)
    requires
        reconcile::reconciliation_result(
            style,
            context,
            entry,
            plan,
            changed,
            observations,
            Ok(done),
        ),
        context.mount == Some(mount),
        changed.len() > 0,
    ensures
        ({
            let forgotten = exists|m: int|
                0 <= m < done.steps@.len() && (#[trigger] done.steps@[m] matches
                    ReconcileStep::DeleteEntity { entity_id } && entity_id@ == id);
            let created = exists|o: int|
                0 <= o < plan.operations@.len() && (#[trigger] plan.operations@[o] matches
                    UndoOperation::ArchiveCreatedEntity { entity_id, .. } && entity_id@ == id);
            &&& forgotten ==> created
            &&& created && done.failure is None ==> forgotten
        }),
{
    let g = ground_of(style, context, mount, entry, plan, changed, observations);
    let steps = reconcile::step_views(done.steps@);
    lemma_reconciled(style, g, entry, changed);
    lemma_archived_creation(plan.operations@, id);
    if exists|m: int|
        0 <= m < done.steps@.len() && (#[trigger] done.steps@[m] matches
            ReconcileStep::DeleteEntity { entity_id } && entity_id@ == id) {
        let m = choose|m: int|
            0 <= m < done.steps@.len() && (#[trigger] done.steps@[m] matches
                ReconcileStep::DeleteEntity { entity_id } && entity_id@ == id);
        assert(steps[m] == done.steps@[m]@);
        assert(belongs(style, g, entry.preimages@, changed, steps, m));
    }
    let ids = undo::archived_creations(plan.operations@);
    if ids.contains(id) && done.failure is None {
        let k = choose|k: int| 0 <= k < ids.len() && ids[k] == id;
        assert(steps.contains(StepView::DeleteEntity { entity_id: ids[k] }));
        let m = choose|m: int|
            0 <= m < steps.len() && steps[m] == (StepView::DeleteEntity { entity_id: id });
        assert(steps[m] == done.steps@[m]@);
    }
}

/// An undo removes no file but that of an entity whose creation it takes back,
/// and the old file of an entity that it has just written elsewhere.
pub proof fn law_undo_removes_no_other_file(
    style: PathStyle,
    context: UndoContext,
    mount: MountConfig,
    entry: JournalEntry,
    plan: UndoPlan,
    changed: Seq<Seq<char>>,
    observations: Seq<RemoteObservation>,
    done: Reconciliation,
    i: int,
)
    requires
        reconcile::reconciliation_result(
            style,
            context,
            entry,
            plan,
            changed,
            observations,
            Ok(done),
        ),
        context.mount == Some(mount),
        0 <= i < done.steps@.len(),
        done.steps@[i] is RemoveFile,
    ensures
        ({
            let steps = reconcile::step_views(done.steps@);
            let removed = done.steps@[i]->RemoveFile_path@;
            ||| exists|o: int, at: Seq<char>|
                #![trigger plan.operations@[o], was_at(
                    context,
                    steps,
                    i,
                    plan.operations@[o]->ArchiveCreatedEntity_entity_id@,
                    at,
                )]
                0 <= o < plan.operations@.len() && (plan.operations@[o] matches
                    UndoOperation::ArchiveCreatedEntity { entity_id, .. } && was_at(
                    context,
                    steps,
                    i,
                    entity_id@,
                    at,
                )) && removed == file_place(style, mount, context, at)
            ||| exists|j: int, k: int, from: Seq<char>|
                #![trigger steps[j], entry.preimages@[k], file_place(style, mount, context, from)]
                0 <= k < entry.preimages@.len() && restores(
                    style,
                    mount,
                    context,
                    entry.preimages@[k],
                    steps,
                    i - 1,
                    j,
                ) && was_at(context, steps, i, entry.preimages@[k].entity_id@, from) && removed
                    == file_place(style, mount, context, from) && (steps[j + 1] matches
                    StepView::SaveEntity { record } && !paths::same(style, from, record.path))
        }),
{
    let g = ground_of(style, context, mount, entry, plan, changed, observations);
    let steps = reconcile::step_views(done.steps@);
    lemma_reconciled(style, g, entry, changed);
    assert(steps[i] == done.steps@[i]@);
    assert(belongs(style, g, entry.preimages@, changed, steps, i));
    if done.steps@[i]->must_exist {
        let path = done.steps@[i]->RemoveFile_path@;
        let (id, at) = choose|id: Seq<char>, at: Seq<char>|
            #[trigger] archives(g, id) && path == file_place(style, mount, context, at)
                && #[trigger] was_at(context, steps, i, id, at);
        lemma_archived_creation(plan.operations@, id);
        let o = choose|o: int|
            0 <= o < plan.operations@.len() && (#[trigger] plan.operations@[o] matches
                UndoOperation::ArchiveCreatedEntity { entity_id, .. } && entity_id@ == id);
        assert(was_at(
            context,
            steps,
            i,
            plan.operations@[o]->ArchiveCreatedEntity_entity_id@,
            at,
        ));
    } else {
        let (j, k, from) = choose|j: int, k: int, from: Seq<char>|
            #[trigger] leaves(style, g, entry.preimages@, changed, steps, i, j, k, from);
        assert(restores_changed(style, g, entry.preimages@, changed, steps, i - 1, j, k));
        let x = steps[j];
        let y = entry.preimages@[k];
        let z = file_place(style, mount, context, from);
    }
}

} // verus!
