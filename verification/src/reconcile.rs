//! What an undo changes locally once the remote side has confirmed it.
use vstd::prelude::*;

use crate::diff::EntityKind;
use crate::history;
use crate::history::{HistoryError, JournalEntry, JournalPreimage, JournalStatus, UndoOperation};
use crate::history::{UndoPlan, UndoPlanOutput, UndoPlanStatus, UndoReport};
use crate::model;
use crate::model::{EntityRecord, HydrationState, LocalityError, LocalityErrorKind, MountConfig};
use crate::model::{ProjectionMode, ShadowDocument, StoreError, StoreErrorKind};
use crate::model::VirtualMutationRecord;
use crate::paths;
use crate::paths::PathStyle;
use crate::quoting;
use crate::sorting;
use crate::text;
use crate::undo;
use crate::undo::{IndexedEntity, RemoteObservation, UndoContext, ValidatedObservation};

verus! {

/// Whether a path is that of a page document.
pub open spec fn is_page_document(style: PathStyle, path: Seq<char>) -> bool {
    paths::last_name(paths::components(style, path)) == Some("page.md"@)
}

/// Whether a path is that of a page document.
pub fn is_page_document_destination(style: PathStyle, path: &str) -> (r: bool)
    ensures
        r == is_page_document(style, path@),
{
    match paths::file_name(style, path) {
        Some(name) => text::same_text(&name, "page.md"),
        None => false,
    }
}

/// Whether another page, or a pending page, has the directory of a page
/// document for itself.
pub open spec fn container_owned(
    style: PathStyle,
    entities: Seq<IndexedEntity>,
    mutations: Seq<VirtualMutationRecord>,
    id: Seq<char>,
    destination: Seq<char>,
) -> bool {
    let container = paths::components(style, destination).drop_last();
    ||| exists|i: int|
        0 <= i < entities.len() && (#[trigger] entities[i]).record.remote_id@ != id
            && entities[i].record.kind is Page && paths::components(style, entities[i].container@)
            == container
    ||| exists|i: int|
        0 <= i < mutations.len() && is_page_document(
            style,
            (#[trigger] mutations[i]).projected_path@,
        )
            && paths::components(style, mutations[i].projected_path@).drop_last() == container
}

/// Whether another page, or a pending page, has the directory of the page
/// document `destination` for itself.
pub fn page_container_owned_by_another(
    style: PathStyle,
    entities: &Vec<IndexedEntity>,
    mutations: &Vec<VirtualMutationRecord>,
    entity_id: &str,
    destination: &str,
) -> (r: bool)
    requires
        is_page_document(style, destination@),
    ensures
        r == container_owned(style, entities@, mutations@, entity_id@, destination@),
{
    let mut container = paths::components_of(style, destination);
    let ghost full = paths::views(container@);
    let _name = container.pop();
    assert(paths::views(container@) =~= full.drop_last());
    let ghost wanted = paths::components(style, destination@).drop_last();
    let mut i: usize = 0;
    while i < entities.len()
        invariant
            i <= entities.len(),
            wanted == paths::components(style, destination@).drop_last(),
            paths::views(container@) == wanted,
            forall|k: int|
                0 <= k < i ==> !((#[trigger] entities@[k]).record.remote_id@ != entity_id@
                    && entities@[k].record.kind is Page && paths::components(
                    style,
                    entities@[k].container@,
                ) == wanted),
        decreases entities.len() - i,
    {
        if !text::same_text(&entities[i].record.remote_id, entity_id) && model::kinds_match(
            &entities[i].record.kind,
            &EntityKind::Page,
        ) && paths::same_components(
            &paths::components_of(style, &entities[i].container),
            &container,
        ) {
            assert(entities@[i as int].record.remote_id@ != entity_id@);
            return true;
        }
        i += 1;
    }
    let mut j: usize = 0;
    while j < mutations.len()
        invariant
            j <= mutations.len(),
            wanted == paths::components(style, destination@).drop_last(),
            paths::views(container@) == wanted,
            forall|k: int|
                0 <= k < j ==> !(is_page_document(style, (#[trigger] mutations@[k]).projected_path@)
                    && paths::components(
                        style,
                        mutations@[k].projected_path@,
                    ).drop_last() == wanted),
        decreases mutations.len() - j,
    {
        if is_page_document_destination(style, &mutations[j].projected_path) {
            let mut other = paths::components_of(style, &mutations[j].projected_path);
            let ghost all = paths::views(other@);
            let _last = other.pop();
            assert(paths::views(other@) =~= all.drop_last());
            if paths::same_components(&other, &container) {
                assert(is_page_document(style, mutations@[j as int].projected_path@));
                return true;
            }
        }
        j += 1;
    }
    false
}

/// Whether something stands in the way at `path`: a file, or, for a page
/// document, the directory that would hold it.
pub open spec fn occupied(
    style: PathStyle,
    existing: Seq<Seq<char>>,
    relative: Seq<char>,
    path: Seq<char>,
) -> bool {
    ||| existing.contains(path)
    ||| is_page_document(style, relative) && (paths::parent_of(style, path) matches Some(parent)
        && existing.contains(parent))
}

/// What is said where something stands in the way.
pub open spec fn occupied_text(relative: Seq<char>, path: Seq<char>) -> Seq<char> {
    "restored projection path `"@ + relative + "` already exists at `"@ + path + "`"@
}

fn preflight_undo_destination_path(
    style: PathStyle,
    existing: &Vec<String>,
    relative_path: &str,
    path: &str,
) -> (r:
    Option<String>)
    ensures
        text::opt_text(r) == (if occupied(style, text::texts(existing@), relative_path@, path@) {
            Some(occupied_text(relative_path@, path@))
        } else {
            None
        }),
{
    let container_exists = is_page_document_destination(
        style,
        relative_path,
    ) && match paths::parent(
        style,
        path,
    ) {
        Some(parent) => text::holds_text(existing, &parent),
        None => false,
    };
    if text::holds_text(existing, path) || container_exists {
        let mut why = text::concat3(
            "restored projection path `",
            relative_path,
            "` already exists at `",
        );
        why.append(path);
        why.append("`");
        return Some(why);
    }
    None
}

/// The last confirmation for an entity.
pub open spec fn confirmation_for(confirmed: Seq<undo::Confirmation>, id: Seq<char>) -> Option<
    undo::Confirmation,
>
    decreases confirmed.len(),
{
    if confirmed.len() == 0 {
        None
    } else if confirmed.last().entity == id {
        Some(confirmed.last())
    } else {
        confirmation_for(confirmed.drop_last(), id)
    }
}

fn find_confirmation<'a>(validated: &'a Vec<ValidatedObservation>, id: &str) -> (r: Option<
    &'a ValidatedObservation,
>)
    ensures
        match r {
            Some(v) => confirmation_for(undo::confirmations(validated@), id@) == Some(
                undo::Confirmation {
                    entity: v.entity_id@,
                    observation: v.observation as int,
                    path: v.path@,
                },
            ) && validated@.contains(*v),
            None => confirmation_for(undo::confirmations(validated@), id@) is None,
        },
{
    let ghost all = undo::confirmations(validated@);
    let mut i: usize = validated.len();
    assert(all.take(i as int) == all);
    while i > 0
        invariant
            i <= validated.len(),
            all == undo::confirmations(validated@),
            confirmation_for(all, id@) == confirmation_for(all.take(i as int), id@),
        decreases i,
    {
        assert(all.take(i as int).last() == all[i - 1]);
        if text::same_text(&validated[i - 1].entity_id, id) {
            return Some(&validated[i - 1]);
        }
        assert(all.take(i as int).drop_last() == all.take(i - 1));
        i -= 1;
    }
    None
}

/// What stands in the way of bringing an entity back to where it was.
pub enum PlaceFault {
    Invalid { why: Seq<char> },
    NoStateRoot,
}

/// What stands in the way at the other places where the entity can be seen.
pub open spec fn seen_fault(
    style: PathStyle,
    existing: Seq<Seq<char>>,
    roots: Seq<Seq<char>>,
    destination: Seq<char>,
    backing: Seq<char>,
) -> Option<PlaceFault>
    decreases roots.len(),
{
    if roots.len() == 0 {
        None
    } else {
        match seen_fault(style, existing, roots.drop_last(), destination, backing) {
            Some(fault) => Some(fault),
            None => {
                let place = paths::joined(style, roots.last(), destination);
                if !paths::same(style, place, backing) && occupied(
                    style,
                    existing,
                    destination,
                    place,
                ) {
                    Some(PlaceFault::Invalid { why: occupied_text(destination, place) })
                } else {
                    None
                }
            },
        }
    }
}

/// What stands in the way of bringing an entity back to where it was: a
/// pending local change there, another page that has the directory, or
/// something in the filesystem. An entity that stays in place has nothing in
/// its way.
pub open spec fn place_fault(
    style: PathStyle,
    context: UndoContext,
    mount: MountConfig,
    confirmed: Seq<undo::Confirmation>,
    id: Seq<char>,
) -> Option<PlaceFault> {
    let store = context.store;
    let existing = undo::entity_named(store.entities@, id);
    let destination = match confirmation_for(confirmed, id) {
        Some(c) => Some(c.path),
        None => match existing {
            Some(e) => Some(e.record.path@),
            None => None,
        },
    };
    match destination {
        None => None,
        Some(to) => if existing matches Some(e) && paths::same(style, e.record.path@, to) {
            None
        } else {
            match undo::mutation_at(style, store.mutations@, to) {
                Some(m) => Some(
                    PlaceFault::Invalid {
                        why: "restored projection path `"@ + to
                            + "` is reserved by local mutation `"@ + m.local_id@ + "`"@,
                    },
                ),
                None => if is_page_document(style, to) && container_owned(
                    style,
                    store.entities@,
                    store.mutations@,
                    id,
                    to,
                ) {
                    Some(
                        PlaceFault::Invalid {
                            why: "restored page container `"@ + paths::parent_of(style, to)->0
                                + "` is already owned"@,
                        },
                    )
                } else {
                    match undo::write_path(style, mount, context.content_root, to) {
                        None => Some(PlaceFault::NoStateRoot),
                        Some(backing) => if occupied(
                            style,
                            text::texts(context.existing@),
                            to,
                            backing,
                        ) {
                            Some(PlaceFault::Invalid { why: occupied_text(to, backing) })
                        } else if mount.projection.uses_virtual_filesystem() {
                            seen_fault(
                                style,
                                text::texts(context.existing@),
                                text::texts(mount.access_roots@),
                                to,
                                backing,
                            )
                        } else {
                            None
                        },
                    }
                },
            }
        },
    }
}

/// Whether an error tells what stands in the way.
pub open spec fn tells_place_fault(error: HistoryError, id: Seq<char>, fault: PlaceFault) -> bool {
    match fault {
        PlaceFault::Invalid { why } => undo::is_invalid(error, id, why),
        PlaceFault::NoStateRoot => undo::is_store_io(error, undo::no_state_root()),
    }
}

fn invalid(entity_id: &str, reason: String) -> (r: HistoryError)
    ensures
        undo::is_invalid(r, entity_id@, reason@),
{
    HistoryError::InvalidUndoObservation { entity_id: entity_id.to_string(), reason }
}

proof fn lemma_seen_fault(
    style: PathStyle,
    existing: Seq<Seq<char>>,
    roots: Seq<Seq<char>>,
    destination: Seq<char>,
    backing: Seq<char>,
    n: int,
)
    requires
        0 <= n <= roots.len(),
        seen_fault(style, existing, roots.take(n), destination, backing) is Some,
    ensures
        seen_fault(style, existing, roots, destination, backing) == seen_fault(
            style,
            existing,
            roots.take(n),
            destination,
            backing,
        ),
    decreases roots.len() - n,
{
    if n < roots.len() {
        assert(roots.take(n + 1).drop_last() == roots.take(n));
        lemma_seen_fault(style, existing, roots, destination, backing, n + 1);
    } else {
        assert(roots.take(n) == roots);
    }
}

fn seen_fault_of(
    style: PathStyle,
    existing: &Vec<String>,
    roots: &Vec<String>,
    entity_id: &str,
    destination: &str,
    backing: &str,
) -> (r: Option<HistoryError>)
    ensures
        match seen_fault(
            style,
            text::texts(existing@),
            text::texts(roots@),
            destination@,
            backing@,
        ) {
            Some(fault) => r matches Some(e) && tells_place_fault(e, entity_id@, fault),
            None => r is None,
        },
{
    let ghost all = text::texts(roots@);
    let ghost there = text::texts(existing@);
    let mut i: usize = 0;
    assert(all.take(0) == Seq::<Seq<char>>::empty());
    while i < roots.len()
        invariant
            i <= roots.len(),
            all == text::texts(roots@),
            there == text::texts(existing@),
            seen_fault(style, there, all.take(i as int), destination@, backing@) is None,
        decreases roots.len() - i,
    {
        assert(all.take(i + 1).drop_last() == all.take(i as int));
        assert(all.take(i + 1).last() == roots@[i as int]@);
        let place = paths::join(style, &roots[i], destination);
        if !paths::same_path(style, &place, backing) {
            if let Some(why) = preflight_undo_destination_path(
                style,
                existing,
                destination,
                &place,
            ) {
                proof {
                    lemma_seen_fault(style, there, all, destination@, backing@, i + 1);
                }
                return Some(invalid(entity_id, why));
            }
        }
        i += 1;
    }
    assert(all.take(i as int) == all);
    None
}

fn place_fault_of(
    style: PathStyle,
    context: &UndoContext,
    mount: &MountConfig,
    validated: &Vec<ValidatedObservation>,
    entity_id: &str,
) -> (r: Option<HistoryError>)
    ensures
        match place_fault(style, *context, *mount, undo::confirmations(validated@), entity_id@) {
            Some(fault) => r matches Some(e) && tells_place_fault(e, entity_id@, fault),
            None => r is None,
        },
{
    let existing = context.store.get_entity(entity_id);
    let destination: &String = match find_confirmation(validated, entity_id) {
        Some(v) => &v.path,
        None => match existing {
            Some(e) => &e.record.path,
            None => {
                return None;
            },
        },
    };
    if let Some(e) = existing {
        if paths::same_path(style, &e.record.path, destination) {
            return None;
        }
    }
    if let Some(mutation) = undo::find_mutation_at(style, &context.store.mutations, destination) {
        let mut why = text::concat3(
            "restored projection path `",
            destination,
            "` is reserved by local mutation `",
        );
        why.append(&mutation.local_id);
        why.append("`");
        return Some(invalid(entity_id, why));
    }
    if is_page_document_destination(style, destination) && page_container_owned_by_another(
        style,
        &context.store.entities,
        &context.store.mutations,
        entity_id,
        destination,
    ) {
        let container = match paths::parent(style, destination) {
            Some(container) => container,
            None => String::new(),
        };
        proof {
            paths::lemma_named_has_parent(style, destination@);
        }
        return Some(
            invalid(
                entity_id,
                text::concat3("restored page container `", &container, "` is already owned"),
            ),
        );
    }
    let backing = match undo::undo_projection_write_path(
        style,
        mount,
        &context.content_root,
        destination,
    ) {
        Ok(path) => path,
        Err(error) => {
            return Some(error);
        },
    };
    if let Some(why) = preflight_undo_destination_path(
        style,
        &context.existing,
        destination,
        &backing,
    ) {
        return Some(invalid(entity_id, why));
    }
    if mount.projection.uses_virtual_filesystem() {
        return seen_fault_of(
            style,
            &context.existing,
            &mount.access_roots,
            entity_id,
            destination,
            &backing,
        );
    }
    None
}

/// The first preimage of a changed entity that something stands in the way of.
pub open spec fn first_place_fault(
    style: PathStyle,
    context: UndoContext,
    mount: MountConfig,
    confirmed: Seq<undo::Confirmation>,
    changed: Seq<Seq<char>>,
    ids: Seq<Seq<char>>,
) -> Option<(Seq<char>, PlaceFault)>
    decreases ids.len(),
{
    if ids.len() == 0 {
        None
    } else {
        match first_place_fault(style, context, mount, confirmed, changed, ids.drop_last()) {
            Some(found) => Some(found),
            None => if !changed.contains(ids.last()) {
                None
            } else {
                match place_fault(style, context, mount, confirmed, ids.last()) {
                    Some(fault) => Some((ids.last(), fault)),
                    None => None,
                }
            },
        }
    }
}

proof fn lemma_first_place_fault(
    style: PathStyle,
    context: UndoContext,
    mount: MountConfig,
    confirmed: Seq<undo::Confirmation>,
    changed: Seq<Seq<char>>,
    ids: Seq<Seq<char>>,
    n: int,
)
    requires
        0 <= n <= ids.len(),
        first_place_fault(style, context, mount, confirmed, changed, ids.take(n)) is Some,
    ensures
        first_place_fault(style, context, mount, confirmed, changed, ids) == first_place_fault(
            style,
            context,
            mount,
            confirmed,
            changed,
            ids.take(n),
        ),
    decreases ids.len() - n,
{
    if n < ids.len() {
        assert(ids.take(n + 1).drop_last() == ids.take(n));
        lemma_first_place_fault(style, context, mount, confirmed, changed, ids, n + 1);
    } else {
        assert(ids.take(n) == ids);
    }
}

/// Whether every changed entity can go back to where it was; the first one
/// that something stands in the way of is the one reported.
pub fn preflight_undo_reconciliation_paths(
    style: PathStyle,
    context: &UndoContext,
    mount: &MountConfig,
    entry: &JournalEntry,
    changed_remote_ids: &Vec<String>,
    validated: &Vec<ValidatedObservation>,
) -> (r: Result<(), HistoryError>)
    ensures
        match first_place_fault(
            style,
            *context,
            *mount,
            undo::confirmations(validated@),
            text::texts(changed_remote_ids@),
            undo::preimage_entities(entry.preimages@),
        ) {
            Some((id, fault)) => r matches Err(e) && tells_place_fault(e, id, fault),
            None => r is Ok,
        },
{
    let ghost ids = undo::preimage_entities(entry.preimages@);
    let ghost changed = text::texts(changed_remote_ids@);
    let ghost confirmed = undo::confirmations(validated@);
    let mut i: usize = 0;
    assert(ids.take(0) == Seq::<Seq<char>>::empty());
    while i < entry.preimages.len()
        invariant
            i <= entry.preimages.len(),
            ids == undo::preimage_entities(entry.preimages@),
            changed == text::texts(changed_remote_ids@),
            confirmed == undo::confirmations(validated@),
            first_place_fault(
                style,
                *context,
                *mount,
                confirmed,
                changed,
                ids.take(i as int),
            ) is None,
        decreases entry.preimages.len() - i,
    {
        assert(ids.take(i + 1).drop_last() == ids.take(i as int));
        assert(ids.take(i + 1).last() == entry.preimages@[i as int].entity_id@);
        let id = &entry.preimages[i].entity_id;
        if text::holds_text(changed_remote_ids, id) {
            if let Some(error) = place_fault_of(style, context, mount, validated, id) {
                proof {
                    lemma_first_place_fault(
                        style,
                        *context,
                        *mount,
                        confirmed,
                        changed,
                        ids,
                        i + 1,
                    );
                }
                return Err(error);
            }
        }
        i += 1;
    }
    assert(ids.take(i as int) == ids);
    Ok(())
}

/// An entity record, each text by what it holds.
pub struct EntityView {
    pub mount_id: Seq<char>,
    pub remote_id: Seq<char>,
    pub kind: EntityKind,
    pub title: Seq<char>,
    pub path: Seq<char>,
    pub hydration: HydrationState,
    pub content_hash: Option<Seq<char>>,
    pub remote_edited_at: Option<Seq<char>>,
    pub synced_remote_version: Option<Seq<char>>,
}

impl View for EntityRecord {
    type V = EntityView;

    open spec fn view(&self) -> EntityView {
        EntityView {
            mount_id: self.mount_id@,
            remote_id: self.remote_id@,
            kind: self.kind,
            title: self.title@,
            path: self.path@,
            hydration: self.hydration,
            content_hash: text::opt_text(self.content_hash),
            remote_edited_at: text::opt_text(self.remote_edited_at),
            synced_remote_version: text::opt_text(self.synced_remote_version),
        }
    }
}

fn clone_record(record: &EntityRecord) -> (r: EntityRecord)
    ensures
        r == *record,
{
    EntityRecord {
        mount_id: record.mount_id.clone(),
        remote_id: record.remote_id.clone(),
        kind: model::clone_kind(&record.kind),
        title: record.title.clone(),
        path: record.path.clone(),
        hydration: record.hydration,
        content_hash: text::clone_option(&record.content_hash),
        remote_edited_at: text::clone_option(&record.remote_edited_at),
        synced_remote_version: text::clone_option(&record.synced_remote_version),
    }
}

/// A place outside the store that has to catch up once an undo is recorded.
#[derive(Debug, PartialEq, Eq)]
pub enum UndoProjectionRefresh {
    /// The visible copy of an entity that moved or changed.
    WindowsCloudFilesEntity {
        entity_id: String,
        previous_path: String,
        previous_shadow: ShadowDocument,
    },
    /// The visible copy of an entity that is gone.
    WindowsCloudFilesRemovedEntity {
        entity_id: String,
        previous_path: String,
        previous_shadow: ShadowDocument,
    },
    /// The containers that held an entity before and, where it is still there,
    /// those that hold it now.
    MacosContainers { entity_id: String, with_current: bool },
}

/// One thing that an undo does locally.
#[derive(Debug, PartialEq, Eq)]
pub enum ReconcileStep {
    /// Write a document, replacing the file at once.
    WriteDocument { path: String, frontmatter: String, body: String },
    /// Remove a file; unless it must exist, one that is absent is no failure.
    RemoveFile { path: String, must_exist: bool },
    /// Remove a directory if nothing is left in it.
    RemoveEmptyDirectory { path: String },
    /// Store a shadow.
    SaveShadow { shadow: ShadowDocument },
    /// Store an entity.
    SaveEntity { record: EntityRecord },
    /// Forget an entity.
    DeleteEntity { entity_id: String },
    /// Note which containers hold an entity before it changes.
    RememberContainers { entity_id: String },
    /// Have a place catch up, once the undo is recorded.
    Refresh { refresh: UndoProjectionRefresh },
}

/// A place that has to catch up, each text by what it holds.
pub enum RefreshView {
    WindowsEntity { entity_id: Seq<char>, previous_path: Seq<char>, previous_shadow: ShadowDocument },
    WindowsRemoved {
        entity_id: Seq<char>,
        previous_path: Seq<char>,
        previous_shadow: ShadowDocument,
    },
    Macos { entity_id: Seq<char>, with_current: bool },
}

impl View for UndoProjectionRefresh {
    type V = RefreshView;

    open spec fn view(&self) -> RefreshView {
        match *self {
            UndoProjectionRefresh::WindowsCloudFilesEntity {
                entity_id,
                previous_path,
                previous_shadow,
            } => RefreshView::WindowsEntity {
                entity_id: entity_id@,
                previous_path: previous_path@,
                previous_shadow,
            },
            UndoProjectionRefresh::WindowsCloudFilesRemovedEntity {
                entity_id,
                previous_path,
                previous_shadow,
            } => RefreshView::WindowsRemoved {
                entity_id: entity_id@,
                previous_path: previous_path@,
                previous_shadow,
            },
            UndoProjectionRefresh::MacosContainers { entity_id, with_current } =>
            RefreshView::Macos { entity_id: entity_id@, with_current },
        }
    }
}

/// One thing that an undo does locally, each text by what it holds.
pub enum StepView {
    WriteDocument { path: Seq<char>, frontmatter: Seq<char>, body: Seq<char> },
    RemoveFile { path: Seq<char>, must_exist: bool },
    RemoveEmptyDirectory { path: Seq<char> },
    SaveShadow { shadow: ShadowDocument },
    SaveEntity { record: EntityView },
    DeleteEntity { entity_id: Seq<char> },
    RememberContainers { entity_id: Seq<char> },
    Refresh { refresh: RefreshView },
}

impl View for ReconcileStep {
    type V = StepView;

    open spec fn view(&self) -> StepView {
        match *self {
            ReconcileStep::WriteDocument { path, frontmatter, body } => StepView::WriteDocument {
                path: path@,
                frontmatter: frontmatter@,
                body: body@,
            },
            ReconcileStep::RemoveFile { path, must_exist } => StepView::RemoveFile {
                path: path@,
                must_exist,
            },
            ReconcileStep::RemoveEmptyDirectory { path } => StepView::RemoveEmptyDirectory {
                path: path@,
            },
            ReconcileStep::SaveShadow { shadow } => StepView::SaveShadow { shadow },
            ReconcileStep::SaveEntity { record } => StepView::SaveEntity { record: record@ },
            ReconcileStep::DeleteEntity { entity_id } => StepView::DeleteEntity {
                entity_id: entity_id@,
            },
            ReconcileStep::RememberContainers { entity_id } => StepView::RememberContainers {
                entity_id: entity_id@,
            },
            ReconcileStep::Refresh { refresh } => StepView::Refresh { refresh: refresh@ },
        }
    }
}

/// The steps in `s`, each text by what it holds.
pub open spec fn step_views(s: Seq<ReconcileStep>) -> Seq<StepView> {
    Seq::new(s.len(), |i: int| s[i]@)
}

/// Why local reconciliation stops.
pub enum StopView {
    Invalid { id: Seq<char>, why: Seq<char> },
    Unsafe { id: Seq<char>, why: Seq<char> },
    Io { why: Seq<char> },
    ShadowMissing { why: Seq<char> },
}

/// Whether an error tells why local reconciliation stops.
pub open spec fn tells_stop(error: HistoryError, stop: StopView) -> bool {
    match stop {
        StopView::Invalid { id, why } => undo::is_invalid(error, id, why),
        StopView::Unsafe { id, why } => undo::is_unsafe(error, id, why),
        StopView::Io { why } => undo::is_store_io(error, why),
        StopView::ShadowMissing { why } => error matches HistoryError::Store(e) && e.kind
            == StoreErrorKind::ShadowMissing && e.message@ == why,
    }
}

/// What an undo changes locally: the steps in order, and, where it cannot be
/// carried through, why it stops behind them.
#[derive(Debug, PartialEq, Eq)]
pub struct Reconciliation {
    pub steps: Vec<ReconcileStep>,
    pub failure: Option<HistoryError>,
}

struct Work {
    steps: Vec<ReconcileStep>,
    saved_entities: Vec<SavedEntity>,
    saved_shadows: Vec<ShadowDocument>,
}

struct SavedEntity {
    id: String,
    record: Option<EntityRecord>,
}

/// Local reconciliation under way: the steps so far, the entities saved (or
/// forgotten) and the shadows saved by them, and why it has stopped, if it has.
pub struct Progress {
    pub steps: Seq<StepView>,
    pub entities: Seq<(Seq<char>, Option<EntityView>)>,
    pub shadows: Seq<ShadowDocument>,
    pub stop: Option<StopView>,
}

/// The entity as the steps so far leave it.
pub open spec fn entity_now(
    base: Seq<IndexedEntity>,
    saved: Seq<(Seq<char>, Option<EntityView>)>,
    id: Seq<char>,
) -> Option<EntityView>
    decreases saved.len(),
{
    if saved.len() == 0 {
        match undo::entity_named(base, id) {
            Some(e) => Some(e.record@),
            None => None,
        }
    } else if saved.last().0 == id {
        saved.last().1
    } else {
        entity_now(base, saved.drop_last(), id)
    }
}

/// The shadow as the steps so far leave it.
pub open spec fn shadow_now(
    base: Seq<ShadowDocument>,
    saved: Seq<ShadowDocument>,
    id: Seq<char>,
) -> Option<ShadowDocument>
    decreases saved.len(),
{
    if saved.len() == 0 {
        undo::shadow_named(base, id)
    } else if saved.last().entity_id@ == id {
        Some(saved.last())
    } else {
        shadow_now(base, saved.drop_last(), id)
    }
}

impl Progress {
    /// With one step more.
    pub open spec fn step(self, step: StepView) -> Progress {
        Progress { steps: self.steps.push(step), ..self }
    }

    /// With one step more, if `condition` holds.
    pub open spec fn step_if(self, condition: bool, step: StepView) -> Progress {
        if condition {
            self.step(step)
        } else {
            self
        }
    }

    /// Stopped.
    pub open spec fn stopped(self, stop: StopView) -> Progress {
        Progress { stop: Some(stop), ..self }
    }
}

/// The frontmatter that is written for an entity without one.
pub open spec fn entity_frontmatter(e: EntityView) -> Seq<char> {
    "loc:\n  id: "@ + e.remote_id + "\n  type: page\n"@ + (match e.remote_edited_at {
        Some(at) => "  remote_edited_at: "@ + at + "\n"@,
        None => Seq::empty(),
    }) + ("title: "@ + quoting::double_quoted(
        quoting::SafeSet::YamlScalar,
        quoting::Expansion::Quotes,
        e.title,
    ) + "\n"@)
}

/// The frontmatter that is written for an entity without one.
pub fn frontmatter_from_entity(entity: &EntityRecord) -> (r: String)
    ensures
        r@ == entity_frontmatter(entity@),
{
    let mut out = text::concat3("loc:\n  id: ", &entity.remote_id, "\n  type: page\n");
    let ghost head = out@;
    match &entity.remote_edited_at {
        Some(at) => {
            let line = text::concat3("  remote_edited_at: ", at, "\n");
            out.append(&line);
        },
        None => {
            assert(head + Seq::<char>::empty() == head);
        },
    }
    let title = quoting::yaml_string(&entity.title);
    let line = text::concat3("title: ", &title, "\n");
    out.append(&line);
    out
}

/// The entity as an observation shows it.
pub open spec fn observed_entity(e: EntityView, o: RemoteObservation, path: Seq<char>) -> EntityView {
    EntityView {
        title: o.title@,
        kind: o.kind,
        path,
        synced_remote_version: text::opt_text(o.remote_version),
        ..e
    }
}

/// The entity that comes back, before anything is known of it but what an
/// observation shows.
pub open spec fn restored_entity(
    mount_id: Seq<char>,
    id: Seq<char>,
    o: RemoteObservation,
    path: Seq<char>,
) -> EntityView {
    EntityView {
        mount_id,
        remote_id: id,
        kind: o.kind,
        title: o.title@,
        path,
        hydration: HydrationState::Stub,
        content_hash: None,
        remote_edited_at: None,
        synced_remote_version: None,
    }
}

/// Everything that reconciliation goes by.
pub struct Ground {
    pub context: UndoContext,
    pub mount: MountConfig,
    pub mount_id: Seq<char>,
    pub operations: Seq<UndoOperation>,
    pub observations: Seq<RemoteObservation>,
    pub confirmed: Seq<undo::Confirmation>,
}

/// The document of a preimage: with its own frontmatter unless that is blank.
pub open spec fn document_frontmatter(preimage: JournalPreimage, e: EntityView) -> Seq<char> {
    if text::trimmed(preimage.shadow.frontmatter@).len() == 0 {
        entity_frontmatter(e)
    } else {
        preimage.shadow.frontmatter@
    }
}

/// The steps that take the old file of a moved entity away.
pub open spec fn remove_moved(
    style: PathStyle,
    p: Progress,
    mount: MountConfig,
    relative: Seq<char>,
    path: Seq<char>,
) -> Progress {
    let p1 = p.step(StepView::RemoveFile { path, must_exist: false });
    match paths::parent_of(style, path) {
        Some(parent) => p1.step_if(
            !mount.projection.uses_virtual_filesystem() && paths::components(
                style,
                relative,
            ).len() >= 2
                && is_page_document(style, relative),
            StepView::RemoveEmptyDirectory { path: parent },
        ),
        None => p1,
    }
}

/// Reconciliation with one entity brought back to its preimage: its document
/// is written where it belongs, the file at its old place goes, shadow and
/// index follow, and the places that show it are to catch up.
pub open spec fn preimage_restored(
    style: PathStyle,
    g: Ground,
    p: Progress,
    preimage: JournalPreimage,
) -> Progress {
    let id = preimage.entity_id@;
    let store = g.context.store;
    let existing = entity_now(store.entities@, p.entities, id);
    let confirmation = confirmation_for(g.confirmed, id);
    let virtual_fs = g.mount.projection.uses_virtual_filesystem();
    let shadow = shadow_now(store.shadows@, p.shadows, id);
    if existing is Some && shadow is None {
        p.stopped(
            StopView::ShadowMissing { why: undo::shadow_absence(store.absent_shadows@, id) },
        )
    } else {
        let p1 = p.step_if(
            existing is Some && virtual_fs,
            StepView::RememberContainers { entity_id: id },
        );
        if existing is None && !undo::restores_archived(g.operations, id) {
            p1
        } else if existing is None && confirmation is None {
            p1.stopped(
                StopView::Invalid {
                    id,
                    why: "restored archived entity has no validated observation"@,
                },
            )
        } else {
            let before = match existing {
                Some(e) => e,
                None => restored_entity(
                    g.mount_id,
                    id,
                    g.observations[confirmation->0.observation],
                    confirmation->0.path,
                ),
            };
            let after = match confirmation {
                Some(c) => observed_entity(before, g.observations[c.observation], c.path),
                None => before,
            };
            match undo::write_path(style, g.mount, g.context.content_root, after.path) {
                None => p1.stopped(StopView::Io { why: undo::no_state_root() }),
                Some(path) => {
                    let p2 = p1.step(
                        StepView::WriteDocument {
                            path,
                            frontmatter: document_frontmatter(preimage, after),
                            body: preimage.shadow.rendered_body@,
                        },
                    );
                    let moved = existing is Some && !paths::same(
                        style,
                        existing->0.path,
                        after.path,
                    );
                    if moved && undo::write_path(
                        style,
                        g.mount,
                        g.context.content_root,
                        existing->0.path,
                    ) is None {
                        p2.stopped(StopView::Io { why: undo::no_state_root() })
                    } else {
                        let p3 = if moved {
                            remove_moved(
                                style,
                                p2,
                                g.mount,
                                existing->0.path,
                                undo::write_path(
                                    style,
                                    g.mount,
                                    g.context.content_root,
                                    existing->0.path,
                                )->0,
                            )
                        } else {
                            p2
                        };
                        let record = EntityView {
                            hydration: HydrationState::Hydrated,
                            content_hash: Some(preimage.shadow.body_hash@),
                            ..after
                        };
                        let p4 = p3.step(StepView::SaveShadow { shadow: preimage.shadow }).step(
                            StepView::SaveEntity { record },
                        );
                        let p5 = Progress {
                            entities: p4.entities.push((id, Some(record))),
                            shadows: p4.shadows.push(preimage.shadow),
                            ..p4
                        };
                        let p6 = p5.step_if(
                            existing is Some && g.context.content_root is Some && g.mount.projection
                                == ProjectionMode::WindowsCloudFiles,
                            StepView::Refresh {
                                refresh: RefreshView::WindowsEntity {
                                    entity_id: id,
                                    previous_path: existing->0.path,
                                    previous_shadow: shadow->0,
                                },
                            },
                        );
                        p6.step_if(
                            g.mount.projection == ProjectionMode::MacosFileProvider,
                            StepView::Refresh {
                                refresh: RefreshView::Macos { entity_id: id, with_current: true },
                            },
                        )
                    }
                },
            }
        }
    }
}

impl Work {
    /// The reconciliation under way.
    spec fn progress(self) -> Progress {
        Progress {
            steps: step_views(self.steps@),
            entities: Seq::new(
                self.saved_entities@.len(),
                |i: int|
                    (
                        self.saved_entities@[i].id@,
                        match self.saved_entities@[i].record {
                            Some(r) => Some(r@),
                            None => None,
                        },
                    ),
            ),
            shadows: self.saved_shadows@,
            stop: None,
        }
    }

    fn push(&mut self, step: ReconcileStep)
        ensures
            final(self).progress() == old(self).progress().step(step@),
    {
        let ghost before = self.progress();
        self.steps.push(step);
        assert(step_views(self.steps@) =~= before.steps.push(step@));
        assert(self.progress().entities =~= before.entities);
    }

    fn entity(&self, context: &UndoContext, id: &str) -> (r: Option<EntityRecord>)
        ensures
            match entity_now(context.store.entities@, self.progress().entities, id@) {
                Some(v) => r matches Some(e) && e@ == v,
                None => r is None,
            },
    {
        let ghost saved = self.progress().entities;
        let mut i: usize = self.saved_entities.len();
        assert(saved.take(i as int) == saved);
        while i > 0
            invariant
                i <= self.saved_entities.len(),
                saved == self.progress().entities,
                entity_now(context.store.entities@, saved, id@) == entity_now(
                    context.store.entities@,
                    saved.take(i as int),
                    id@,
                ),
            decreases i,
        {
            assert(saved.take(i as int).last() == saved[i - 1]);
            if text::same_text(&self.saved_entities[i - 1].id, id) {
                return match &self.saved_entities[i - 1].record {
                    Some(record) => Some(clone_record(record)),
                    None => None,
                };
            }
            assert(saved.take(i as int).drop_last() == saved.take(i - 1));
            i -= 1;
        }
        match context.store.get_entity(id) {
            Some(e) => Some(clone_record(&e.record)),
            None => None,
        }
    }

    fn shadow(&self, context: &UndoContext, id: &str) -> (r: Option<ShadowDocument>)
        ensures
            r == shadow_now(context.store.shadows@, self.progress().shadows, id@),
    {
        let ghost saved = self.progress().shadows;
        let mut i: usize = self.saved_shadows.len();
        assert(saved.take(i as int) == saved);
        while i > 0
            invariant
                i <= self.saved_shadows.len(),
                saved == self.saved_shadows@,
                shadow_now(context.store.shadows@, saved, id@) == shadow_now(
                    context.store.shadows@,
                    saved.take(i as int),
                    id@,
                ),
            decreases i,
        {
            assert(saved.take(i as int).last() == saved[i - 1]);
            if text::same_text(&self.saved_shadows[i - 1].entity_id, id) {
                return Some(self.saved_shadows[i - 1].duplicate());
            }
            assert(saved.take(i as int).drop_last() == saved.take(i - 1));
            i -= 1;
        }
        match context.store.load_shadow(id) {
            Some(shadow) => Some(shadow.duplicate()),
            None => None,
        }
    }
}

/// Reconciliation with every changed entity brought back to its preimage, up
/// to where it stops.
pub open spec fn preimages_restored(
    style: PathStyle,
    g: Ground,
    p: Progress,
    preimages: Seq<JournalPreimage>,
    changed: Seq<Seq<char>>,
) -> Progress
    decreases preimages.len(),
{
    if preimages.len() == 0 {
        p
    } else {
        let before = preimages_restored(style, g, p, preimages.drop_last(), changed);
        if before.stop is Some || !changed.contains(preimages.last().entity_id@) {
            before
        } else {
            preimage_restored(style, g, before, preimages.last())
        }
    }
}

/// Reconciliation with one created entity taken away again: its file, its
/// index entry, and the visible copies of it.
pub open spec fn creation_archived(
    style: PathStyle,
    g: Ground,
    p: Progress,
    id: Seq<char>,
) -> Progress {
    let store = g.context.store;
    match entity_now(store.entities@, p.entities, id) {
        None => p.stopped(
            StopView::Unsafe { id, why: "created entity disappeared during undo"@ },
        ),
        Some(e) => {
            let p1 = p.step_if(
                g.mount.projection.uses_virtual_filesystem(),
                StepView::RememberContainers { entity_id: id },
            );
            match shadow_now(store.shadows@, p.shadows, id) {
                None => p1.stopped(
                    StopView::ShadowMissing {
                        why: undo::shadow_absence(store.absent_shadows@, id),
                    },
                ),
                Some(shadow) => match undo::write_path(
                    style,
                    g.mount,
                    g.context.content_root,
                    e.path,
                ) {
                    None => p1.stopped(StopView::Io { why: undo::no_state_root() }),
                    Some(path) => {
                        let p2 = p1.step(StepView::RemoveFile { path, must_exist: true });
                        let p3 = match paths::parent_of(style, path) {
                            Some(parent) => p2.step_if(
                                is_page_document(style, path),
                                StepView::RemoveEmptyDirectory { path: parent },
                            ),
                            None => p2,
                        };
                        let p4 = p3.step(StepView::DeleteEntity { entity_id: id });
                        let p5 = Progress { entities: p4.entities.push((id, None)), ..p4 };
                        if g.mount.projection == ProjectionMode::MacosFileProvider {
                            p5.step(
                                StepView::Refresh {
                                    refresh: RefreshView::Macos {
                                        entity_id: id,
                                        with_current: false,
                                    },
                                },
                            )
                        } else if g.mount.projection == ProjectionMode::WindowsCloudFiles {
                            if g.context.content_root is None {
                                p5.stopped(
                                    StopView::Io {
                                        why:
                                            "Windows Cloud Files undo reconciliation requires a state root"@,
                                    },
                                )
                            } else {
                                p5.step(
                                    StepView::Refresh {
                                        refresh: RefreshView::WindowsRemoved {
                                            entity_id: id,
                                            previous_path: e.path,
                                            previous_shadow: shadow,
                                        },
                                    },
                                )
                            }
                        } else {
                            p5
                        }
                    },
                },
            }
        },
    }
}

/// Reconciliation with every created entity taken away again, up to where it
/// stops.
pub open spec fn creations_archived(
    style: PathStyle,
    g: Ground,
    p: Progress,
    ids: Seq<Seq<char>>,
) -> Progress
    decreases ids.len(),
{
    if ids.len() == 0 {
        p
    } else {
        let before = creations_archived(style, g, p, ids.drop_last());
        if before.stop is Some {
            before
        } else {
            creation_archived(style, g, before, ids.last())
        }
    }
}

/// Nothing done yet.
pub open spec fn no_progress() -> Progress {
    Progress {
        steps: Seq::empty(),
        entities: Seq::empty(),
        shadows: Seq::empty(),
        stop: None,
    }
}

/// All that an undo changes locally: preimages first, then created entities.
pub open spec fn reconciled(
    style: PathStyle,
    g: Ground,
    entry: JournalEntry,
    changed: Seq<Seq<char>>,
) -> Progress {
    let p = preimages_restored(style, g, no_progress(), entry.preimages@, changed);
    if p.stop is Some {
        p
    } else {
        creations_archived(style, g, p, undo::archived_creations(g.operations))
    }
}

proof fn lemma_preimages_stopped(
    style: PathStyle,
    g: Ground,
    p: Progress,
    preimages: Seq<JournalPreimage>,
    changed: Seq<Seq<char>>,
    n: int,
)
    requires
        0 <= n <= preimages.len(),
        preimages_restored(style, g, p, preimages.take(n), changed).stop is Some,
    ensures
        preimages_restored(style, g, p, preimages, changed) == preimages_restored(
            style,
            g,
            p,
            preimages.take(n),
            changed,
        ),
    decreases preimages.len() - n,
{
    if n < preimages.len() {
        assert(preimages.take(n + 1).drop_last() == preimages.take(n));
        lemma_preimages_stopped(style, g, p, preimages, changed, n + 1);
    } else {
        assert(preimages.take(n) == preimages);
    }
}

proof fn lemma_creations_stopped(
    style: PathStyle,
    g: Ground,
    p: Progress,
    ids: Seq<Seq<char>>,
    n: int,
)
    requires
        0 <= n <= ids.len(),
        creations_archived(style, g, p, ids.take(n)).stop is Some,
    ensures
        creations_archived(style, g, p, ids) == creations_archived(style, g, p, ids.take(n)),
    decreases ids.len() - n,
{
    if n < ids.len() {
        assert(ids.take(n + 1).drop_last() == ids.take(n));
        lemma_creations_stopped(style, g, p, ids, n + 1);
    } else {
        assert(ids.take(n) == ids);
    }
}

/// Whether what was done so far is what `p` says, with the reason it stopped
/// for.
spec fn has_come_to(r: Work, stopped: Option<HistoryError>, p: Progress) -> bool {
    &&& r.progress() == (Progress { stop: None, ..p })
    &&& match p.stop {
        Some(stop) => stopped matches Some(e) && tells_stop(e, stop),
        None => stopped is None,
    }
}

fn io_error(message: &str) -> (r: HistoryError)
    ensures
        undo::is_store_io(r, message@),
{
    HistoryError::Store(StoreError { kind: StoreErrorKind::Io, message: message.to_string() })
}

fn shadow_missing(context: &UndoContext, id: &str) -> (r: HistoryError)
    ensures
        tells_stop(
            r,
            StopView::ShadowMissing {
                why: undo::shadow_absence(context.store.absent_shadows@, id@),
            },
        ),
{
    HistoryError::Store(
        StoreError {
            kind: StoreErrorKind::ShadowMissing,
            message: undo::absence_of_shadow(&context.store.absent_shadows, id),
        },
    )
}

/// What reconciliation goes by.
pub open spec fn ground(
    context: UndoContext,
    mount: MountConfig,
    entry: JournalEntry,
    plan: UndoPlan,
    observations: Seq<RemoteObservation>,
    validated: Seq<ValidatedObservation>,
) -> Ground {
    Ground {
        context,
        mount,
        mount_id: entry.mount_id@,
        operations: plan.operations@,
        observations,
        confirmed: undo::confirmations(validated),
    }
}

impl Work {
    fn save(&mut self, id: String, record: EntityRecord, shadow: ShadowDocument)
        ensures
            final(self).progress() == (Progress {
                entities: old(self).progress().entities.push((id@, Some(record@))),
                shadows: old(self).progress().shadows.push(shadow),
                ..old(self).progress()
            }),
    {
        let ghost before = self.progress();
        self.saved_entities.push(SavedEntity { id, record: Some(record) });
        self.saved_shadows.push(shadow);
        assert(self.progress().entities =~= before.entities.push((id@, Some(record@))));
        assert(self.progress().steps =~= before.steps);
    }

    fn forget(&mut self, id: String)
        ensures
            final(self).progress() == (Progress {
                entities: old(self).progress().entities.push((id@, None)),
                ..old(self).progress()
            }),
    {
        let ghost before = self.progress();
        self.saved_entities.push(SavedEntity { id, record: None });
        assert(self.progress().entities =~= before.entities.push((id@, None)));
        assert(self.progress().steps =~= before.steps);
    }

    fn remove_moved_file(
        &mut self,
        style: PathStyle,
        mount: &MountConfig,
        relative: &str,
        path: String,
    )
        ensures
            final(self).progress() == remove_moved(
                style,
                old(self).progress(),
                *mount,
                relative@,
                path@,
            ),
    {
        let parent = paths::parent(style, &path);
        self.push(ReconcileStep::RemoveFile { path, must_exist: false });
        if !mount.projection.uses_virtual_filesystem() {
            let c = paths::components_of(style, relative);
            assert(paths::views(c@).len() == c@.len());
            if c.len() >= 2 && is_page_document_destination(style, relative) {
                if let Some(parent) = parent {
                    self.push(ReconcileStep::RemoveEmptyDirectory { path: parent });
                }
            }
        }
    }

    fn restore_preimage(
        &mut self,
        style: PathStyle,
        context: &UndoContext,
        mount: &MountConfig,
        entry: &JournalEntry,
        plan: &UndoPlan,
        observations: &Vec<RemoteObservation>,
        validated: &Vec<ValidatedObservation>,
        preimage: &JournalPreimage,
    ) -> (r: Option<HistoryError>)
        requires
            forall|i: int|
                0 <= i < validated@.len() ==> (#[trigger] validated@[i]).observation
                    < observations@.len(),
        ensures
            has_come_to(
                *final(self),
                r,
                preimage_restored(
                    style,
                    ground(*context, *mount, *entry, *plan, observations@, validated@),
                    old(self).progress(),
                    *preimage,
                ),
            ),
    {
        let id = &preimage.entity_id;
        let existing = self.entity(context, id);
        let previous_shadow = self.shadow(context, id);
        if existing.is_some() && previous_shadow.is_none() {
            return Some(shadow_missing(context, id));
        }
        let virtual_fs = mount.projection.uses_virtual_filesystem();
        if existing.is_some() && virtual_fs {
            self.push(ReconcileStep::RememberContainers { entity_id: id.clone() });
        }
        let confirmation = find_confirmation(validated, id);
        let previous_path: Option<String> = match &existing {
            Some(e) => Some(e.path.clone()),
            None => None,
        };
        let before = match existing {
            Some(e) => e,
            None => {
                if !undo::plan_restores_archived(&plan.operations, id) {
                    return None;
                }
                match confirmation {
                    Some(v) => {
                        let o = &observations[v.observation];
                        EntityRecord {
                            mount_id: entry.mount_id.clone(),
                            remote_id: id.clone(),
                            kind: model::clone_kind(&o.kind),
                            title: o.title.clone(),
                            path: v.path.clone(),
                            hydration: HydrationState::Stub,
                            content_hash: None,
                            remote_edited_at: None,
                            synced_remote_version: None,
                        }
                    },
                    None => {
                        return Some(
                            invalid(
                                id,
                                "restored archived entity has no validated observation".to_string(),
                            ),
                        );
                    },
                }
            },
        };
        let after = match confirmation {
            Some(v) => {
                let o = &observations[v.observation];
                EntityRecord {
                    kind: model::clone_kind(&o.kind),
                    title: o.title.clone(),
                    path: v.path.clone(),
                    synced_remote_version: text::clone_option(&o.remote_version),
                    ..before
                }
            },
            None => before,
        };
        let path = match undo::undo_projection_write_path(
            style,
            mount,
            &context.content_root,
            &after.path,
        ) {
            Ok(path) => path,
            Err(error) => {
                return Some(error);
            },
        };
        let frontmatter = if text::trim(&preimage.shadow.frontmatter).as_str().is_empty() {
            frontmatter_from_entity(&after)
        } else {
            preimage.shadow.frontmatter.clone()
        };
        self.push(
            ReconcileStep::WriteDocument {
                path,
                frontmatter,
                body: preimage.shadow.rendered_body.clone(),
            },
        );
        if let Some(previous) = &previous_path {
            if !paths::same_path(style, previous, &after.path) {
                match undo::undo_projection_write_path(
                    style,
                    mount,
                    &context.content_root,
                    previous,
                ) {
                    Ok(old_path) => {
                        self.remove_moved_file(style, mount, previous, old_path);
                    },
                    Err(error) => {
                        return Some(error);
                    },
                }
            }
        }
        let record = EntityRecord {
            hydration: HydrationState::Hydrated,
            content_hash: Some(preimage.shadow.body_hash.clone()),
            ..after
        };
        self.push(ReconcileStep::SaveShadow { shadow: preimage.shadow.duplicate() });
        self.push(ReconcileStep::SaveEntity { record: clone_record(&record) });
        self.save(id.clone(), record, preimage.shadow.duplicate());
        if context.content_root.is_some() && windows_undo_projection_refresh_enabled(
            mount.projection,
        ) {
            if let (Some(previous_path), Some(previous_shadow)) = (previous_path, previous_shadow) {
                self.push(
                    ReconcileStep::Refresh {
                        refresh: UndoProjectionRefresh::WindowsCloudFilesEntity {
                            entity_id: id.clone(),
                            previous_path,
                            previous_shadow,
                        },
                    },
                );
            }
        }
        if mount.projection == ProjectionMode::MacosFileProvider {
            self.push(
                ReconcileStep::Refresh {
                    refresh: UndoProjectionRefresh::MacosContainers {
                        entity_id: id.clone(),
                        with_current: true,
                    },
                },
            );
        }
        None
    }

    fn archive_creation(
        &mut self,
        style: PathStyle,
        context: &UndoContext,
        mount: &MountConfig,
        id: &String,
        Ghost(g): Ghost<Ground>,
    ) -> (r: Option<HistoryError>)
        requires
            g.context == *context,
            g.mount == *mount,
        ensures
            has_come_to(*final(self), r, creation_archived(style, g, old(self).progress(), id@)),
    {
        let entity = match self.entity(context, id) {
            Some(entity) => entity,
            None => {
                return Some(
                    HistoryError::UnsafeUndoLocalState {
                        entity_id: id.clone(),
                        reason: "created entity disappeared during undo".to_string(),
                    },
                );
            },
        };
        let shadow = self.shadow(context, id);
        if mount.projection.uses_virtual_filesystem() {
            self.push(ReconcileStep::RememberContainers { entity_id: id.clone() });
        }
        let shadow = match shadow {
            Some(shadow) => shadow,
            None => {
                return Some(shadow_missing(context, id));
            },
        };
        let path = match undo::undo_projection_write_path(
            style,
            mount,
            &context.content_root,
            &entity.path,
        ) {
            Ok(path) => path,
            Err(error) => {
                return Some(error);
            },
        };
        let is_document = is_page_document_destination(style, &path);
        let parent = paths::parent(style, &path);
        self.push(ReconcileStep::RemoveFile { path, must_exist: true });
        if is_document {
            if let Some(parent) = parent {
                self.push(ReconcileStep::RemoveEmptyDirectory { path: parent });
            }
        }
        self.push(ReconcileStep::DeleteEntity { entity_id: id.clone() });
        self.forget(id.clone());
        if mount.projection == ProjectionMode::MacosFileProvider {
            self.push(
                ReconcileStep::Refresh {
                    refresh: UndoProjectionRefresh::MacosContainers {
                        entity_id: id.clone(),
                        with_current: false,
                    },
                },
            );
        } else if mount.projection == ProjectionMode::WindowsCloudFiles {
            if context.content_root.is_none() {
                return Some(
                    io_error("Windows Cloud Files undo reconciliation requires a state root"),
                );
            }
            self.push(
                ReconcileStep::Refresh {
                    refresh: UndoProjectionRefresh::WindowsCloudFilesRemovedEntity {
                        entity_id: id.clone(),
                        previous_path: entity.path,
                        previous_shadow: shadow,
                    },
                },
            );
        }
        None
    }
}

/// Whether an undo brings the visible copies of this projection up to date
/// file by file.
pub fn windows_undo_projection_refresh_enabled(projection: ProjectionMode) -> (r: bool)
    ensures
        r == (projection == ProjectionMode::WindowsCloudFiles),
{
    projection == ProjectionMode::WindowsCloudFiles
}

/// Whether a reconciliation is all that an undo changes locally.
pub open spec fn is_reconciled(
    style: PathStyle,
    g: Ground,
    entry: JournalEntry,
    changed: Seq<Seq<char>>,
    r: Reconciliation,
) -> bool {
    let p = reconciled(style, g, entry, changed);
    &&& step_views(r.steps@) == p.steps
    &&& match p.stop {
        Some(stop) => r.failure matches Some(e) && tells_stop(e, stop),
        None => r.failure is None,
    }
}

/// What an undo changes locally, or why it must not change anything: an
/// observation is missing or wrong, local state does not allow it, or
/// something stands in the way of an entity that comes back.
pub open spec fn reconciliation_result(
    style: PathStyle,
    context: UndoContext,
    entry: JournalEntry,
    plan: UndoPlan,
    changed: Seq<Seq<char>>,
    observations: Seq<RemoteObservation>,
    r: Result<Reconciliation, HistoryError>,
) -> bool {
    match undo::verdicts(
        style,
        context.store.entities@,
        entry,
        plan.operations@,
        changed,
        observations,
    ) {
        Err(refusal) => r matches Err(e) && undo::is_invalid(e, refusal.entity, refusal.why),
        Ok(confirmed) => if !undo::local_state_allows(style, context, entry, plan, Ok(())) {
            r matches Err(e) && undo::local_state_allows(style, context, entry, plan, Err(e))
        } else if changed.len() == 0 {
            r matches Ok(done) && done.steps@.len() == 0 && done.failure is None
        } else {
            match context.mount {
                None => r matches Err(HistoryError::MountNotFound(id)) && id == entry.mount_id,
                Some(mount) => match first_place_fault(
                    style,
                    context,
                    mount,
                    confirmed,
                    changed,
                    undo::preimage_entities(entry.preimages@),
                ) {
                    Some((id, fault)) => r matches Err(e) && tells_place_fault(e, id, fault),
                    None => r matches Ok(done) && is_reconciled(
                        style,
                        Ground {
                            context,
                            mount,
                            mount_id: entry.mount_id@,
                            operations: plan.operations@,
                            observations,
                            confirmed,
                        },
                        entry,
                        changed,
                        done,
                    ),
                },
            }
        },
    }
}

/// What an undo changes locally once the remote side has applied it, or why it
/// must not change anything.
pub fn reconcile_undo_preimages(
    style: PathStyle,
    context: &UndoContext,
    entry: &JournalEntry,
    plan: &UndoPlan,
    changed_remote_ids: &Vec<String>,
    observations: &Vec<RemoteObservation>,
) -> (r: Result<Reconciliation, HistoryError>)
    ensures
        reconciliation_result(
            style,
            *context,
            *entry,
            *plan,
            text::texts(changed_remote_ids@),
            observations@,
            r,
        ),
{
    let ghost changed = text::texts(changed_remote_ids@);
    let validated = match undo::validate_entity_undo_observations(
        style,
        &context.store,
        entry,
        plan,
        changed_remote_ids,
        observations,
    ) {
        Ok(validated) => validated,
        Err(error) => {
            return Err(error);
        },
    };
    match undo::preflight_undo_local_state(style, context, entry, plan) {
        Ok(()) => {},
        Err(error) => {
            return Err(error);
        },
    }
    let mut done = Work {
        steps: Vec::new(),
        saved_entities: Vec::new(),
        saved_shadows: Vec::new(),
    };
    assert(changed.len() == changed_remote_ids@.len());
    if changed_remote_ids.len() == 0 {
        return Ok(Reconciliation { steps: done.steps, failure: None });
    }
    let mount = match &context.mount {
        Some(mount) => mount,
        None => {
            return Err(HistoryError::MountNotFound(entry.mount_id.clone()));
        },
    };
    match preflight_undo_reconciliation_paths(
        style,
        context,
        mount,
        entry,
        changed_remote_ids,
        &validated,
    ) {
        Ok(()) => {},
        Err(error) => {
            return Err(error);
        },
    }
    let ghost g = ground(*context, *mount, *entry, *plan, observations@, validated@);
    let ghost start = no_progress();
    proof {
        assert(done.progress().steps =~= start.steps);
        assert(done.progress().entities =~= start.entities);
        assert(done.progress().shadows =~= start.shadows);
        assert(entry.preimages@.take(0) == Seq::<JournalPreimage>::empty());
    }
    let mut i: usize = 0;
    while i < entry.preimages.len()
        invariant
            i <= entry.preimages.len(),
            changed == text::texts(changed_remote_ids@),
            g == ground(*context, *mount, *entry, *plan, observations@, validated@),
            start == no_progress(),
            forall|k: int|
                0 <= k < validated@.len() ==> (#[trigger] validated@[k]).observation
                    < observations@.len(),
            done.progress() == preimages_restored(
                style,
                g,
                start,
                entry.preimages@.take(i as int),
                changed,
            ),
            forall|d: Reconciliation|
                is_reconciled(style, g, *entry, changed, d) ==> #[trigger] reconciliation_result(
                    style,
                    *context,
                    *entry,
                    *plan,
                    changed,
                    observations@,
                    Ok(d),
                ),
        decreases entry.preimages.len() - i,
    {
        let ghost now = entry.preimages@.take(i + 1);
        assert(now.drop_last() == entry.preimages@.take(i as int));
        assert(now.last() == entry.preimages@[i as int]);
        let preimage = &entry.preimages[i];
        if text::holds_text(changed_remote_ids, &preimage.entity_id) {
            let stopped = done.restore_preimage(
                style,
                context,
                mount,
                entry,
                plan,
                observations,
                &validated,
                preimage,
            );
            if stopped.is_some() {
                proof {
                    lemma_preimages_stopped(style, g, start, entry.preimages@, changed, i + 1);
                }
                let r = Reconciliation { steps: done.steps, failure: stopped };
                assert(is_reconciled(style, g, *entry, changed, r));
                return Ok(r);
            }
        }
        i += 1;
    }
    assert(entry.preimages@.take(i as int) == entry.preimages@);
    let ghost halfway = done.progress();
    let ids = undo::archived_creation_ids(&plan.operations);
    let ghost all = text::texts(ids@);
    let mut j: usize = 0;
    assert(all.take(0) == Seq::<Seq<char>>::empty());
    while j < ids.len()
        invariant
            j <= ids.len(),
            all == text::texts(ids@),
            all == undo::archived_creations(plan.operations@),
            g == ground(*context, *mount, *entry, *plan, observations@, validated@),
            halfway == preimages_restored(style, g, no_progress(), entry.preimages@, changed),
            halfway.stop is None,
            done.progress() == creations_archived(style, g, halfway, all.take(j as int)),
            forall|d: Reconciliation|
                is_reconciled(style, g, *entry, changed, d) ==> #[trigger] reconciliation_result(
                    style,
                    *context,
                    *entry,
                    *plan,
                    changed,
                    observations@,
                    Ok(d),
                ),
            changed == text::texts(changed_remote_ids@),
        decreases ids.len() - j,
    {
        assert(all.take(j + 1).drop_last() == all.take(j as int));
        assert(all.take(j + 1).last() == ids@[j as int]@);
        let stopped = done.archive_creation(style, context, mount, &ids[j], Ghost(g));
        if stopped.is_some() {
            proof {
                lemma_creations_stopped(style, g, halfway, all, j + 1);
            }
            let r = Reconciliation { steps: done.steps, failure: stopped };
            assert(is_reconciled(style, g, *entry, changed, r));
            return Ok(r);
        }
        j += 1;
    }
    assert(all.take(j as int) == all);
    let r = Reconciliation { steps: done.steps, failure: None };
    assert(is_reconciled(style, g, *entry, changed, r));
    Ok(r)
}

spec fn fits(step: StepView, projection: ProjectionMode) -> bool {
    match step {
        StepView::Refresh { refresh: RefreshView::Macos { .. } } => projection
            == ProjectionMode::MacosFileProvider,
        StepView::Refresh { .. } => projection == ProjectionMode::WindowsCloudFiles,
        _ => true,
    }
}

spec fn all_fit(p: Progress, projection: ProjectionMode) -> bool {
    forall|i: int| 0 <= i < p.steps.len() ==> #[trigger] fits(p.steps[i], projection)
}

proof fn lemma_preimage_fits(style: PathStyle, g: Ground, p: Progress, preimage: JournalPreimage)
    requires
        all_fit(p, g.mount.projection),
    ensures
        all_fit(preimage_restored(style, g, p, preimage), g.mount.projection),
{
    let after = preimage_restored(style, g, p, preimage);
    assert forall|i: int| 0 <= i < after.steps.len() implies #[trigger] fits(
        after.steps[i],
        g.mount.projection,
    ) by {
        if i < p.steps.len() {
            assert(fits(p.steps[i], g.mount.projection));
        }
    }
}

proof fn lemma_preimages_fit(
    style: PathStyle,
    g: Ground,
    p: Progress,
    preimages: Seq<JournalPreimage>,
    changed: Seq<Seq<char>>,
)
    requires
        all_fit(p, g.mount.projection),
    ensures
        all_fit(preimages_restored(style, g, p, preimages, changed), g.mount.projection),
    decreases preimages.len(),
{
    if preimages.len() > 0 {
        lemma_preimages_fit(style, g, p, preimages.drop_last(), changed);
        lemma_preimage_fits(
            style,
            g,
            preimages_restored(style, g, p, preimages.drop_last(), changed),
            preimages.last(),
        );
    }
}

proof fn lemma_creation_fits(style: PathStyle, g: Ground, p: Progress, id: Seq<char>)
    requires
        all_fit(p, g.mount.projection),
    ensures
        all_fit(creation_archived(style, g, p, id), g.mount.projection),
{
    let after = creation_archived(style, g, p, id);
    assert forall|i: int| 0 <= i < after.steps.len() implies #[trigger] fits(
        after.steps[i],
        g.mount.projection,
    ) by {
        if i < p.steps.len() {
            assert(fits(p.steps[i], g.mount.projection));
        }
    }
}

proof fn lemma_creations_fit(style: PathStyle, g: Ground, p: Progress, ids: Seq<Seq<char>>)
    requires
        all_fit(p, g.mount.projection),
    ensures
        all_fit(creations_archived(style, g, p, ids), g.mount.projection),
    decreases ids.len(),
{
    if ids.len() > 0 {
        lemma_creations_fit(style, g, p, ids.drop_last());
        lemma_creation_fits(style, g, creations_archived(style, g, p, ids.drop_last()), ids.last());
    }
}

/// What is to catch up after an undo is what its projection has: a macOS replica
/// is only told to, a visible file is rewritten under Windows alone, and plain
/// files and FUSE mounts have nothing to catch up.
pub proof fn law_refreshes_fit_the_projection(
    style: PathStyle,
    g: Ground,
    entry: JournalEntry,
    changed: Seq<Seq<char>>,
    i: int,
)
    requires
        0 <= i < reconciled(style, g, entry, changed).steps.len(),
    ensures
        reconciled(style, g, entry, changed).steps[i] matches StepView::Refresh { refresh } ==> {
            if refresh is Macos {
                g.mount.projection == ProjectionMode::MacosFileProvider
            } else {
                g.mount.projection == ProjectionMode::WindowsCloudFiles
            }
        },
{
    let p = preimages_restored(style, g, no_progress(), entry.preimages@, changed);
    lemma_preimages_fit(style, g, no_progress(), entry.preimages@, changed);
    lemma_creations_fit(style, g, p, undo::archived_creations(g.operations));
    assert(fits(reconciled(style, g, entry, changed).steps[i], g.mount.projection));
}

/// Whether an undo goes on to the remote side: the push was applied and the
/// plan takes all of it back.
pub open spec fn is_remote_undo(entry: JournalEntry, plan: UndoPlan) -> bool {
    &&& entry.status is Applied || entry.status is Reconciled
    &&& plan.status == UndoPlanStatus::Complete
}

/// Whether to have the remote side apply an undo plan. Where the answer is no,
/// the undo is a local one (see `history::run_undo`). A push that is not the
/// latest for one of its entities, or whose local state has changed since, is
/// refused before anything is applied.
pub fn begin_undo(
    style: PathStyle,
    context: &UndoContext,
    entry: &JournalEntry,
    plan: &UndoPlan,
    latest: &Vec<Option<String>>,
) -> (r: Result<bool, HistoryError>)
    ensures
        r matches Ok(apply) ==> apply == is_remote_undo(*entry, *plan),
        !is_remote_undo(*entry, *plan) ==> r is Ok,
        is_remote_undo(*entry, *plan) ==> {
            let ids = sorting::text_set(undo::touched(*entry, *plan));
            if !undo::is_latest_of(*entry, ids, latest@) {
                r matches Err(e) && undo::names_later_push(e, *entry, ids, latest@)
            } else {
                match r {
                    Ok(_) => undo::local_state_allows(style, *context, *entry, *plan, Ok(())),
                    Err(e) => undo::local_state_allows(style, *context, *entry, *plan, Err(e)),
                }
            }
        },
{
    let applied = match &entry.status {
        JournalStatus::Applied => true,
        JournalStatus::Reconciled => true,
        _ => false,
    };
    if !applied || plan.status != UndoPlanStatus::Complete {
        return Ok(false);
    }
    match undo::ensure_undo_target_is_latest(entry, plan, latest) {
        Ok(()) => {},
        Err(error) => {
            return Err(error);
        },
    }
    match undo::preflight_undo_local_state(style, context, entry, plan) {
        Ok(()) => Ok(true),
        Err(error) => Err(error),
    }
}

/// The action that a report names where the remote side refuses an undo plan.
pub open spec fn refusal_action(kind: LocalityErrorKind) -> Seq<char> {
    match kind {
        LocalityErrorKind::NotImplemented => "reverse_apply_not_implemented"@,
        LocalityErrorKind::RemoteNotFound => "reverse_apply_remote_not_found"@,
        LocalityErrorKind::UpdateRequired => "update_required"@,
        _ => "reverse_apply_failed"@,
    }
}

/// The report on an undo plan that the remote side refused.
pub fn refused_undo_report(entry: JournalEntry, plan: UndoPlan, error: LocalityError) -> (r:
    UndoReport)
    ensures
        history::reports(
            r,
            false,
            entry.status,
            refusal_action(error.kind),
            error.message@,
            entry,
        ),
        r.changed_remote_ids@.len() == 0,
        r.undo_plan matches Some(shown) && history::shows_undo_plan(plan, shown),
{
    let action = match error.kind {
        LocalityErrorKind::NotImplemented => "reverse_apply_not_implemented",
        LocalityErrorKind::RemoteNotFound => "reverse_apply_remote_not_found",
        LocalityErrorKind::UpdateRequired => "update_required",
        _ => "reverse_apply_failed",
    };
    let status = history::clone_status(&entry.status);
    history::undo_report(
        false,
        status,
        action,
        &error.message,
        entry,
        Vec::new(),
        Some(UndoPlanOutput::from(plan)),
    )
}

/// What an undo that the remote side applied changes locally: nothing where
/// the remote side left an entity out, else what reconciliation says.
pub fn finish_undo(
    style: PathStyle,
    context: &UndoContext,
    entry: &JournalEntry,
    plan: &UndoPlan,
    changed_remote_ids: &Vec<String>,
    observations: &Vec<RemoteObservation>,
) -> (r: Result<Reconciliation, HistoryError>)
    ensures
        ({
            let changed = text::texts(changed_remote_ids@);
            let left_out = undo::absent(
                sorting::text_set(undo::required(*entry, *plan)),
                changed,
            );
            if left_out.len() > 0 {
                r matches Err(HistoryError::IncompleteUndoApplyResult { missing }) && text::texts(
                    missing@,
                ) == left_out
            } else {
                reconciliation_result(style, *context, *entry, *plan, changed, observations@, r)
            }
        }),
{
    match undo::ensure_complete_undo_apply_result(entry, plan, changed_remote_ids) {
        Ok(()) => reconcile_undo_preimages(
            style,
            context,
            entry,
            plan,
            changed_remote_ids,
            observations,
        ),
        Err(error) => Err(error),
    }
}

/// The report on an undo that was applied and recorded.
pub fn applied_undo_report(
    entry: JournalEntry,
    plan: UndoPlan,
    changed_remote_ids: Vec<String>,
) -> (r: UndoReport)
    ensures
        history::reports(
            r,
            true,
            JournalStatus::Reverted,
            "reverse_applied"@,
            "remote undo applied and journal entry marked reverted"@,
            entry,
        ),
        r.changed_remote_ids == changed_remote_ids,
        r.undo_plan matches Some(shown) && history::shows_undo_plan(plan, shown),
{
    history::undo_report(
        true,
        JournalStatus::Reverted,
        "reverse_applied",
        "remote undo applied and journal entry marked reverted",
        entry,
        changed_remote_ids,
        Some(UndoPlanOutput::from(plan)),
    )
}

/// One thing that ends an undo.
#[derive(Debug, PartialEq, Eq)]
pub enum FinalStep {
    /// Mark the journal entry reverted.
    MarkReverted,
    /// Have a place outside the store catch up.
    Refresh(DueRefresh),
}

/// What has to catch up once an undo is marked.
#[derive(Debug, PartialEq, Eq)]
pub enum DueRefresh {
    /// The files that a provider shows.
    Replica(UndoProjectionRefresh),
    /// These containers of a macOS mount.
    Containers(Vec<String>),
}

/// The containers of an entity, where the store could tell them.
pub fn containers_found(found: Result<Vec<String>, String>) -> (r: Result<Vec<String>, StoreError>)
    ensures
        match found {
            Ok(identifiers) => r == Ok::<_, StoreError>(identifiers),
            Err(message) => r == Err::<Vec<String>, _>(
                StoreError { kind: StoreErrorKind::Io, message },
            ),
        },
{
    match found {
        Ok(identifiers) => Ok(identifiers),
        Err(message) => Err(StoreError { kind: StoreErrorKind::Io, message }),
    }
}

/// What has to catch up for a refresh. `before` are the containers that the
/// entity was in before the undo, and `current` those it is in now, which count
/// where the refresh asks for them.
pub fn due_refresh(
    refresh: UndoProjectionRefresh,
    before: Vec<String>,
    current: Result<Vec<String>, String>,
) -> (r: Result<DueRefresh, StoreError>)
    ensures
        match refresh {
            UndoProjectionRefresh::MacosContainers { with_current, .. } => if !with_current {
                r == Ok::<_, StoreError>(DueRefresh::Containers(before))
            } else {
                match current {
                    Ok(now) => r matches Ok(DueRefresh::Containers(all)) && all@ == before@ + now@,
                    Err(message) => r == Err::<DueRefresh, _>(
                        StoreError { kind: StoreErrorKind::Io, message },
                    ),
                }
            },
            _ => r == Ok::<_, StoreError>(DueRefresh::Replica(refresh)),
        },
{
    match refresh {
        UndoProjectionRefresh::MacosContainers { with_current, .. } => {
            let mut identifiers = before;
            if with_current {
                match containers_found(current) {
                    Ok(now) => {
                        let mut now = now;
                        identifiers.append(&mut now);
                    },
                    Err(error) => {
                        return Err(error);
                    },
                }
            }
            Ok(DueRefresh::Containers(identifiers))
        },
        other => Ok(DueRefresh::Replica(other)),
    }
}

/// How an undo ends once its local changes are made: the journal is marked
/// first, and then every place is asked to catch up, so that a place that
/// fails to does not leave the journal behind.
pub fn finalize_undo_after_reconcile(refreshes: Vec<DueRefresh>) -> (r: Vec<FinalStep>)
    ensures
        r@.len() == refreshes@.len() + 1,
        r@[0] == FinalStep::MarkReverted,
        forall|i: int|
            0 <= i < refreshes@.len() ==> #[trigger] r@[i + 1] == FinalStep::Refresh(refreshes@[i]),
{
    let ghost all = refreshes@;
    let mut steps: Vec<FinalStep> = Vec::new();
    steps.push(FinalStep::MarkReverted);
    for refresh in it: refreshes
        invariant
            it.seq() == all,
            steps@.len() == it.index() + 1,
            steps@[0] == FinalStep::MarkReverted,
            forall|i: int|
                0 <= i < it.index() ==> #[trigger] steps@[i + 1] == FinalStep::Refresh(all[i]),
    {
        steps.push(FinalStep::Refresh(refresh));
    }
    steps
}

/// What the places that were asked to catch up come to: the first failure, if
/// any failed.
pub fn first_refresh_failure(results: Vec<Result<(), HistoryError>>) -> (r: Result<(), HistoryError>)
    ensures
        match r {
            Ok(()) => forall|i: int| 0 <= i < results@.len() ==> #[trigger] results@[i] is Ok,
            Err(e) => exists|i: int|
                0 <= i < results@.len() && #[trigger] results@[i] == Err::<(), _>(e) && forall|
                    k: int,
                |
                    0 <= k < i ==> #[trigger] results@[k] is Ok,
        },
{
    let ghost all = results@;
    for result in it: results
        invariant
            it.seq() == all,
            forall|k: int| 0 <= k < it.index() ==> #[trigger] all[k] is Ok,
    {
        match result {
            Ok(()) => {},
            Err(error) => {
                assert(all[it.index() as int] == Err::<(), _>(error));
                return Err(error);
            },
        }
    }
    Ok(())
}

/// What a provider that shows files came to when asked to catch up: how many
/// files it left alone because they had changed, or why it failed.
pub fn apply_undo_projection_refresh(
    refresh: &UndoProjectionRefresh,
    outcome: Result<usize, String>,
) -> (r: Result<(), HistoryError>)
    requires
        !(*refresh is MacosContainers),
    ensures
        match outcome {
            Err(message) => r == Err::<(), _>(
                HistoryError::Store(StoreError { kind: StoreErrorKind::Io, message }),
            ),
            Ok(skipped) => match refresh {
                UndoProjectionRefresh::WindowsCloudFilesEntity { entity_id, .. } => if skipped > 0 {
                    r matches Err(e) && undo::is_unsafe(
                        e,
                        entity_id@,
                        "visible provider replica changed while remote undo was applying"@,
                    )
                } else {
                    r is Ok
                },
                UndoProjectionRefresh::WindowsCloudFilesRemovedEntity { previous_shadow, .. } =>
                if skipped > 0 {
                    r matches Err(e) && undo::is_unsafe(
                        e,
                        previous_shadow.entity_id@,
                        "visible provider replica changed while remote undo was applying"@,
                    )
                } else {
                    r is Ok
                },
                UndoProjectionRefresh::MacosContainers { .. } => r is Ok,
            },
        },
{
    let skipped: usize = match outcome {
        Ok(skipped) => skipped,
        Err(message) => {
            return Err(HistoryError::Store(StoreError { kind: StoreErrorKind::Io, message }));
        },
    };
    let entity_id = match refresh {
        UndoProjectionRefresh::WindowsCloudFilesEntity { entity_id, .. } => entity_id,
        UndoProjectionRefresh::WindowsCloudFilesRemovedEntity { previous_shadow, .. } =>
        &previous_shadow.entity_id,
        UndoProjectionRefresh::MacosContainers { .. } => {
            return Ok(());
        },
    };
    if skipped > 0 {
        return Err(
            HistoryError::UnsafeUndoLocalState {
                entity_id: entity_id.clone(),
                reason: "visible provider replica changed while remote undo was applying".to_string(),
            },
        );
    }
    Ok(())
}

/// The containers that are asked to catch up: those given and the working set,
/// each once, in order.
pub open spec fn signalled(identifiers: Seq<Seq<char>>) -> Seq<Seq<char>> {
    sorting::text_set(identifiers.push("working-set"@))
}

fn signal_order(identifiers: &Vec<String>) -> (r: Vec<String>)
    ensures
        text::texts(r@) == signalled(text::texts(identifiers@)),
{
    let ghost none = Seq::<Seq<char>>::empty();
    let ghost given = text::texts(identifiers@);
    let mut ids: Vec<String> = Vec::new();
    proof {
        assert(text::texts(ids@) =~= none);
        sorting::lemma_set_extend(none, given);
        assert(none + given =~= given);
    }
    sorting::insert_texts(&mut ids, identifiers);
    let working_set = "working-set".to_string();
    sorting::insert_text(&mut ids, &working_set);
    assert(given.push("working-set"@).drop_last() == given);
    ids
}

/// Asks each container of a macOS mount, in order, to catch up, and stops at
/// the first that fails to. Mounts of another projection have none.
pub fn signal_macos_projection_identifiers_with<F: Fn(&str, &str) -> Result<(), String>>(
    mount: &MountConfig,
    identifiers: Vec<String>,
    refresh: F,
) -> (r: Result<(), HistoryError>)
    requires
        forall|a: &str, b: &str| call_requires(refresh, (a, b)),
    ensures
        mount.projection != ProjectionMode::MacosFileProvider ==> r is Ok,
        mount.projection == ProjectionMode::MacosFileProvider ==> signal_outcome(
            refresh,
            *mount,
            signalled(text::texts(identifiers@)),
            r,
        ),
{
    if mount.projection != ProjectionMode::MacosFileProvider {
        return Ok(());
    }
    let ordered = signal_order(&identifiers);
    let ghost ids = text::texts(ordered@);
    let mut i: usize = 0;
    while i < ordered.len()
        invariant
            i <= ordered.len(),
            ids == text::texts(ordered@),
            ids == signalled(text::texts(identifiers@)),
            mount.projection == ProjectionMode::MacosFileProvider,
            forall|a: &str, b: &str| call_requires(refresh, (a, b)),
            forall|k: int|
                0 <= k < i ==> #[trigger] caught_up(refresh, mount.mount_id@, ids[k]),
        decreases ordered.len() - i,
    {
        let mount_id = mount.mount_id.as_str();
        let identifier = ordered[i].as_str();
        let answer = refresh(mount_id, identifier);
        assert(call_ensures(refresh, (mount_id, identifier), answer));
        assert(identifier@ == ids[i as int]);
        match answer {
            Ok(()) => {
                assert(caught_up(refresh, mount.mount_id@, ids[i as int]));
            },
            Err(reason) => {
                let identifier = ordered[i].clone();
                let mount_id = mount.mount_id.clone();
                let ghost why = reason;
                let failure: Result<(), HistoryError> = Err(
                    HistoryError::UndoProjectionRefreshFailed { mount_id, identifier, reason },
                );
                proof {
                    assert(fell_behind(refresh, mount.mount_id@, ids[i as int], why));
                    assert(stopped_at(
                        refresh,
                        mount.mount_id@,
                        ids,
                        i as int,
                        ids[i as int],
                        why,
                    ));
                    assert(failure matches Err(HistoryError::UndoProjectionRefreshFailed {
                        mount_id: m,
                        identifier: id,
                        reason: w,
                    }) && m == mount.mount_id && stopped_at(
                        refresh,
                        mount.mount_id@,
                        ids,
                        i as int,
                        id@,
                        w,
                    ));
                    assert(signal_outcome(refresh, *mount, ids, failure));
                }
                return failure;
            },
        }
        i += 1;
    }
    Ok(())
}

/// What asking containers in order to catch up can come to.
pub open spec fn signal_outcome<F: Fn(&str, &str) -> Result<(), String>>(
    refresh: F,
    mount: MountConfig,
    ids: Seq<Seq<char>>,
    r: Result<(), HistoryError>,
) -> bool {
    match r {
        Ok(_) => forall|i: int|
            0 <= i < ids.len() ==> #[trigger] caught_up(refresh, mount.mount_id@, ids[i]),
        Err(HistoryError::UndoProjectionRefreshFailed { mount_id, identifier, reason }) => {
            &&& mount_id == mount.mount_id
            &&& exists|i: int|
                #[trigger] stopped_at(refresh, mount.mount_id@, ids, i, identifier@, reason)
        },
        Err(_) => false,
    }
}

/// Whether the containers can have caught up in order up to the `i`-th, which
/// failed for this reason.
pub open spec fn stopped_at<F: Fn(&str, &str) -> Result<(), String>>(
    refresh: F,
    mount_id: Seq<char>,
    ids: Seq<Seq<char>>,
    i: int,
    identifier: Seq<char>,
    reason: String,
) -> bool {
    &&& 0 <= i < ids.len()
    &&& identifier == ids[i]
    &&& fell_behind(refresh, mount_id, ids[i], reason)
    &&& forall|k: int| 0 <= k < i ==> #[trigger] caught_up(refresh, mount_id, ids[k])
}

/// Whether a container can have caught up when asked to.
pub open spec fn caught_up<F: Fn(&str, &str) -> Result<(), String>>(
    refresh: F,
    mount_id: Seq<char>,
    identifier: Seq<char>,
) -> bool {
    exists|a: &str, b: &str, answer: Result<(), String>|
        a@ == mount_id && b@ == identifier && answer is Ok && #[trigger] call_ensures(
            refresh,
            (a, b),
            answer,
        )
}

/// Whether a container can have failed for this reason when asked to catch up.
pub open spec fn fell_behind<F: Fn(&str, &str) -> Result<(), String>>(
    refresh: F,
    mount_id: Seq<char>,
    identifier: Seq<char>,
    reason: String,
) -> bool {
    exists|a: &str, b: &str, answer: Result<(), String>|
        a@ == mount_id && b@ == identifier && (answer matches Err(why) && why == reason)
            && #[trigger] call_ensures(refresh, (a, b), answer)
}

} // verus!
