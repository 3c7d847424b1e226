//! How a hosted workspace is attached, and what stands in its way.
use crate::hosted_flow;
use crate::hosted_flow::{
    AttachAction, AttachProgress, AttachRequest, KnownAttachment, Negotiated, SeenRoot,
};
use crate::hosted_state;
use crate::hosted_state::{
    Claim, Exemption, HostedWorkspaceAttachment, HostedWorkspaceCleanup,
    HostedWorkspaceMountMapping, PendingHostedWorkspaceTransition,
    PreparedHostedWorkspaceTransition, ProfileSession, PublicationMetadata, SessionMount,
};
use crate::hosted_workspace;
use crate::hosted_workspace::{
    HostedWorkspaceAttachError, HostedWorkspaceIdentity, HostedWorkspaceListEntry,
    HostedWorkspaceOperation,
};
use crate::ordered_map;
use crate::ordered_map::Entry;
use crate::paths;
use crate::paths::PathStyle;
use crate::text;
use vstd::prelude::*;

verus! {

/// Whether what was published is what a transition meant to publish.
pub open spec fn is_what_was_meant(
    published: PublicationMetadata,
    meant: PreparedHostedWorkspaceTransition,
) -> bool {
    &&& published.profile_id@ == meant.identity.profile_id@
    &&& published.profile_revision == meant.profile_revision
    &&& published.layout_version == meant.layout_version
    &&& published.layout_digest@ == meant.layout_digest@
}

/// Whether what was published is what is attached.
pub open spec fn is_what_is_attached(
    published: PublicationMetadata,
    profile_id: Seq<char>,
    attachment: HostedWorkspaceAttachment,
) -> bool {
    &&& published.profile_id@ == profile_id
    &&& published.profile_revision == attachment.profile_revision
    &&& published.layout_version == attachment.layout_version
    &&& published.layout_digest@ == attachment.layout_digest@
}

/// Recovery commits a transition exactly where what it meant to publish is published and
/// verified. It takes one back exactly where nothing was published, or where what is published
/// is still what was attached there before. Without a transition it cleans up, unless what is
/// attached cannot be verified. All else it refuses.
pub proof fn law_recovery_goes_by_what_is_published(
    style: PathStyle,
    identity: HostedWorkspaceIdentity,
    attachment: Option<&HostedWorkspaceAttachment>,
    pending: Option<&PendingHostedWorkspaceTransition>,
    root: Seq<char>,
    verified: bool,
    root_exists: bool,
    receipt: Option<&PublicationMetadata>,
)
    requires
        pending matches Some(p) ==> p.prepared.identity.profile_id@ == identity.profile_id@,
    ensures
        ({
            let verdict = hosted_state::recovery_verdict(
                style,
                identity,
                attachment,
                pending,
                root,
                verified,
                root_exists,
                receipt,
            );
            let meant = pending is Some && receipt is Some && is_what_was_meant(
                *receipt->0,
                pending->0.prepared,
            );
            let attached = receipt is Some && attachment is Some && paths::same(
                style,
                attachment->0.root@,
                root,
            ) && is_what_is_attached(*receipt->0, identity.profile_id@, *attachment->0);
            &&& verdict is Commit <==> pending is Some && verified && meant
            &&& verdict is Cancel <==> pending is Some && ((!verified && !root_exists) || (verified
                && !meant && attached))
            &&& verdict is CleanUp <==> pending is None && (verified || attachment is None)
        }),
{
}

/// Whether a root is claimed by one of the records that no exemption spares.
pub open spec fn is_claimed<C: Claim>(
    style: PathStyle,
    records: Seq<C>,
    exemption: Exemption,
    root: Seq<char>,
) -> bool {
    exists|i: int|
        0 <= i < records.len() && (#[trigger] records[i]).claimed() == root && !exemption.spares(
            style,
            records[i].claimant(),
            records[i].claimed(),
        )
}

/// Whether one of the places of a list is a root.
pub open spec fn lists_root(places: Seq<(Seq<char>, Seq<char>)>, root: Seq<char>) -> bool {
    exists|k: int| 0 <= k < places.len() && (#[trigger] places[k]).1 == root
}

proof fn lemma_claims<C: Claim>(
    style: PathStyle,
    prefix: Seq<char>,
    records: Seq<C>,
    exemption: Exemption,
    root: Seq<char>,
)
    ensures
        lists_root(hosted_state::claims(style, prefix, records, exemption), root) == is_claimed(
            style,
            records,
            exemption,
            root,
        ),
    decreases records.len(),
{
    let all = hosted_state::claims(style, prefix, records, exemption);
    if records.len() > 0 {
        let front = records.drop_last();
        let before = hosted_state::claims(style, prefix, front, exemption);
        lemma_claims(style, prefix, front, exemption, root);
        if lists_root(all, root) {
            let k = choose|k: int| 0 <= k < all.len() && (#[trigger] all[k]).1 == root;
            if k < before.len() {
                assert(before[k].1 == root);
                let i = choose|i: int|
                    0 <= i < front.len() && (#[trigger] front[i]).claimed() == root
                        && !exemption.spares(style, front[i].claimant(), front[i].claimed());
                assert(records[i].claimed() == root);
            } else {
                assert(records[records.len() - 1].claimed() == root);
            }
        }
        if is_claimed(style, records, exemption, root) {
            let i = choose|i: int|
                0 <= i < records.len() && (#[trigger] records[i]).claimed() == root
                    && !exemption.spares(style, records[i].claimant(), records[i].claimed());
            if i < front.len() {
                assert(front[i].claimed() == root);
                let k = choose|k: int| 0 <= k < before.len() && (#[trigger] before[k]).1 == root;
                assert(all[k].1 == root);
            } else {
                assert(all[before.len() as int].1 == root);
            }
        }
    }
}

proof fn lemma_lists_sum(
    a: Seq<(Seq<char>, Seq<char>)>,
    b: Seq<(Seq<char>, Seq<char>)>,
    root: Seq<char>,
)
    ensures
        lists_root(a + b, root) == (lists_root(a, root) || lists_root(b, root)),
{
    let all = a + b;
    if lists_root(a, root) {
        let k = choose|k: int| 0 <= k < a.len() && (#[trigger] a[k]).1 == root;
        assert(all[k].1 == root);
    }
    if lists_root(b, root) {
        let k = choose|k: int| 0 <= k < b.len() && (#[trigger] b[k]).1 == root;
        assert(all[a.len() + k].1 == root);
    }
    if lists_root(all, root) {
        let k = choose|k: int| 0 <= k < all.len() && (#[trigger] all[k]).1 == root;
        if k < a.len() {
            assert(a[k].1 == root);
        } else {
            assert(b[k - a.len()].1 == root);
        }
    }
}

proof fn lemma_obstacles(
    style: PathStyle,
    mounts: Seq<(Seq<char>, Seq<char>)>,
    attachments: Seq<HostedWorkspaceAttachment>,
    pending: Seq<PendingHostedWorkspaceTransition>,
    cleanups: Seq<HostedWorkspaceCleanup>,
    at: Exemption,
    of: Exemption,
    root: Seq<char>,
)
    ensures
        lists_root(
            hosted_state::obstacles(style, mounts, attachments, pending, cleanups, at, of),
            root,
        ) == (lists_root(mounts, root) || is_claimed(style, attachments, at, root) || is_claimed(
            style,
            pending,
            of,
            root,
        ) || is_claimed(style, cleanups, at, root)),
{
    let a = hosted_state::claims(style, "hosted-workspace-"@, attachments, at);
    let p = hosted_state::claims(style, "pending-hosted-workspace-"@, pending, of);
    let c = hosted_state::claims(style, "cleanup-hosted-workspace-"@, cleanups, at);
    lemma_claims(style, "hosted-workspace-"@, attachments, at, root);
    lemma_claims(style, "pending-hosted-workspace-"@, pending, of, root);
    lemma_claims(style, "cleanup-hosted-workspace-"@, cleanups, at, root);
    lemma_lists_sum(mounts, a, root);
    lemma_lists_sum(mounts + a, p, root);
    lemma_lists_sum(mounts + a + p, c, root);
}

/// Whether two profiles are one.
pub open spec fn is_one_profile(a: HostedWorkspaceIdentity, b: HostedWorkspaceIdentity) -> bool {
    a.api_origin@ == b.api_origin@ && a.profile_id@ == b.profile_id@
}

/// What stands in the way of a hosted workspace are all mounts, the roots of all other profiles,
/// attached, about to be or waiting to be cleaned up, and its own roots elsewhere; and
/// nothing else.
pub proof fn law_hosted_workspaces_keep_out_of_other_roots(
    style: PathStyle,
    mounts: Seq<(Seq<char>, Seq<char>)>,
    attachments: Seq<HostedWorkspaceAttachment>,
    pending: Seq<PendingHostedWorkspaceTransition>,
    cleanups: Seq<HostedWorkspaceCleanup>,
    identity: HostedWorkspaceIdentity,
    root: &str,
    place: Seq<char>,
)
    ensures
        lists_root(
            hosted_state::obstacles(
                style,
                mounts,
                attachments,
                pending,
                cleanups,
                Exemption::OwnerAt(&identity, root),
                Exemption::Owner(&identity),
            ),
            place,
        ) <==> {
            ||| lists_root(mounts, place)
            ||| exists|i: int|
                0 <= i < attachments.len() && (#[trigger] attachments[i]).root@ == place && !(
                is_one_profile(attachments[i].identity, identity) && paths::same(
                    style,
                    attachments[i].root@,
                    root@,
                ))
            ||| exists|i: int|
                0 <= i < pending.len() && (#[trigger] pending[i]).prepared.target_root@ == place
                    && !is_one_profile(pending[i].prepared.identity, identity)
            ||| exists|i: int|
                0 <= i < cleanups.len() && (#[trigger] cleanups[i]).root@ == place && !(
                is_one_profile(cleanups[i].identity, identity) && paths::same(
                    style,
                    cleanups[i].root@,
                    root@,
                ))
        },
{
    lemma_obstacles(
        style,
        mounts,
        attachments,
        pending,
        cleanups,
        Exemption::OwnerAt(&identity, root),
        Exemption::Owner(&identity),
        place,
    );
}

proof fn lemma_other_mounts(
    mounts: Seq<(Seq<char>, Seq<char>)>,
    mount_id: Seq<char>,
    place: Seq<char>,
)
    ensures
        lists_root(hosted_state::other_mounts(mounts, mount_id), place) <==> exists|i: int|
            0 <= i < mounts.len() && (#[trigger] mounts[i]).1 == place && mounts[i].0 != mount_id,
    decreases mounts.len(),
{
    reveal(Seq::filter);
    let all = hosted_state::other_mounts(mounts, mount_id);
    if mounts.len() > 0 {
        let front = mounts.drop_last();
        let before = hosted_state::other_mounts(front, mount_id);
        lemma_other_mounts(front, mount_id, place);
        if lists_root(all, place) {
            let k = choose|k: int| 0 <= k < all.len() && (#[trigger] all[k]).1 == place;
            if k < before.len() {
                assert(before[k].1 == place);
                let i = choose|i: int|
                    0 <= i < front.len() && (#[trigger] front[i]).1 == place && front[i].0
                        != mount_id;
                assert(mounts[i].1 == place);
            } else {
                assert(mounts[mounts.len() - 1].1 == place);
            }
        }
        if exists|i: int|
            0 <= i < mounts.len() && (#[trigger] mounts[i]).1 == place && mounts[i].0
                != mount_id {
            let i = choose|i: int|
                0 <= i < mounts.len() && (#[trigger] mounts[i]).1 == place && mounts[i].0
                    != mount_id;
            if i < front.len() {
                assert(front[i].1 == place);
                let k = choose|k: int| 0 <= k < before.len() && (#[trigger] before[k]).1 == place;
                assert(all[k].1 == place);
            } else {
                assert(all[before.len() as int].1 == place);
            }
        }
    }
}

/// What stands in the way of a mount of a source are all other mounts and the roots of all hosted
/// workspaces, attached, about to be or waiting to be cleaned up; and nothing else.
pub proof fn law_mounts_keep_out_of_hosted_roots(
    style: PathStyle,
    mounts: Seq<(Seq<char>, Seq<char>)>,
    attachments: Seq<HostedWorkspaceAttachment>,
    pending: Seq<PendingHostedWorkspaceTransition>,
    cleanups: Seq<HostedWorkspaceCleanup>,
    mount_id: Seq<char>,
    place: Seq<char>,
)
    ensures
        lists_root(
            hosted_state::obstacles(
                style,
                hosted_state::other_mounts(mounts, mount_id),
                attachments,
                pending,
                cleanups,
                Exemption::Nobody,
                Exemption::Nobody,
            ),
            place,
        ) <==> {
            ||| exists|i: int|
                0 <= i < mounts.len() && (#[trigger] mounts[i]).1 == place && mounts[i].0
                    != mount_id
            ||| exists|i: int|
                0 <= i < attachments.len() && (#[trigger] attachments[i]).root@ == place
            ||| exists|i: int|
                0 <= i < pending.len() && (#[trigger] pending[i]).prepared.target_root@ == place
            ||| exists|i: int| 0 <= i < cleanups.len() && (#[trigger] cleanups[i]).root@ == place
        },
{
    lemma_other_mounts(mounts, mount_id, place);
    lemma_obstacles(
        style,
        hosted_state::other_mounts(mounts, mount_id),
        attachments,
        pending,
        cleanups,
        Exemption::Nobody,
        Exemption::Nobody,
        place,
    );
    assert(is_claimed(style, attachments, Exemption::Nobody, place) <==> exists|i: int|
        0 <= i < attachments.len() && (#[trigger] attachments[i]).root@ == place);
    assert(is_claimed(style, pending, Exemption::Nobody, place) <==> exists|i: int|
        0 <= i < pending.len() && (#[trigger] pending[i]).prepared.target_root@ == place);
    assert(is_claimed(style, cleanups, Exemption::Nobody, place) <==> exists|i: int|
        0 <= i < cleanups.len() && (#[trigger] cleanups[i]).root@ == place);
}

/// A transition is taken for unchanged only where all that it holds is: what it is, whose, where,
/// of which revision and layout, and every mount of it.
pub proof fn law_changed_transitions_are_noticed(
    style: PathStyle,
    actual: Option<&PendingHostedWorkspaceTransition>,
    expected: PendingHostedWorkspaceTransition,
)
    requires
        hosted_state::is_unchanged(style, actual, expected),
    ensures
        actual matches Some(found) && {
            let a = found.prepared;
            let b = expected.prepared;
            &&& found.kind == expected.kind
            &&& a.transition_id@ == b.transition_id@
            &&& is_one_profile(a.identity, b.identity)
            &&& a.credential_ref@ == b.credential_ref@
            &&& paths::same(style, a.target_root@, b.target_root@)
            &&& a.profile_revision == b.profile_revision
            &&& a.layout_version == b.layout_version
            &&& a.layout_digest@ == b.layout_digest@
            &&& a.prepared_at@ == b.prepared_at@
            &&& a.mappings@.len() == b.mappings@.len()
            &&& forall|k: int|
                0 <= k < a.mappings@.len() ==> {
                    &&& (#[trigger] a.mappings@[k]).portable_mount_id@
                        == b.mappings@[k].portable_mount_id@
                    &&& a.mappings@[k].local_mount_id@ == b.mappings@[k].local_mount_id@
                    &&& a.mappings@[k].mount_target@ == b.mappings@[k].mount_target@
                    &&& a.mappings@[k].profile_revision == b.mappings@[k].profile_revision
                    &&& a.mappings@[k].active == b.mappings@[k].active
                }
        },
{
}

/// A transition is raced exactly where it moves a workspace to a place that something has taken
/// since.
pub proof fn law_only_relocations_are_raced(
    pending: PendingHostedWorkspaceTransition,
    root_exists: bool,
)
    ensures
        hosted_state::is_raced(pending, root_exists) <==> pending.kind is Relocate
            && root_exists,
{
}

proof fn lemma_last_entry(entries: Seq<SessionMount>, i: int)
    requires
        0 <= i < entries.len(),
        !hosted_state::is_ambiguous(entries),
    ensures
        ordered_map::latest(entries, seq![entries[i].mount_id@]) matches Some(e) && e.mount_id@
            == entries[i].mount_id@ && e.target@ == entries[i].target@,
{
    let key = seq![entries[i].mount_id@];
    ordered_map::lemma_latest(entries, key);
    if let Some(e) = ordered_map::latest(entries, key) {
        let k = choose|k: int| 0 <= k < entries.len() && #[trigger] entries[k] == e;
        assert(e.entry_key()[0] == key[0]);
        if k < i {
            assert(entries[k].mount_id@ == entries[i].mount_id@);
        } else if i < k {
            assert(entries[i].mount_id@ == entries[k].mount_id@);
        }
    } else {
        assert(entries[i].entry_key() == key);
    }
}

/// A transition that is prepared has a place for every mount of the session, at its target and of
/// the revision of the session; a mount that has been here before keeps its identifier. It
/// is of the profile, the credential and the root that it was asked for.
pub proof fn law_transitions_map_every_mount(
    r: Result<PreparedHostedWorkspaceTransition, HostedWorkspaceAttachError>,
    identity: HostedWorkspaceIdentity,
    credential_ref: Seq<char>,
    root: Seq<char>,
    session: ProfileSession,
    existing: Seq<HostedWorkspaceMountMapping>,
    drawn: Result<Vec<u8>, String>,
    now: Seq<char>,
    i: int,
)
    requires
        hosted_state::follows_draw(
            r,
            identity,
            credential_ref,
            root,
            session,
            existing,
            drawn,
            now,
        ),
        r is Ok,
        0 <= i < session.entries@.len(),
    ensures
        ({
            let p = r->Ok_0;
            &&& p.identity == identity
            &&& p.credential_ref@ == credential_ref
            &&& p.target_root@ == root
            &&& p.profile_revision == session.profile_revision
            &&& p.layout_version == session.layout_version
            &&& p.layout_digest@ == session.layout_digest@
            &&& p.prepared_at@ == now
            &&& exists|k: int|
                0 <= k < p.mappings@.len() && {
                    let m = #[trigger] p.mappings@[k];
                    &&& m.portable_mount_id@ == session.entries@[i].mount_id@
                    &&& m.mount_target@ == session.entries@[i].target@
                    &&& m.profile_revision == session.profile_revision
                    &&& m.active
                    &&& forall|e: int|
                        0 <= e < existing.len() && (#[trigger] existing[e]).portable_mount_id@
                            == m.portable_mount_id@ && (forall|f: int|
                            e < f < existing.len() ==> (#[trigger] existing[f]).portable_mount_id@
                                != m.portable_mount_id@) ==> m.local_mount_id@
                            == existing[e].local_mount_id@
                }
        }),
{
    let p = r->Ok_0;
    let entries = session.entries@;
    let key = seq![entries[i].mount_id@];
    let mounts = ordered_map::collected(entries);
    lemma_last_entry(entries, i);
    ordered_map::law_collected_is_a_map(entries, key);
    ordered_map::lemma_latest(mounts, key);
    let e = ordered_map::latest(entries, key)->0;
    let k = choose|k: int| 0 <= k < mounts.len() && #[trigger] mounts[k] == e;
    let m = p.mappings@[k];
    assert forall|e: int|
        0 <= e < existing.len() && (#[trigger] existing[e]).portable_mount_id@
            == m.portable_mount_id@ && (forall|f: int|
            e < f < existing.len() ==> (#[trigger] existing[f]).portable_mount_id@
                != m.portable_mount_id@) implies m.local_mount_id@
        == existing[e].local_mount_id@ by {
        lemma_latest_is(existing, e, m.portable_mount_id@);
    }
}

proof fn lemma_latest_is(s: Seq<HostedWorkspaceMountMapping>, e: int, id: Seq<char>)
    requires
        0 <= e < s.len(),
        s[e].portable_mount_id@ == id,
        forall|f: int| e < f < s.len() ==> (#[trigger] s[f]).portable_mount_id@ != id,
    ensures
        ordered_map::latest(s, seq![id]) == Some(s[e]),
    decreases s.len(),
{
    if e < s.len() - 1 {
        let front = s.drop_last();
        assert(s.last() == s[s.len() - 1]);
        assert(s.last().entry_key()[0] != id);
        assert(seq![id][0] == id);
        assert(forall|f: int| 0 <= f < front.len() ==> #[trigger] front[f] == s[f]);
        lemma_latest_is(front, e, id);
    }
}

/// A session that names two targets for one mount prepares nothing.
pub proof fn law_ambiguous_sessions_prepare_nothing(
    r: Result<PreparedHostedWorkspaceTransition, HostedWorkspaceAttachError>,
    identity: HostedWorkspaceIdentity,
    credential_ref: Seq<char>,
    root: Seq<char>,
    session: ProfileSession,
    existing: Seq<HostedWorkspaceMountMapping>,
    drawn: Result<Vec<u8>, String>,
    now: Seq<char>,
)
    requires
        hosted_state::follows_draw(
            r,
            identity,
            credential_ref,
            root,
            session,
            existing,
            drawn,
            now,
        ),
    ensures
        r is Ok <==> drawn is Ok && forall|i: int, j: int|
            0 <= i < j < session.entries@.len() && (#[trigger] session.entries@[i]).mount_id@ == (
            #[trigger] session.entries@[j]).mount_id@ ==> session.entries@[i].target@
                == session.entries@[j].target@,
{
}

/// An operation goes ahead exactly in the state that it is for: attaching what is not attached,
/// refreshing what is attached at the same root, moving what is attached to another; without
/// one named, what is attached stays at its root.
pub proof fn law_operations_go_ahead_in_their_state(
    operation: Option<HostedWorkspaceOperation>,
    attached: bool,
    same_root: bool,
)
    ensures
        hosted_workspace::operation_refusal(operation, attached, same_root) is None <==> match
            operation {
            Some(HostedWorkspaceOperation::Attach) => !attached,
            Some(HostedWorkspaceOperation::Refresh) => attached && same_root,
            Some(HostedWorkspaceOperation::Relocate) => attached && !same_root,
            None => !attached || same_root,
        },
{
}

/// A list of hosted workspaces shows each as it is attached, with each of its mounts.
pub proof fn law_hosted_workspaces_are_listed_as_they_are(
    entry: HostedWorkspaceListEntry,
    attachment: HostedWorkspaceAttachment,
    mappings: Seq<HostedWorkspaceMountMapping>,
)
    requires
        hosted_state::is_list_entry(entry, attachment, mappings),
    ensures
        entry.api_origin@ == attachment.identity.api_origin@,
        entry.profile_id@ == attachment.identity.profile_id@,
        entry.profile_revision == attachment.profile_revision,
        entry.root@ == attachment.root@,
        entry.layout_version == attachment.layout_version,
        entry.layout_digest@ == attachment.layout_digest@,
        entry.mounts@.len() == mappings.len(),
        forall|k: int|
            0 <= k < mappings.len() ==> {
                let m = #[trigger] mappings[k];
                &&& entry.mounts@[k].portable_mount_id@ == m.portable_mount_id@
                &&& entry.mounts@[k].local_mount_id@ == m.local_mount_id@
                &&& entry.mounts@[k].mount_target@ == m.mount_target@
                &&& entry.mounts@[k].active == m.active
            },
{
}

/// A root can be used exactly where its parent is a real directory and, for a move, nothing is
/// there.
pub proof fn law_roots_need_a_real_parent(
    style: PathStyle,
    operation: Option<HostedWorkspaceOperation>,
    root: Seq<char>,
    seen: SeenRoot,
)
    ensures
        hosted_flow::place_refusal(style, operation, root, seen) is None <==> {
            &&& paths::parent_of(style, root) is Some
            &&& seen.parent is RealDirectory
            &&& operation == Some(HostedWorkspaceOperation::Relocate) ==> !seen.exists
        },
{
}

/// The root that is worked on is absolute and goes nowhere but down.
pub proof fn law_roots_go_nowhere_but_down(
    style: PathStyle,
    root: Seq<char>,
    current_dir: Result<String, String>,
)
    ensures
        hosted_flow::whole_root(style, root, current_dir) matches Ok(whole) ==> {
            &&& forall|i: int|
                0 <= i < paths::components(style, whole).len() ==> !((#[trigger] paths::components(
                    style,
                    whole,
                )[i]) is Parent) && !(paths::components(style, whole)[i] is Current)
            &&& paths::absolute(style, root) ==> whole == root
            &&& !paths::absolute(style, root) ==> current_dir is Ok && whole == paths::joined(
                style,
                current_dir->Ok_0@,
                root,
            )
        },
{
}

/// What a workspace that is refreshed is written to is the root that is on record; a new one, and
/// one that moves, is written to the root that was asked for.
pub proof fn law_refreshed_workspaces_stay_where_they_are(
    operation: Option<HostedWorkspaceOperation>,
    root: Seq<char>,
    known: KnownAttachment,
)
    ensures
        (operation is None || operation == Some(HostedWorkspaceOperation::Refresh))
            && known.root is Some ==> hosted_flow::kept_root(operation, root, known)
            == known.root->0@,
        operation == Some(HostedWorkspaceOperation::Attach) || operation == Some(
            HostedWorkspaceOperation::Relocate,
        ) || known.root is None ==> hosted_flow::kept_root(operation, root, known) == root,
{
}

/// The report on an attached workspace is on the profile that was opened, at the root that was
/// kept, with the counts of what was published.
pub proof fn law_attach_reports_tell_what_was_published(
    style: PathStyle,
    request: AttachRequest,
    p: AttachProgress,
    r: AttachAction,
)
    requires
        hosted_flow::follows_attach(style, request, p, r),
        r is Report,
    ensures
        p.session matches Some(Ok(Negotiated::GenerationTwo(profile))) && {
            let report = r->Report_0;
            let done = p.published->0->Ok_0;
            &&& report.ok
            &&& report.api_origin@ == profile.identity.api_origin@
            &&& report.profile_id@ == profile.identity.profile_id@
            &&& report.profile_revision == profile.session.profile_revision
            &&& report.files == done.files
            &&& report.directories == done.directories
            &&& report.materialized_bytes == done.content_bytes
            &&& done.committed
            &&& p.known matches Some(Ok(known)) && report.root@ == hosted_flow::kept_root(
                request.operation,
                hosted_flow::whole_root(style, request.root@, request.current_dir)->Ok_0,
                known,
            )
        },
{
}

/// Profiles of the first generation are never attached, and what failed on the way is what an
/// attachment fails with.
pub proof fn law_attaching_fails_as_its_steps_do(
    style: PathStyle,
    request: AttachRequest,
    p: AttachProgress,
    r: AttachAction,
)
    requires
        hosted_flow::follows_attach(style, request, p, r),
        !(r is Fail || r is LookAt),
    ensures
        p.seen matches Some(seen) && hosted_flow::place_refusal(
            style,
            request.operation,
            hosted_flow::whole_root(style, request.root@, request.current_dir)->Ok_0,
            seen,
        ) is None,
        !(r is OpenSession) ==> (p.session matches Some(Ok(Negotiated::GenerationTwo(_)))),
        !(r is OpenSession || r is Recover) ==> (p.recovered matches Some(Ok(_))),
        !(r is OpenSession || r is Recover || r is LookUp) ==> (p.known matches Some(Ok(known))
            && hosted_workspace::operation_refusal(
            request.operation,
            known.root is Some,
            known.same_root,
        ) is None),
        r is CleanUp || r is Report ==> (p.published matches Some(Ok(done)) && done.committed),
{
}

/// Every attachment, unfinished transition and cleanup is recovered, and nothing else is.
pub proof fn law_all_that_was_begun_is_recovered(
    attachments: Seq<HostedWorkspaceAttachment>,
    pending: Seq<PendingHostedWorkspaceTransition>,
    cleanups: Seq<HostedWorkspaceCleanup>,
    k: int,
)
    requires
        0 <= k < attachments.len() + pending.len() + cleanups.len(),
    ensures
        ({
            let all = hosted_state::recovery_records(attachments, pending, cleanups);
            let a = attachments.len() as int;
            let b = a + pending.len();
            &&& all.len() == attachments.len() + pending.len() + cleanups.len()
            &&& k < a ==> all[k].identity == attachments[k].identity && all[k].credential_ref
                == attachments[k].credential_ref
            &&& a <= k < b ==> all[k].identity == pending[k - a].prepared.identity
                && all[k].credential_ref == pending[k - a].prepared.credential_ref
            &&& b <= k ==> all[k].identity == cleanups[k - b].identity && all[k].credential_ref
                == cleanups[k - b].credential_ref
        }),
{
}

/// An identifier is drawn only where something could be drawn.
pub proof fn law_identifiers_are_what_was_drawn(
    r: Result<String, HostedWorkspaceAttachError>,
    prefix: Seq<char>,
    drawn: Result<Vec<u8>, String>,
)
    requires
        hosted_workspace::is_drawn_id(r, prefix, drawn),
    ensures
        r is Ok <==> drawn is Ok,
        drawn matches Err(why) ==> r == Err::<String, _>(HostedWorkspaceAttachError::Recovery(why)),
        r matches Ok(id) ==> text::begins_with(id@, prefix),
{
    if r is Ok {
        let id = r->Ok_0@;
        assert(id.subrange(0, prefix.len() as int) =~= prefix);
    }
}

} // verus!
