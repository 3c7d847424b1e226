//! The durable state of hosted workspaces: attachments, transitions and
//! cleanups, the roots they claim, and how an interrupted transition is
//! recovered.
use vstd::prelude::*;

use crate::connect::CredentialError;
use crate::hosted_workspace;
use crate::hosted_workspace::{
    HostedWorkspaceAttachError, HostedWorkspaceAttachReport, HostedWorkspaceIdentity,
    HostedWorkspaceListEntry, HostedWorkspaceListReport, HostedWorkspaceMountListEntry,
};
use crate::ordered_map;
use crate::ordered_map::Entry;
use crate::paths;
use crate::paths::PathStyle;
use crate::sorting;
use crate::text;

verus! {

/// What a transition does to an attachment.
#[derive(Clone, Copy, Debug, PartialEq, Eq, Structural)]
pub enum HostedWorkspaceTransitionKind {
    Attach,
    Refresh,
    Relocate,
}

/// A portable mount and the local mount that stands for it.
#[derive(Debug, PartialEq, Eq)]
pub struct HostedWorkspaceMountMapping {
    pub portable_mount_id: String,
    pub local_mount_id: String,
    pub mount_target: String,
    pub profile_revision: u64,
    pub active: bool,
}

/// A profile that is attached to a root.
#[derive(Debug, PartialEq, Eq)]
pub struct HostedWorkspaceAttachment {
    pub identity: HostedWorkspaceIdentity,
    pub credential_ref: String,
    pub root: String,
    pub profile_revision: u64,
    pub layout_version: u16,
    pub layout_digest: String,
}

/// A transition as it is written down before anything is published.
#[derive(Debug, PartialEq, Eq)]
pub struct PreparedHostedWorkspaceTransition {
    pub transition_id: String,
    pub identity: HostedWorkspaceIdentity,
    pub credential_ref: String,
    pub target_root: String,
    pub profile_revision: u64,
    pub layout_version: u16,
    pub layout_digest: String,
    pub mappings: Vec<HostedWorkspaceMountMapping>,
    pub prepared_at: String,
}

/// A transition that has begun.
#[derive(Debug, PartialEq, Eq)]
pub struct PendingHostedWorkspaceTransition {
    pub prepared: PreparedHostedWorkspaceTransition,
    pub kind: HostedWorkspaceTransitionKind,
}

/// A root that is left over from a finished move.
#[derive(Debug, PartialEq, Eq)]
pub struct HostedWorkspaceCleanup {
    pub cleanup_id: String,
    pub identity: HostedWorkspaceIdentity,
    pub credential_ref: String,
    pub root: String,
    pub profile_revision: u64,
    pub layout_version: u16,
    pub layout_digest: String,
}

/// What a publication receipt says was published.
#[derive(Debug, PartialEq, Eq)]
pub struct PublicationMetadata {
    pub profile_id: String,
    pub profile_revision: u64,
    pub layout_version: u16,
    pub layout_digest: String,
}

/// A mount in the way of a placement.
#[derive(Debug, PartialEq, Eq)]
pub struct ActiveMount {
    pub mount_id: String,
    pub root: String,
}

impl View for ActiveMount {
    type V = (Seq<char>, Seq<char>);

    open spec fn view(&self) -> (Seq<char>, Seq<char>) {
        (self.mount_id@, self.root@)
    }
}

/// The identifiers and roots of mounts.
pub open spec fn active_views(s: Seq<ActiveMount>) -> Seq<(Seq<char>, Seq<char>)> {
    s.map_values(|m: ActiveMount| m@)
}

/// A record that claims a root for a profile.
pub trait Claim: Sized {
    /// Whose the root is.
    spec fn claimant(self) -> HostedWorkspaceIdentity;

    /// The root.
    spec fn claimed(self) -> Seq<char>;

    /// Whose the root is.
    fn owner(&self) -> (r: &HostedWorkspaceIdentity)
        ensures
            *r == self.claimant(),
    ;

    /// The root.
    fn place(&self) -> (r: &str)
        ensures
            r@ == self.claimed(),
    ;
}

impl Claim for HostedWorkspaceAttachment {
    open spec fn claimant(self) -> HostedWorkspaceIdentity {
        self.identity
    }

    open spec fn claimed(self) -> Seq<char> {
        self.root@
    }

    fn owner(&self) -> &HostedWorkspaceIdentity {
        &self.identity
    }

    fn place(&self) -> &str {
        self.root.as_str()
    }
}

impl Claim for PendingHostedWorkspaceTransition {
    open spec fn claimant(self) -> HostedWorkspaceIdentity {
        self.prepared.identity
    }

    open spec fn claimed(self) -> Seq<char> {
        self.prepared.target_root@
    }

    fn owner(&self) -> &HostedWorkspaceIdentity {
        &self.prepared.identity
    }

    fn place(&self) -> &str {
        self.prepared.target_root.as_str()
    }
}

impl Claim for HostedWorkspaceCleanup {
    open spec fn claimant(self) -> HostedWorkspaceIdentity {
        self.identity
    }

    open spec fn claimed(self) -> Seq<char> {
        self.root@
    }

    fn owner(&self) -> &HostedWorkspaceIdentity {
        &self.identity
    }

    fn place(&self) -> &str {
        self.root.as_str()
    }
}

/// Which claims do not stand in the way of a placement.
#[derive(Debug, PartialEq, Eq)]
pub enum Exemption<'a> {
    /// All stand in the way.
    Nobody,
    /// Those of this profile do not.
    Owner(&'a HostedWorkspaceIdentity),
    /// That of this profile to this very root does not.
    OwnerAt(&'a HostedWorkspaceIdentity, &'a str),
}

impl<'a> Exemption<'a> {
    /// Whether a claim to a root does not stand in the way.
    pub open spec fn spares(
        self,
        style: PathStyle,
        identity: HostedWorkspaceIdentity,
        root: Seq<char>,
    ) -> bool {
        match self {
            Exemption::Nobody => false,
            Exemption::Owner(owner) => identity.same_as(*owner),
            Exemption::OwnerAt(owner, place) => identity.same_as(*owner) && paths::same(
                style,
                root,
                place@,
            ),
        }
    }

    fn holds(&self, style: PathStyle, identity: &HostedWorkspaceIdentity, root: &str) -> (r: bool)
        ensures
            r == self.spares(style, *identity, root@),
    {
        match self {
            Exemption::Nobody => false,
            Exemption::Owner(owner) => identity.is(owner),
            Exemption::OwnerAt(owner, place) => identity.is(owner) && paths::same_path(
                style,
                root,
                place,
            ),
        }
    }
}

/// The claims that stand in the way, each named by a prefix and its number in
/// the list.
pub open spec fn claims<C: Claim>(
    style: PathStyle,
    prefix: Seq<char>,
    records: Seq<C>,
    exemption: Exemption,
) -> Seq<(Seq<char>, Seq<char>)>
    decreases records.len(),
{
    if records.len() == 0 {
        Seq::empty()
    } else {
        let before = claims(style, prefix, records.drop_last(), exemption);
        let last = records.last();
        if exemption.spares(style, last.claimant(), last.claimed()) {
            before
        } else {
            before.push(
                (prefix + text::decimal((records.len() - 1) as nat), last.claimed()),
            )
        }
    }
}

fn push_claims<C: Claim>(
    style: PathStyle,
    active: &mut Vec<ActiveMount>,
    prefix: &str,
    records: &Vec<C>,
    exemption: Exemption,
)
    ensures
        active_views(final(active)@) == active_views(old(active)@) + claims(
            style,
            prefix@,
            records@,
            exemption,
        ),
{
    let ghost before = active_views(active@);
    let mut i: usize = 0;
    assert(records@.take(0) == Seq::<C>::empty());
    assert(before + claims(style, prefix@, records@.take(0), exemption) =~= before);
    while i < records.len()
        invariant
            i <= records.len(),
            active_views(active@) == before + claims(
                style,
                prefix@,
                records@.take(i as int),
                exemption,
            ),
        decreases records.len() - i,
    {
        assert(records@.take(i + 1).drop_last() == records@.take(i as int));
        let ghost so_far = active@;
        let record = &records[i];
        let place = record.place();
        if !exemption.holds(style, record.owner(), place) {
            let mut mount_id = prefix.to_string();
            mount_id.append(&text::decimal_text(i as u128));
            active.push(ActiveMount { mount_id, root: place.to_string() });
            assert(active_views(active@) =~= active_views(so_far).push(active@.last()@));
        }
        assert(active_views(active@) =~= before + claims(
            style,
            prefix@,
            records@.take(i + 1),
            exemption,
        ));
        i += 1;
    }
    assert(records@.take(i as int) == records@);
}

/// What stands in the way of a placement: the given mounts, and the claims of
/// attachments, pending transitions and cleanups.
pub open spec fn obstacles(
    style: PathStyle,
    mounts: Seq<(Seq<char>, Seq<char>)>,
    attachments: Seq<HostedWorkspaceAttachment>,
    pending: Seq<PendingHostedWorkspaceTransition>,
    cleanups: Seq<HostedWorkspaceCleanup>,
    at: Exemption,
    of: Exemption,
) -> Seq<(Seq<char>, Seq<char>)> {
    mounts + claims(style, "hosted-workspace-"@, attachments, at) + claims(
        style,
        "pending-hosted-workspace-"@,
        pending,
        of,
    ) + claims(style, "cleanup-hosted-workspace-"@, cleanups, at)
}

/// What stands in the way of publishing a profile at a root. The profile's own
/// attachment or cleanup at that root does not, nor does its pending
/// transition.
pub fn hosted_workspace_obstacles(
    style: PathStyle,
    mounts: Vec<ActiveMount>,
    attachments: &Vec<HostedWorkspaceAttachment>,
    pending: &Vec<PendingHostedWorkspaceTransition>,
    cleanups: &Vec<HostedWorkspaceCleanup>,
    identity: &HostedWorkspaceIdentity,
    root: &str,
) -> (r: Vec<ActiveMount>)
    ensures
        active_views(r@) == obstacles(
            style,
            active_views(mounts@),
            attachments@,
            pending@,
            cleanups@,
            Exemption::OwnerAt(identity, root),
            Exemption::Owner(identity),
        ),
{
    let mut active = mounts;
    push_claims(
        style,
        &mut active,
        "hosted-workspace-",
        attachments,
        Exemption::OwnerAt(identity, root),
    );
    push_claims(
        style,
        &mut active,
        "pending-hosted-workspace-",
        pending,
        Exemption::Owner(identity),
    );
    push_claims(
        style,
        &mut active,
        "cleanup-hosted-workspace-",
        cleanups,
        Exemption::OwnerAt(identity, root),
    );
    active
}

/// The mounts without those of one identifier.
pub open spec fn other_mounts(
    mounts: Seq<(Seq<char>, Seq<char>)>,
    mount_id: Seq<char>,
) -> Seq<(Seq<char>, Seq<char>)> {
    mounts.filter(|m: (Seq<char>, Seq<char>)| m.0 != mount_id)
}

/// What stands in the way of a connector mount: the other mounts, and every
/// root that a hosted workspace claims.
pub fn connector_mount_obstacles(
    style: PathStyle,
    mounts: Vec<ActiveMount>,
    attachments: &Vec<HostedWorkspaceAttachment>,
    pending: &Vec<PendingHostedWorkspaceTransition>,
    cleanups: &Vec<HostedWorkspaceCleanup>,
    mount_id: &str,
) -> (r: Vec<ActiveMount>)
    ensures
        active_views(r@) == obstacles(
            style,
            other_mounts(active_views(mounts@), mount_id@),
            attachments@,
            pending@,
            cleanups@,
            Exemption::Nobody,
            Exemption::Nobody,
        ),
{
    let ghost all = active_views(mounts@);
    let ghost other = |m: (Seq<char>, Seq<char>)| m.0 != mount_id@;
    let mut active: Vec<ActiveMount> = Vec::new();
    reveal(Seq::filter);
    assert(all.take(0) == Seq::<(Seq<char>, Seq<char>)>::empty());
    assert(active_views(active@) =~= all.take(0).filter(other));
    for mount in it: mounts
        invariant
            it.seq() == mounts@,
            all == active_views(mounts@),
            other == (|m: (Seq<char>, Seq<char>)| m.0 != mount_id@),
            active_views(active@) == all.take(it.index() as int).filter(other),
    {
        assert(all.take(it.index() + 1).drop_last() == all.take(it.index() as int));
        assert(all.take(it.index() + 1).last() == mount@);
        let ghost so_far = active@;
        reveal(Seq::filter);
        if !text::same_text(&mount.mount_id, mount_id) {
            active.push(mount);
            assert(active_views(active@) =~= active_views(so_far).push(mount@));
        }
    }
    assert(all.take(all.len() as int) == all);
    push_claims(style, &mut active, "hosted-workspace-", attachments, Exemption::Nobody);
    push_claims(style, &mut active, "pending-hosted-workspace-", pending, Exemption::Nobody);
    push_claims(style, &mut active, "cleanup-hosted-workspace-", cleanups, Exemption::Nobody);
    active
}

/// A claim that nothing exempts is never left out: every claimed root is among
/// the obstacles of a connector mount.
pub proof fn law_claimed_roots_are_obstacles<C: Claim>(
    style: PathStyle,
    prefix: Seq<char>,
    records: Seq<C>,
    exemption: Exemption,
    i: int,
)
    requires
        0 <= i < records.len(),
        !exemption.spares(style, records[i].claimant(), records[i].claimed()),
    ensures
        claims(style, prefix, records, exemption).contains(
            (prefix + text::decimal(i as nat), records[i].claimed()),
        ),
    decreases records.len(),
{
    let before = claims(style, prefix, records.drop_last(), exemption);
    let all = claims(style, prefix, records, exemption);
    if i == records.len() - 1 {
        assert(all[all.len() - 1] == (prefix + text::decimal(i as nat), records[i].claimed()));
    } else {
        law_claimed_roots_are_obstacles(style, prefix, records.drop_last(), exemption, i);
        let x = (prefix + text::decimal(i as nat), records[i].claimed());
        let k = choose|k: int| 0 <= k < before.len() && before[k] == x;
        assert(all[k] == x);
    }
}

/// Whether two mappings are the same.
pub open spec fn same_mapping(
    a: HostedWorkspaceMountMapping,
    b: HostedWorkspaceMountMapping,
) -> bool {
    &&& a.portable_mount_id@ == b.portable_mount_id@
    &&& a.local_mount_id@ == b.local_mount_id@
    &&& a.mount_target@ == b.mount_target@
    &&& a.profile_revision == b.profile_revision
    &&& a.active == b.active
}

fn mappings_match(
    a: &Vec<HostedWorkspaceMountMapping>,
    b: &Vec<HostedWorkspaceMountMapping>,
) -> (r: bool)
    ensures
        r == same_mappings(a@, b@),
{
    if a.len() != b.len() {
        return false;
    }
    let mut i: usize = 0;
    while i < a.len()
        invariant
            i <= a.len(),
            a.len() == b.len(),
            forall|k: int| 0 <= k < i ==> same_mapping(#[trigger] a[k], b[k]),
        decreases a.len() - i,
    {
        let x = &a[i];
        let y = &b[i];
        if !(text::same_text(&x.portable_mount_id, &y.portable_mount_id) && text::same_text(
            &x.local_mount_id,
            &y.local_mount_id,
        ) && text::same_text(&x.mount_target, &y.mount_target) && x.profile_revision
            == y.profile_revision && x.active == y.active) {
            assert(!same_mapping(a[i as int], b[i as int]));
            return false;
        }
        i += 1;
    }
    true
}

/// Whether two lists of mappings are the same.
pub open spec fn same_mappings(
    a: Seq<HostedWorkspaceMountMapping>,
    b: Seq<HostedWorkspaceMountMapping>,
) -> bool {
    a.len() == b.len() && forall|k: int| 0 <= k < a.len() ==> same_mapping(#[trigger] a[k], b[k])
}

impl PendingHostedWorkspaceTransition {
    /// Whether two pending transitions are the same.
    pub open spec fn same_as(
        self,
        style: PathStyle,
        other: PendingHostedWorkspaceTransition,
    ) -> bool {
        let a = self.prepared;
        let b = other.prepared;
        &&& self.kind == other.kind
        &&& a.transition_id@ == b.transition_id@
        &&& a.identity.same_as(b.identity)
        &&& a.credential_ref@ == b.credential_ref@
        &&& paths::same(style, a.target_root@, b.target_root@)
        &&& a.profile_revision == b.profile_revision
        &&& a.layout_version == b.layout_version
        &&& a.layout_digest@ == b.layout_digest@
        &&& same_mappings(a.mappings@, b.mappings@)
        &&& a.prepared_at@ == b.prepared_at@
    }

    fn is(&self, style: PathStyle, other: &PendingHostedWorkspaceTransition) -> (r: bool)
        ensures
            r == self.same_as(style, *other),
    {
        let a = &self.prepared;
        let b = &other.prepared;
        self.kind == other.kind && text::same_text(&a.transition_id, &b.transition_id)
            && a.identity.is(&b.identity) && text::same_text(&a.credential_ref, &b.credential_ref)
            && paths::same_path(style, &a.target_root, &b.target_root) && a.profile_revision
            == b.profile_revision && a.layout_version == b.layout_version && text::same_text(
            &a.layout_digest,
            &b.layout_digest,
        ) && mappings_match(&a.mappings, &b.mappings) && text::same_text(
            &a.prepared_at,
            &b.prepared_at,
        )
    }
}

/// Whether the transition that the store has is the one that was begun.
pub open spec fn is_unchanged(
    style: PathStyle,
    actual: Option<&PendingHostedWorkspaceTransition>,
    expected: PendingHostedWorkspaceTransition,
) -> bool {
    actual matches Some(a) && a.same_as(style, expected)
}

/// Refuses to go on where the pending transition in the store is no longer the
/// one that was begun.
pub fn revalidate_pending_transition(
    style: PathStyle,
    actual: Option<&PendingHostedWorkspaceTransition>,
    expected: &PendingHostedWorkspaceTransition,
) -> (r: Result<(), HostedWorkspaceAttachError>)
    ensures
        if is_unchanged(style, actual, *expected) {
            r is Ok
        } else {
            r matches Err(e) && hosted_workspace::needs_recovery(
                e,
                "hosted workspace pending transition changed before publication"@,
            )
        },
{
    match actual {
        Some(a) if a.is(style, expected) => Ok(()),
        _ => Err(
            HostedWorkspaceAttachError::Recovery(
                "hosted workspace pending transition changed before publication".to_string(),
            ),
        ),
    }
}

/// Whether a receipt is of this revision and layout of a profile.
pub open spec fn is_publication_of(
    metadata: PublicationMetadata,
    profile_id: Seq<char>,
    profile_revision: u64,
    layout_version: u16,
    layout_digest: Seq<char>,
) -> bool {
    &&& metadata.profile_id@ == profile_id
    &&& metadata.profile_revision == profile_revision
    &&& metadata.layout_version == layout_version
    &&& metadata.layout_digest@ == layout_digest
}

impl PublicationMetadata {
    /// Whether the receipt is of this revision and layout of a profile.
    pub fn is_of(
        &self,
        profile_id: &str,
        profile_revision: u64,
        layout_version: u16,
        layout_digest: &str,
    ) -> (r: bool)
        ensures
            r == is_publication_of(
                *self,
                profile_id@,
                profile_revision,
                layout_version,
                layout_digest@,
            ),
    {
        text::same_text(&self.profile_id, profile_id) && self.profile_revision == profile_revision
            && self.layout_version == layout_version && text::same_text(
            &self.layout_digest,
            layout_digest,
        )
    }
}

/// Whether a receipt is of what a transition proposes.
pub open spec fn is_proposed(
    metadata: PublicationMetadata,
    prepared: PreparedHostedWorkspaceTransition,
) -> bool {
    is_publication_of(
        metadata,
        prepared.identity.profile_id@,
        prepared.profile_revision,
        prepared.layout_version,
        prepared.layout_digest@,
    )
}

/// Refuses a receipt that is not of what the pending transition proposes.
pub fn validate_receipt_metadata_against_pending(
    metadata: &PublicationMetadata,
    pending: &PendingHostedWorkspaceTransition,
) -> (r: Result<(), HostedWorkspaceAttachError>)
    ensures
        if is_proposed(*metadata, pending.prepared) {
            r is Ok
        } else {
            r matches Err(e) && hosted_workspace::needs_recovery(
                e,
                "workspace publication receipt does not match the pending attachment"@,
            )
        },
{
    let prepared = &pending.prepared;
    if !metadata.is_of(
        &prepared.identity.profile_id,
        prepared.profile_revision,
        prepared.layout_version,
        &prepared.layout_digest,
    ) {
        return Err(
            HostedWorkspaceAttachError::Recovery(
                "workspace publication receipt does not match the pending attachment".to_string(),
            ),
        );
    }
    Ok(())
}

/// Whether a move finds something where it should go.
pub open spec fn is_raced(pending: PendingHostedWorkspaceTransition, root_exists: bool) -> bool {
    pending.kind == HostedWorkspaceTransitionKind::Relocate && root_exists
}

/// What is tested before a staged workspace is published: first the outcome of
/// the placement, next that the transition is unchanged, next that a move still
/// goes to where nothing is, and last that the receipt is of the transition.
pub fn commit_staged_hosted_workspace(
    style: PathStyle,
    placement: Result<(), HostedWorkspaceAttachError>,
    actual: Option<&PendingHostedWorkspaceTransition>,
    pending: &PendingHostedWorkspaceTransition,
    root: &str,
    root_exists: bool,
    metadata: &PublicationMetadata,
) -> (r: Result<(), HostedWorkspaceAttachError>)
    ensures
        match placement {
            Err(e) => r == Err::<(), _>(e),
            Ok(()) => if !is_unchanged(style, actual, *pending) {
                r matches Err(e) && hosted_workspace::needs_recovery(
                    e,
                    "hosted workspace pending transition changed before publication"@,
                )
            } else if is_raced(*pending, root_exists) {
                r matches Err(e) && hosted_workspace::refuses_placement(
                    e,
                    "hosted workspace relocation destination `"@ + root@
                        + "` is no longer absent"@,
                )
            } else if !is_proposed(*metadata, pending.prepared) {
                r matches Err(e) && hosted_workspace::needs_recovery(
                    e,
                    "workspace publication receipt does not match the pending attachment"@,
                )
            } else {
                r is Ok
            },
        },
{
    if let Err(e) = placement {
        return Err(e);
    }
    if let Err(e) = revalidate_pending_transition(style, actual, pending) {
        return Err(e);
    }
    if pending.kind == HostedWorkspaceTransitionKind::Relocate && root_exists {
        return Err(
            HostedWorkspaceAttachError::InvalidPlacement(
                text::concat3(
                    "hosted workspace relocation destination `",
                    root,
                    "` is no longer absent",
                ),
            ),
        );
    }
    validate_receipt_metadata_against_pending(metadata, pending)
}

/// What is tested once more right before files change places; the words of a
/// refusal.
pub fn before_publication(
    style: PathStyle,
    placement: Result<(), HostedWorkspaceAttachError>,
    actual: Option<&PendingHostedWorkspaceTransition>,
    pending: &PendingHostedWorkspaceTransition,
    root_exists: bool,
) -> (r: Result<(), String>)
    ensures
        match placement {
            Err(e) => r matches Err(m) && m@ == e.message_text(),
            Ok(()) => if !is_unchanged(style, actual, *pending) {
                r matches Err(m) && m@ == "hosted workspace recovery: "@
                    + "hosted workspace pending transition changed before publication"@
            } else if is_raced(*pending, root_exists) {
                r matches Err(m) && m@
                    == "hosted workspace relocation destination is no longer absent"@
            } else {
                r is Ok
            },
        },
{
    if let Err(e) = placement {
        return Err(e.message());
    }
    if let Err(e) = revalidate_pending_transition(style, actual, pending) {
        return Err(e.message());
    }
    if pending.kind == HostedWorkspaceTransitionKind::Relocate && root_exists {
        return Err("hosted workspace relocation destination is no longer absent".to_string());
    }
    Ok(())
}

/// A transition to be committed, and when that is.
#[derive(Debug, PartialEq, Eq)]
pub struct TransitionCommit {
    pub transition_id: String,
    pub committed_at: String,
}

/// What is committed at a checkpoint of a publication: the transition, as soon
/// as the receipt is durable, with the time of the call. What that time is is
/// left open.
pub fn checkpoint(
    receipt_durable: bool,
    pending: &PendingHostedWorkspaceTransition,
) -> (r: Option<TransitionCommit>)
    ensures
        receipt_durable == (r is Some),
        r matches Some(c) ==> c.transition_id@ == pending.prepared.transition_id@
            && hosted_workspace::is_utc_timestamp(c.committed_at@),
{
    if receipt_durable {
        Some(
            TransitionCommit {
                transition_id: pending.prepared.transition_id.clone(),
                committed_at: hosted_workspace::now_timestamp(),
            },
        )
    } else {
        None
    }
}

/// Refuses a publication during which nothing was committed.
pub fn ensure_committed(committed: bool) -> (r: Result<(), HostedWorkspaceAttachError>)
    ensures
        if committed {
            r is Ok
        } else {
            r matches Err(e) && hosted_workspace::needs_recovery(
                e,
                "publication completed without committing attachment state"@,
            )
        },
{
    if !committed {
        return Err(
            HostedWorkspaceAttachError::Recovery(
                "publication completed without committing attachment state".to_string(),
            ),
        );
    }
    Ok(())
}

/// What must have been published at a root before its cleanup removes it.
pub fn cleanup_expectation(
    identity: &HostedWorkspaceIdentity,
    cleanup: &HostedWorkspaceCleanup,
) -> (r: PublicationMetadata)
    ensures
        is_publication_of(
            r,
            identity.profile_id@,
            cleanup.profile_revision,
            cleanup.layout_version,
            cleanup.layout_digest@,
        ),
{
    PublicationMetadata {
        profile_id: identity.profile_id.clone(),
        profile_revision: cleanup.profile_revision,
        layout_version: cleanup.layout_version,
        layout_digest: cleanup.layout_digest.clone(),
    }
}

/// What came of asking for the lock of a pending transition.
#[derive(Debug, PartialEq, Eq)]
pub enum TransitionLock {
    Acquired,
    /// Another process is at work on the transition.
    Busy,
    Failed(String),
}

/// How the recovery of a profile begins.
#[derive(Debug, PartialEq, Eq)]
pub enum RecoveryStart {
    /// Another process is at work: nothing is done.
    LeaveAlone,
    /// There is no root to look at: only a pending cleanup is completed.
    CleanUp,
    /// What is published at this root is verified.
    Verify(String),
}

/// How the recovery of a profile begins. The lock counts only where a
/// transition is pending; the root is that of the transition, else that of the
/// attachment.
pub fn begin_recovery(
    attachment: Option<&HostedWorkspaceAttachment>,
    pending: Option<&PendingHostedWorkspaceTransition>,
    lock: TransitionLock,
) -> (r: Result<RecoveryStart, HostedWorkspaceAttachError>)
    ensures
        match (pending, lock) {
            (Some(_), TransitionLock::Busy) => r == Ok::<_, HostedWorkspaceAttachError>(
                RecoveryStart::LeaveAlone,
            ),
            (Some(_), TransitionLock::Failed(why)) => r == Err::<RecoveryStart, _>(
                HostedWorkspaceAttachError::Lock(why),
            ),
            (Some(p), TransitionLock::Acquired) => r matches Ok(RecoveryStart::Verify(root))
                && root@ == p.prepared.target_root@,
            (None, _) => match attachment {
                Some(a) => r matches Ok(RecoveryStart::Verify(root)) && root@ == a.root@,
                None => r == Ok::<_, HostedWorkspaceAttachError>(RecoveryStart::CleanUp),
            },
        },
{
    match pending {
        Some(p) => match lock {
            TransitionLock::Busy => Ok(RecoveryStart::LeaveAlone),
            TransitionLock::Failed(why) => Err(HostedWorkspaceAttachError::Lock(why)),
            TransitionLock::Acquired => Ok(RecoveryStart::Verify(p.prepared.target_root.clone())),
        },
        None => match attachment {
            Some(a) => Ok(RecoveryStart::Verify(a.root.clone())),
            None => Ok(RecoveryStart::CleanUp),
        },
    }
}

/// How the recovery of a profile ends; a pending cleanup is completed last in
/// any case.
#[derive(Debug, PartialEq, Eq)]
pub enum RecoveryStep {
    CleanUp,
    /// The transition with this identifier is cancelled first.
    Cancel(String),
    /// The transition is committed first.
    Commit(TransitionCommit),
}

/// What the recovery of a profile comes to.
pub enum RecoveryVerdict {
    CleanUp,
    Cancel,
    Commit,
    Refuse(Seq<char>),
}

/// Whether a receipt is of the attachment that stands at a root.
pub open spec fn is_current(
    style: PathStyle,
    metadata: PublicationMetadata,
    identity: HostedWorkspaceIdentity,
    attachment: Option<&HostedWorkspaceAttachment>,
    root: Seq<char>,
) -> bool {
    attachment matches Some(a) && paths::same(style, a.root@, root) && is_publication_of(
        metadata,
        identity.profile_id@,
        a.profile_revision,
        a.layout_version,
        a.layout_digest@,
    )
}

/// What the recovery of a profile comes to, once its root has been verified or
/// not. A pending transition is committed only on a receipt of what it
/// proposes, and cancelled only where nothing was published or the receipt is
/// still that of the attachment.
pub open spec fn recovery_verdict(
    style: PathStyle,
    identity: HostedWorkspaceIdentity,
    attachment: Option<&HostedWorkspaceAttachment>,
    pending: Option<&PendingHostedWorkspaceTransition>,
    root: Seq<char>,
    verified: bool,
    root_exists: bool,
    receipt: Option<&PublicationMetadata>,
) -> RecoveryVerdict {
    match pending {
        None => if attachment is Some && !verified {
            RecoveryVerdict::Refuse(
                "attached workspace root is not bound to a durable publication receipt"@,
            )
        } else {
            RecoveryVerdict::CleanUp
        },
        Some(p) => if !verified {
            if root_exists {
                RecoveryVerdict::Refuse(
                    "pending workspace root has no verifiable publication receipt"@,
                )
            } else {
                RecoveryVerdict::Cancel
            }
        } else {
            match receipt {
                None => RecoveryVerdict::Refuse("verified workspace publication has no receipt"@),
                Some(metadata) => if is_publication_of(
                    *metadata,
                    identity.profile_id@,
                    p.prepared.profile_revision,
                    p.prepared.layout_version,
                    p.prepared.layout_digest@,
                ) {
                    if is_proposed(*metadata, p.prepared) {
                        RecoveryVerdict::Commit
                    } else {
                        RecoveryVerdict::Refuse(
                            "workspace publication receipt does not match the pending attachment"@,
                        )
                    }
                } else if is_current(style, *metadata, identity, attachment, root) {
                    RecoveryVerdict::Cancel
                } else {
                    RecoveryVerdict::Refuse(
                        "published receipt matches neither pending nor active attachment state"@,
                    )
                },
            }
        },
    }
}

/// How the recovery of a profile ends, once its root has been verified or not.
/// A commit carries the time of the call, of which nothing is said.
pub fn finish_recovery(
    style: PathStyle,
    identity: &HostedWorkspaceIdentity,
    attachment: Option<&HostedWorkspaceAttachment>,
    pending: Option<&PendingHostedWorkspaceTransition>,
    root: &str,
    verified: bool,
    root_exists: bool,
    receipt: Option<&PublicationMetadata>,
) -> (r: Result<RecoveryStep, HostedWorkspaceAttachError>)
    ensures
        match recovery_verdict(
            style,
            *identity,
            attachment,
            pending,
            root@,
            verified,
            root_exists,
            receipt,
        ) {
            RecoveryVerdict::CleanUp => r matches Ok(RecoveryStep::CleanUp),
            RecoveryVerdict::Cancel => r matches Ok(RecoveryStep::Cancel(id))
                && pending matches Some(p) && id@ == p.prepared.transition_id@,
            RecoveryVerdict::Commit => r matches Ok(RecoveryStep::Commit(c))
                && pending matches Some(p) && c.transition_id@ == p.prepared.transition_id@
                && hosted_workspace::is_utc_timestamp(c.committed_at@),
            RecoveryVerdict::Refuse(why) => r matches Err(e) && hosted_workspace::needs_recovery(
                e,
                why,
            ),
        },
{
    let p = match pending {
        None => {
            if attachment.is_some() && !verified {
                return Err(
                    HostedWorkspaceAttachError::Recovery(
                        "attached workspace root is not bound to a durable publication receipt".to_string(),
                    ),
                );
            }
            return Ok(RecoveryStep::CleanUp);
        },
        Some(p) => p,
    };
    if !verified {
        if !root_exists {
            return Ok(RecoveryStep::Cancel(p.prepared.transition_id.clone()));
        }
        return Err(
            HostedWorkspaceAttachError::Recovery(
                "pending workspace root has no verifiable publication receipt".to_string(),
            ),
        );
    }
    let metadata = match receipt {
        Some(metadata) => metadata,
        None => {
            return Err(
                HostedWorkspaceAttachError::Recovery(
                    "verified workspace publication has no receipt".to_string(),
                ),
            );
        },
    };
    if metadata.is_of(
        &identity.profile_id,
        p.prepared.profile_revision,
        p.prepared.layout_version,
        &p.prepared.layout_digest,
    ) {
        if let Err(e) = validate_receipt_metadata_against_pending(metadata, p) {
            return Err(e);
        }
        return Ok(
            RecoveryStep::Commit(
                TransitionCommit {
                    transition_id: p.prepared.transition_id.clone(),
                    committed_at: hosted_workspace::now_timestamp(),
                },
            ),
        );
    }
    let current = match attachment {
        Some(a) => paths::same_path(style, &a.root, root) && metadata.is_of(
            &identity.profile_id,
            a.profile_revision,
            a.layout_version,
            &a.layout_digest,
        ),
        None => false,
    };
    if current {
        return Ok(RecoveryStep::Cancel(p.prepared.transition_id.clone()));
    }
    Err(
        HostedWorkspaceAttachError::Recovery(
            "published receipt matches neither pending nor active attachment state".to_string(),
        ),
    )
}

/// A commit only ever follows a verified publication of exactly what the
/// pending transition proposes.
pub proof fn law_recovery_commits_only_what_was_published(
    style: PathStyle,
    identity: HostedWorkspaceIdentity,
    attachment: Option<&HostedWorkspaceAttachment>,
    pending: Option<&PendingHostedWorkspaceTransition>,
    root: Seq<char>,
    verified: bool,
    root_exists: bool,
    receipt: Option<&PublicationMetadata>,
)
    requires
        recovery_verdict(style, identity, attachment, pending, root, verified, root_exists, receipt)
            is Commit,
    ensures
        verified,
        pending matches Some(p) && receipt matches Some(m) && is_proposed(*m, p.prepared),
{
}

/// A pending transition is cancelled only where nothing stands at its root, or
/// where the receipt is verified to be the attachment's own.
pub proof fn law_recovery_cancels_only_what_was_not_published(
    style: PathStyle,
    identity: HostedWorkspaceIdentity,
    attachment: Option<&HostedWorkspaceAttachment>,
    pending: Option<&PendingHostedWorkspaceTransition>,
    root: Seq<char>,
    verified: bool,
    root_exists: bool,
    receipt: Option<&PublicationMetadata>,
)
    requires
        recovery_verdict(style, identity, attachment, pending, root, verified, root_exists, receipt)
            is Cancel,
    ensures
        !verified ==> !root_exists,
        verified ==> (receipt matches Some(m) && is_current(style, *m, identity, attachment, root)),
{
}

/// A profile to recover, and where its credential is kept.
#[derive(Debug, PartialEq, Eq)]
pub struct RecoveryTarget {
    pub identity: HostedWorkspaceIdentity,
    pub credential_ref: String,
}

impl Entry for RecoveryTarget {
    open spec fn entry_key(self) -> Seq<Seq<char>> {
        seq![self.identity.api_origin@, self.identity.profile_id@]
    }

    fn key_not_after(&self, other: &Self) -> bool {
        let a = &self.identity;
        let b = &other.identity;
        proof {
            ordered_map::lemma_pair_key(
                a.api_origin@,
                a.profile_id@,
                b.api_origin@,
                b.profile_id@,
            );
        }
        if text::same_text(&a.api_origin, &b.api_origin) {
            sorting::text_not_after(&a.profile_id, &b.profile_id)
        } else {
            sorting::text_not_after(&a.api_origin, &b.api_origin)
        }
    }

    fn key_is(&self, other: &Self) -> bool {
        proof {
            ordered_map::lemma_pair_key(
                self.identity.api_origin@,
                self.identity.profile_id@,
                other.identity.api_origin@,
                other.identity.profile_id@,
            );
        }
        self.identity.is(&other.identity)
    }
}

/// The profiles of all records, in the order in which they are read.
pub open spec fn recovery_records(
    attachments: Seq<HostedWorkspaceAttachment>,
    pending: Seq<PendingHostedWorkspaceTransition>,
    cleanups: Seq<HostedWorkspaceCleanup>,
) -> Seq<RecoveryTarget> {
    attachments.map_values(
        |a: HostedWorkspaceAttachment|
            RecoveryTarget { identity: a.identity, credential_ref: a.credential_ref },
    ) + pending.map_values(
        |p: PendingHostedWorkspaceTransition|
            RecoveryTarget {
                identity: p.prepared.identity,
                credential_ref: p.prepared.credential_ref,
            },
    ) + cleanups.map_values(
        |c: HostedWorkspaceCleanup|
            RecoveryTarget { identity: c.identity, credential_ref: c.credential_ref },
    )
}

/// The profiles to recover, each once and in order: those of all attachments,
/// pending transitions and cleanups, with the credential of the last record.
pub fn recovery_targets(
    attachments: Vec<HostedWorkspaceAttachment>,
    pending: Vec<PendingHostedWorkspaceTransition>,
    cleanups: Vec<HostedWorkspaceCleanup>,
) -> (r: Vec<RecoveryTarget>)
    ensures
        r@ == ordered_map::collected(
            recovery_records(attachments@, pending@, cleanups@),
        ),
{
    let ghost all = recovery_records(attachments@, pending@, cleanups@);
    let ghost a = attachments@.len() as int;
    let ghost b = a + pending@.len();
    let mut targets: Vec<RecoveryTarget> = Vec::new();
    assert(all.take(0) == Seq::<RecoveryTarget>::empty());
    for x in it: attachments
        invariant
            it.seq() == attachments@,
            all == recovery_records(attachments@, pending@, cleanups@),
            targets@ == ordered_map::collected(all.take(it.index() as int)),
    {
        let ghost n = it.index() as int;
        assert(all.take(n + 1).drop_last() == all.take(n));
        let target = RecoveryTarget { identity: x.identity, credential_ref: x.credential_ref };
        assert(all.take(n + 1).last() == target);
        ordered_map::put_entry(&mut targets, target);
    }
    for x in it: pending
        invariant
            it.seq() == pending@,
            all == recovery_records(attachments@, pending@, cleanups@),
            a == attachments@.len(),
            targets@ == ordered_map::collected(all.take(a + it.index())),
    {
        let ghost n = a + it.index();
        assert(all.take(n + 1).drop_last() == all.take(n));
        let target = RecoveryTarget {
            identity: x.prepared.identity,
            credential_ref: x.prepared.credential_ref,
        };
        assert(all.take(n + 1).last() == target);
        ordered_map::put_entry(&mut targets, target);
    }
    for x in it: cleanups
        invariant
            it.seq() == cleanups@,
            all == recovery_records(attachments@, pending@, cleanups@),
            b == attachments@.len() + pending@.len(),
            targets@ == ordered_map::collected(all.take(b + it.index())),
    {
        let ghost n = b + it.index();
        assert(all.take(n + 1).drop_last() == all.take(n));
        let target = RecoveryTarget { identity: x.identity, credential_ref: x.credential_ref };
        assert(all.take(n + 1).last() == target);
        ordered_map::put_entry(&mut targets, target);
    }
    assert(all.take(b + cleanups@.len()) == all);
    targets
}

/// Why the credential store gave no credential: it holds none under that
/// reference, or it failed.
#[derive(Debug, PartialEq, Eq)]
pub enum CredentialRefusal {
    NotFound(String),
    Failed(CredentialError),
}

/// The credential to recover a profile with. A profile whose credential is gone
/// has none and is left alone; any other failure of the store ends the recovery.
pub fn recovery_credential(found: Result<String, CredentialRefusal>) -> (r: Result<
    Option<String>,
    HostedWorkspaceAttachError,
>)
    ensures
        match found {
            Ok(secret) => r == Ok::<_, HostedWorkspaceAttachError>(Some(secret)),
            Err(CredentialRefusal::NotFound(_)) => r == Ok::<_, HostedWorkspaceAttachError>(
                None::<String>,
            ),
            Err(CredentialRefusal::Failed(error)) => r matches Err(
                HostedWorkspaceAttachError::Credential { code, message },
            ) && code@ == error.code@ && message == error.message,
        },
{
    match found {
        Ok(secret) => Ok(Some(secret)),
        Err(CredentialRefusal::NotFound(_)) => Ok(None),
        Err(CredentialRefusal::Failed(error)) => Err(
            HostedWorkspaceAttachError::Credential {
                code: error.code.to_string(),
                message: error.message,
            },
        ),
    }
}

/// A mount of a session, and where it is shown.
#[derive(Debug, PartialEq, Eq)]
pub struct SessionMount {
    pub mount_id: String,
    pub target: String,
}

impl SessionMount {
    fn duplicate(&self) -> (r: SessionMount)
        ensures
            r == *self,
    {
        SessionMount { mount_id: self.mount_id.clone(), target: self.target.clone() }
    }
}

impl Entry for SessionMount {
    open spec fn entry_key(self) -> Seq<Seq<char>> {
        seq![self.mount_id@]
    }

    fn key_not_after(&self, other: &Self) -> bool {
        proof {
            ordered_map::lemma_single_key(self.mount_id@, other.mount_id@);
        }
        sorting::text_not_after(&self.mount_id, &other.mount_id)
    }

    fn key_is(&self, other: &Self) -> bool {
        proof {
            ordered_map::lemma_single_key(self.mount_id@, other.mount_id@);
        }
        text::same_text(&self.mount_id, &other.mount_id)
    }
}

/// Whether a session shows one mount at two places.
pub open spec fn is_ambiguous(entries: Seq<SessionMount>) -> bool {
    exists|i: int, j: int|
        0 <= i < j < entries.len() && (#[trigger] entries[i]).mount_id@ == (#[trigger]
        entries[j]).mount_id@ && entries[i].target@ != entries[j].target@
}

/// The mounts of a session, each once and in the order of the identifiers;
/// refused where one is shown at two places.
pub fn unique_session_mounts(entries: &Vec<SessionMount>) -> (r: Result<
    Vec<SessionMount>,
    HostedWorkspaceAttachError,
>)
    ensures
        if is_ambiguous(entries@) {
            r matches Err(e) && hosted_workspace::needs_recovery(
                e,
                "session maps one portable mount ID to several targets"@,
            )
        } else {
            r matches Ok(m) && m@ == ordered_map::collected(entries@)
        },
{
    let mut mounts: Vec<SessionMount> = Vec::new();
    let mut i: usize = 0;
    assert(entries@.take(0) == Seq::<SessionMount>::empty());
    while i < entries.len()
        invariant
            i <= entries.len(),
            mounts@ == ordered_map::collected(entries@.take(i as int)),
            !is_ambiguous(entries@.take(i as int)),
        decreases entries.len() - i,
    {
        let ghost done = entries@.take(i as int);
        let ghost next = entries@.take(i + 1);
        let entry = &entries[i];
        assert(next.drop_last() == done);
        proof {
            ordered_map::law_collected_is_a_map(done, entry.entry_key());
            ordered_map::lemma_latest(done, entry.entry_key());
            assert forall|k: int| 0 <= k < done.len() implies ((#[trigger] done[k]).entry_key()
                == entry.entry_key()) == (done[k].mount_id@ == entry.mount_id@) by {
                ordered_map::lemma_single_key(done[k].mount_id@, entry.mount_id@);
            }
        }
        if let Some(existing) = ordered_map::find_latest(&mounts, entry) {
            proof {
                ordered_map::lemma_single_key(existing.mount_id@, entry.mount_id@);
            }
            if !text::same_text(&existing.target, &entry.target) {
                proof {
                    let k = choose|k: int| 0 <= k < done.len() && #[trigger] done[k] == *existing;
                    assert(entries@[k] == *existing && entries@[i as int] == *entry);
                    assert(is_ambiguous(entries@));
                }
                return Err(
                    HostedWorkspaceAttachError::Recovery(
                        "session maps one portable mount ID to several targets".to_string(),
                    ),
                );
            }
            proof {
                let k = choose|k: int| 0 <= k < done.len() && #[trigger] done[k] == *existing;
                assert forall|x: int, y: int|
                    0 <= x < y < next.len() && (#[trigger] next[x]).mount_id@ == (#[trigger]
                    next[y]).mount_id@ implies next[x].target@ == next[y].target@ by {
                    assert(next[x] == done[x]);
                    if y < done.len() {
                        assert(next[y] == done[y]);
                    } else if x < k {
                        assert(done[x].mount_id@ == done[k].mount_id@);
                    } else if k < x {
                        assert(done[k].mount_id@ == done[x].mount_id@);
                    }
                }
            }
        } else {
            proof {
                assert forall|x: int, y: int|
                    0 <= x < y < next.len() && (#[trigger] next[x]).mount_id@ == (#[trigger]
                    next[y]).mount_id@ implies next[x].target@ == next[y].target@ by {
                    assert(next[x] == done[x]);
                    if y < done.len() {
                        assert(next[y] == done[y]);
                    }
                }
            }
        }
        ordered_map::put_entry(&mut mounts, entry.duplicate());
        i += 1;
    }
    assert(entries@.take(i as int) == entries@);
    Ok(mounts)
}

impl Entry for HostedWorkspaceMountMapping {
    open spec fn entry_key(self) -> Seq<Seq<char>> {
        seq![self.portable_mount_id@]
    }

    fn key_not_after(&self, other: &Self) -> bool {
        proof {
            ordered_map::lemma_single_key(self.portable_mount_id@, other.portable_mount_id@);
        }
        sorting::text_not_after(&self.portable_mount_id, &other.portable_mount_id)
    }

    fn key_is(&self, other: &Self) -> bool {
        proof {
            ordered_map::lemma_single_key(self.portable_mount_id@, other.portable_mount_id@);
        }
        text::same_text(&self.portable_mount_id, &other.portable_mount_id)
    }
}

/// The local identifier of a mount: the one it has, else the one that is
/// derived for it.
pub open spec fn local_mount_id(
    existing: Seq<HostedWorkspaceMountMapping>,
    identity: HostedWorkspaceIdentity,
    mount_id: Seq<char>,
) -> Seq<char> {
    match ordered_map::latest(existing, seq![mount_id]) {
        Some(mapping) => mapping.local_mount_id@,
        None => "hosted-mount-"@ + hosted_workspace::hex(
            hosted_workspace::sha256(
                hosted_workspace::mount_id_input(
                    identity.api_origin@,
                    identity.profile_id@,
                    mount_id,
                ),
            ),
        ),
    }
}

/// Whether mappings are what a session proposes: one for each of its mounts, in
/// their order, active, and under the session's revision.
pub open spec fn are_proposed_mappings(
    mappings: Seq<HostedWorkspaceMountMapping>,
    mounts: Seq<SessionMount>,
    existing: Seq<HostedWorkspaceMountMapping>,
    identity: HostedWorkspaceIdentity,
    profile_revision: u64,
) -> bool {
    &&& mappings.len() == mounts.len()
    &&& forall|k: int|
        0 <= k < mounts.len() ==> {
            let m = #[trigger] mappings[k];
            &&& m.portable_mount_id@ == mounts[k].mount_id@
            &&& m.mount_target@ == mounts[k].target@
            &&& m.local_mount_id@ == local_mount_id(existing, identity, mounts[k].mount_id@)
            &&& m.profile_revision == profile_revision
            &&& m.active
        }
}

/// The mappings that a session proposes. A mount keeps the local identifier
/// that it has.
pub fn mappings_for_session(
    existing: &Vec<HostedWorkspaceMountMapping>,
    identity: &HostedWorkspaceIdentity,
    entries: &Vec<SessionMount>,
    profile_revision: u64,
) -> (r: Result<Vec<HostedWorkspaceMountMapping>, HostedWorkspaceAttachError>)
    ensures
        if is_ambiguous(entries@) {
            r matches Err(e) && hosted_workspace::needs_recovery(
                e,
                "session maps one portable mount ID to several targets"@,
            )
        } else {
            r matches Ok(m) && are_proposed_mappings(
                m@,
                ordered_map::collected(entries@),
                existing@,
                *identity,
                profile_revision,
            )
        },
{
    let mounts = match unique_session_mounts(entries) {
        Ok(mounts) => mounts,
        Err(e) => {
            return Err(e);
        },
    };
    let mut mappings: Vec<HostedWorkspaceMountMapping> = Vec::new();
    let mut i: usize = 0;
    while i < mounts.len()
        invariant
            i <= mounts.len(),
            are_proposed_mappings(
                mappings@,
                mounts@.take(i as int),
                existing@,
                *identity,
                profile_revision,
            ),
        decreases mounts.len() - i,
    {
        let mount = &mounts[i];
        let mut mapping = HostedWorkspaceMountMapping {
            portable_mount_id: mount.mount_id.clone(),
            local_mount_id: String::new(),
            mount_target: mount.target.clone(),
            profile_revision,
            active: true,
        };
        let local = match ordered_map::find_latest(existing, &mapping) {
            Some(known) => known.local_mount_id.clone(),
            None => hosted_workspace::deterministic_local_mount_id(identity, &mount.mount_id),
        };
        mapping.local_mount_id = local;
        let ghost before = mappings@;
        mappings.push(mapping);
        assert forall|k: int| 0 <= k < i + 1 implies {
            let m = #[trigger] mappings@[k];
            &&& m.portable_mount_id@ == mounts@.take(i + 1)[k].mount_id@
            &&& m.mount_target@ == mounts@.take(i + 1)[k].target@
            &&& m.local_mount_id@ == local_mount_id(
                existing@,
                *identity,
                mounts@.take(i + 1)[k].mount_id@,
            )
            &&& m.profile_revision == profile_revision
            &&& m.active
        } by {
            if k < i {
                assert(mappings@[k] == before[k]);
                assert(mounts@.take(i as int)[k] == mounts@.take(i + 1)[k]);
            }
        }
        i += 1;
    }
    assert(mounts@.take(i as int) == mounts@);
    Ok(mappings)
}

/// What a session of a profile fixes.
#[derive(Debug, PartialEq, Eq)]
pub struct ProfileSession {
    pub profile_revision: u64,
    pub layout_version: u16,
    pub layout_digest: String,
    pub entries: Vec<SessionMount>,
}

/// Whether the outcome of preparing a transition follows what was drawn for it:
/// an ambiguous session is refused, a draw that failed asks for recovery in the
/// words of the system, and any other gives the transition to the session's
/// state at the root.
pub open spec fn follows_draw(
    r: Result<PreparedHostedWorkspaceTransition, HostedWorkspaceAttachError>,
    identity: HostedWorkspaceIdentity,
    credential_ref: Seq<char>,
    root: Seq<char>,
    session: ProfileSession,
    existing: Seq<HostedWorkspaceMountMapping>,
    drawn: Result<Vec<u8>, String>,
    now: Seq<char>,
) -> bool {
    if is_ambiguous(session.entries@) {
        r matches Err(e) && hosted_workspace::needs_recovery(
            e,
            "session maps one portable mount ID to several targets"@,
        )
    } else {
        match drawn {
            Err(why) => r == Err::<PreparedHostedWorkspaceTransition, _>(
                HostedWorkspaceAttachError::Recovery(why),
            ),
            Ok(bytes) => {
                &&& r matches Ok(p)
                &&& p.transition_id@ == hosted_workspace::local_id_text(
                    "hosted-transition"@,
                    bytes@,
                )
                &&& p.identity == identity
                &&& p.credential_ref@ == credential_ref
                &&& p.target_root@ == root
                &&& p.profile_revision == session.profile_revision
                &&& p.layout_version == session.layout_version
                &&& p.layout_digest@ == session.layout_digest@
                &&& p.prepared_at@ == now
                &&& are_proposed_mappings(
                    p.mappings@,
                    ordered_map::collected(session.entries@),
                    existing,
                    identity,
                    session.profile_revision,
                )
            },
        }
    }
}

/// A transition to a session's state at a root, with an identifier made of the
/// bytes that were drawn and the time it is given.
pub fn drawn_transition(
    identity: HostedWorkspaceIdentity,
    credential_ref: String,
    root: String,
    session: &ProfileSession,
    existing: &Vec<HostedWorkspaceMountMapping>,
    drawn: Result<Vec<u8>, String>,
    now: String,
) -> (r: Result<PreparedHostedWorkspaceTransition, HostedWorkspaceAttachError>)
    ensures
        follows_draw(
            r,
            identity,
            credential_ref@,
            root@,
            *session,
            existing@,
            drawn,
            now@,
        ),
{
    let mappings = match mappings_for_session(
        existing,
        &identity,
        &session.entries,
        session.profile_revision,
    ) {
        Ok(mappings) => mappings,
        Err(e) => {
            return Err(e);
        },
    };
    let transition_id = match hosted_workspace::drawn_local_id("hosted-transition", drawn) {
        Ok(id) => id,
        Err(e) => {
            return Err(e);
        },
    };
    Ok(
        PreparedHostedWorkspaceTransition {
            transition_id,
            identity,
            credential_ref,
            target_root: root,
            profile_revision: session.profile_revision,
            layout_version: session.layout_version,
            layout_digest: session.layout_digest.clone(),
            mappings,
            prepared_at: now,
        },
    )
}

/// A transition to a session's state at a root, with a fresh identifier of
/// sixteen random bytes and the time of the call. What the system draws decides
/// whether there is one; its outcome is followed.
pub fn prepare_transition(
    identity: HostedWorkspaceIdentity,
    credential_ref: String,
    root: String,
    session: &ProfileSession,
    existing: &Vec<HostedWorkspaceMountMapping>,
) -> (r: Result<PreparedHostedWorkspaceTransition, HostedWorkspaceAttachError>)
    ensures
        exists|drawn: Result<Vec<u8>, String>, now: Seq<char>|
            (drawn matches Ok(bytes) ==> bytes@.len() == 16) && hosted_workspace::is_utc_timestamp(
                now,
            ) && #[trigger] follows_draw(
                r,
                identity,
                credential_ref@,
                root@,
                *session,
                existing@,
                drawn,
                now,
            ),
{
    let drawn = hosted_workspace::random_bytes();
    let now = hosted_workspace::now_timestamp();
    let ghost outcome = drawn;
    let ghost time = now@;
    let ghost owner = identity;
    let ghost kept = credential_ref@;
    let ghost place = root@;
    let r = drawn_transition(identity, credential_ref, root, session, existing, drawn, now);
    assert(follows_draw(r, owner, kept, place, *session, existing@, outcome, time));
    r
}

/// How far the hosted service is with a session.
#[derive(Clone, Copy, Debug, PartialEq, Eq, Structural)]
pub enum SandboxSessionState {
    Bootstrapping,
    Ready,
    Other,
}

/// What is wrong with a session.
#[derive(Clone, Copy, Debug, PartialEq, Eq, Structural)]
pub enum SessionErrorCode {
    Bootstrapping,
    Stale,
    Incomplete,
    Other,
}

/// What is wrong with a session, and whether trying again may help.
#[derive(Clone, Copy, Debug, PartialEq, Eq, Structural)]
pub struct SessionError {
    pub code: SessionErrorCode,
    pub retriable: bool,
}

/// The state of a session as the hosted service reports it.
#[derive(Clone, Copy, Debug, PartialEq, Eq, Structural)]
pub struct SessionStatus {
    pub state: SandboxSessionState,
    pub error: Option<SessionError>,
    /// Whether a stale session is waited for.
    pub waits_when_stale: bool,
    /// Whether the limits of an export are there.
    pub has_export_limits: bool,
}

/// Whether to wait until a session is fresh: it is being set up, that may help,
/// it is asked for and the service can do it.
#[verifier::allow_in_spec]
pub fn should_wait_for_freshness(status: SessionStatus, supports_wait: bool) -> (r: bool)
    returns
        status.state == SandboxSessionState::Bootstrapping && (match status.error {
            Some(error) => error.retriable && error.code != SessionErrorCode::Other,
            None => false,
        }) && status.waits_when_stale && supports_wait,
{
    status.state == SandboxSessionState::Bootstrapping && (match status.error {
        Some(error) => error.retriable && error.code != SessionErrorCode::Other,
        None => false,
    }) && status.waits_when_stale && supports_wait
}

/// Why nothing can be exported from a session.
#[derive(Debug, PartialEq, Eq)]
pub enum SessionRefusal {
    NotReady { state: SandboxSessionState, code: Option<SessionErrorCode> },
    InvalidReady(&'static str),
}

/// Whether something can be exported from a session.
pub fn ensure_session_ready(status: SessionStatus) -> (r: Result<(), SessionRefusal>)
    ensures
        if status.state != SandboxSessionState::Ready {
            r == Err::<(), _>(
                SessionRefusal::NotReady {
                    state: status.state,
                    code: match status.error {
                        Some(error) => Some(error.code),
                        None => None,
                    },
                },
            )
        } else if status.error is Some {
            r matches Err(SessionRefusal::InvalidReady(why)) && why@ == "error is present"@
        } else if !status.has_export_limits {
            r matches Err(SessionRefusal::InvalidReady(why)) && why@
                == "export-attempt limits are absent"@
        } else {
            r is Ok
        },
{
    if status.state != SandboxSessionState::Ready {
        return Err(
            SessionRefusal::NotReady {
                state: status.state,
                code: match status.error {
                    Some(error) => Some(error.code),
                    None => None,
                },
            },
        );
    }
    if status.error.is_some() {
        return Err(SessionRefusal::InvalidReady("error is present"));
    }
    if !status.has_export_limits {
        return Err(SessionRefusal::InvalidReady("export-attempt limits are absent"));
    }
    Ok(())
}

/// How an export is encoded.
#[derive(Clone, Copy, Debug, PartialEq, Eq, Structural)]
pub enum ReplicaArchiveEncoding {
    Identity,
    Zstd,
}

impl ReplicaArchiveEncoding {
    /// The name of the encoding.
    pub open spec fn name(self) -> Seq<char> {
        match self {
            ReplicaArchiveEncoding::Identity => "identity"@,
            ReplicaArchiveEncoding::Zstd => "zstd"@,
        }
    }
}

/// The name of an encoding.
pub fn encoding_name(encoding: ReplicaArchiveEncoding) -> (r: &'static str)
    ensures
        r@ == encoding.name(),
{
    match encoding {
        ReplicaArchiveEncoding::Identity => "identity",
        ReplicaArchiveEncoding::Zstd => "zstd",
    }
}

/// Refuses an export that is not encoded as was asked for, and says how it is.
pub fn ensure_export_encoding(
    required: Option<ReplicaArchiveEncoding>,
    offered: ReplicaArchiveEncoding,
) -> (r: Result<(), String>)
    ensures
        match required {
            Some(wanted) if wanted != offered => r matches Err(m) && m@ == offered.name()
                + " (requested "@ + wanted.name() + ")"@,
            _ => r is Ok,
        },
{
    match required {
        Some(wanted) => if wanted != offered {
            let mut message = text::concat3(
                encoding_name(offered),
                " (requested ",
                encoding_name(wanted),
            );
            message.append(")");
            Err(message)
        } else {
            Ok(())
        },
        None => Ok(()),
    }
}

/// The report of an attachment that is in place.
pub fn attach_report(
    identity: &HostedWorkspaceIdentity,
    profile_revision: u64,
    root: String,
    entries: &Vec<SessionMount>,
    files: u64,
    directories: u64,
    materialized_bytes: u64,
) -> (r: Result<HostedWorkspaceAttachReport, HostedWorkspaceAttachError>)
    ensures
        if is_ambiguous(entries@) {
            r matches Err(e) && hosted_workspace::needs_recovery(
                e,
                "session maps one portable mount ID to several targets"@,
            )
        } else {
            r matches Ok(report) && report == (HostedWorkspaceAttachReport {
                ok: true,
                api_origin: identity.api_origin,
                profile_id: identity.profile_id,
                profile_revision,
                root,
                mount_count: report.mount_count,
                files,
                directories,
                materialized_bytes,
            }) && report.mount_count == ordered_map::collected(entries@).len()
        },
{
    let mounts = match unique_session_mounts(entries) {
        Ok(mounts) => mounts,
        Err(e) => {
            return Err(e);
        },
    };
    Ok(
        HostedWorkspaceAttachReport {
            ok: true,
            api_origin: identity.api_origin.clone(),
            profile_id: identity.profile_id.clone(),
            profile_revision,
            root,
            mount_count: mounts.len(),
            files,
            directories,
            materialized_bytes,
        },
    )
}

/// A mapping as the list shows it.
pub open spec fn listed(m: HostedWorkspaceMountMapping) -> HostedWorkspaceMountListEntry {
    HostedWorkspaceMountListEntry {
        portable_mount_id: m.portable_mount_id,
        local_mount_id: m.local_mount_id,
        mount_target: m.mount_target,
        active: m.active,
    }
}

/// Whether an entry of the list shows an attachment and its mappings.
pub open spec fn is_list_entry(
    entry: HostedWorkspaceListEntry,
    attachment: HostedWorkspaceAttachment,
    mappings: Seq<HostedWorkspaceMountMapping>,
) -> bool {
    &&& entry.api_origin == attachment.identity.api_origin
    &&& entry.profile_id == attachment.identity.profile_id
    &&& entry.profile_revision == attachment.profile_revision
    &&& entry.root == attachment.root
    &&& entry.layout_version == attachment.layout_version
    &&& entry.layout_digest == attachment.layout_digest
    &&& entry.mounts@ == mappings.map_values(|m: HostedWorkspaceMountMapping| listed(m))
}

fn list_entry(
    attachment: HostedWorkspaceAttachment,
    mappings: Vec<HostedWorkspaceMountMapping>,
) -> (r: HostedWorkspaceListEntry)
    ensures
        is_list_entry(r, attachment, mappings@),
{
    let mut mounts: Vec<HostedWorkspaceMountListEntry> = Vec::new();
    for m in it: mappings
        invariant
            it.seq() == mappings@,
            mounts.len() == it.index(),
            forall|k: int| 0 <= k < mounts.len() ==> #[trigger] mounts[k] == listed(mappings[k]),
    {
        mounts.push(
            HostedWorkspaceMountListEntry {
                portable_mount_id: m.portable_mount_id,
                local_mount_id: m.local_mount_id,
                mount_target: m.mount_target,
                active: m.active,
            },
        );
    }
    assert(mounts@ =~= mappings@.map_values(|m: HostedWorkspaceMountMapping| listed(m)));
    HostedWorkspaceListEntry {
        api_origin: attachment.identity.api_origin,
        profile_id: attachment.identity.profile_id,
        profile_revision: attachment.profile_revision,
        root: attachment.root,
        layout_version: attachment.layout_version,
        layout_digest: attachment.layout_digest,
        mounts,
    }
}

/// The list of attachments, each with its mappings, in the order given.
pub fn list_hosted_workspace_attachments(
    attachments: Vec<(HostedWorkspaceAttachment, Vec<HostedWorkspaceMountMapping>)>,
) -> (r: HostedWorkspaceListReport)
    ensures
        r.ok,
        r.attachments.len() == attachments.len(),
        forall|k: int|
            0 <= k < attachments.len() ==> is_list_entry(
                #[trigger] r.attachments[k],
                attachments[k].0,
                attachments[k].1@,
            ),
{
    let mut entries: Vec<HostedWorkspaceListEntry> = Vec::new();
    for x in it: attachments
        invariant
            it.seq() == attachments@,
            entries.len() == it.index(),
            forall|k: int|
                0 <= k < entries.len() ==> is_list_entry(
                    #[trigger] entries[k],
                    attachments[k].0,
                    attachments[k].1@,
                ),
    {
        entries.push(list_entry(x.0, x.1));
    }
    HostedWorkspaceListReport { ok: true, attachments: entries }
}

} // verus!
