//! The order in which a hosted workspace is attached, refreshed or moved: what
//! is done next, from where it shall lie to what is reported of it.
use vstd::prelude::*;

use crate::hosted_state;
use crate::hosted_state::{
    ProfileSession, ReplicaArchiveEncoding, SessionRefusal, SessionStatus,
};
use crate::hosted_workspace;
use crate::hosted_workspace::{
    HostedWorkspaceAttachError, HostedWorkspaceAttachReport, HostedWorkspaceIdentity,
    HostedWorkspaceOperation, ParentState,
};
use crate::model::StoreError;
use crate::ordered_map;
use crate::paths;
use crate::paths::PathStyle;
use crate::text;

verus! {

/// Where a workspace shall lie, and what is done with it; without an operation
/// it is attached, or refreshed where it is attached already.
#[derive(Debug, PartialEq, Eq)]
pub struct AttachRequest {
    pub operation: Option<HostedWorkspaceOperation>,
    pub root: String,
    pub current_dir: Result<String, String>,
}

/// What is seen of the place where a workspace shall lie.
#[derive(Debug, PartialEq, Eq)]
pub struct SeenRoot {
    pub parent: ParentState,
    pub exists: bool,
}

/// The session that the hosted service agreed to.
#[derive(Debug, PartialEq, Eq)]
pub enum Negotiated {
    /// One of the first generation, which cannot be attached.
    GenerationOne,
    GenerationTwo(OpenedProfile),
}

/// A profile whose session is open.
#[derive(Debug, PartialEq, Eq)]
pub struct OpenedProfile {
    pub identity: HostedWorkspaceIdentity,
    pub session: ProfileSession,
}

/// What the store has of the workspace: its root, if it is attached, and
/// whether that is the root that was asked for.
#[derive(Debug, PartialEq, Eq)]
pub struct KnownAttachment {
    pub root: Option<String>,
    pub same_root: bool,
}

/// What was published, and whether the store was told of it.
#[derive(Clone, Copy, Debug, PartialEq, Eq, Structural)]
pub struct PublishedFiles {
    pub files: u64,
    pub directories: u64,
    pub content_bytes: u64,
    pub committed: bool,
}

/// What is known so far of a workspace that is being attached.
#[derive(Debug, PartialEq, Eq)]
pub struct AttachProgress {
    pub seen: Option<SeenRoot>,
    pub session: Option<Result<Negotiated, HostedWorkspaceAttachError>>,
    /// That what an earlier attempt left behind was dealt with.
    pub recovered: Option<Result<(), HostedWorkspaceAttachError>>,
    pub known: Option<Result<KnownAttachment, StoreError>>,
    /// The identifier of the transition that was prepared.
    pub prepared: Option<Result<String, HostedWorkspaceAttachError>>,
    /// That the lock of the transition is held, or why it is not.
    pub locked: Option<Result<(), String>>,
    /// That the transition stands in the store and keeps its place.
    pub reserved: Option<Result<(), HostedWorkspaceAttachError>>,
    /// That the files lie ready beside their place.
    pub staged: Option<Result<(), HostedWorkspaceAttachError>>,
    /// That nothing stands in the way of publishing them.
    pub cleared: Option<Result<(), HostedWorkspaceAttachError>>,
    pub published: Option<Result<PublishedFiles, HostedWorkspaceAttachError>>,
    /// That what the workspace has left was removed.
    pub cleaned: Option<Result<(), HostedWorkspaceAttachError>>,
}

/// What is done next to attach a workspace.
#[derive(Debug, PartialEq, Eq)]
pub enum AttachAction {
    LookAt(String),
    OpenSession,
    Recover,
    /// Look the workspace up; its root is compared with this one.
    LookUp(String),
    Prepare(String),
    LockTransition(String),
    Reserve(String),
    Download(String),
    /// Take the transition back, and fail.
    Abandon(String, HostedWorkspaceAttachError),
    Clear(String),
    Publish(String),
    CleanUp,
    Report(HostedWorkspaceAttachReport),
    Fail(HostedWorkspaceAttachError),
}

/// The whole path of a root, or why it cannot be one.
pub open spec fn whole_root(
    style: PathStyle,
    root: Seq<char>,
    current_dir: Result<String, String>,
) -> Result<
    Seq<char>,
    Seq<char>,
> {
    match current_dir {
        Err(why) if !paths::absolute(style, root) => Err(why@),
        _ => {
            let path = match current_dir {
                Ok(dir) => hosted_workspace::absolute_root(style, root, dir@),
                Err(_) => root,
            };
            if hosted_workspace::has_dots(paths::components(style, path)) {
                Err("hosted workspace root must not contain `.` or `..` components"@)
            } else {
                Ok(path)
            }
        },
    }
}

/// Why nothing can be put at a root that looks like this.
pub open spec fn place_refusal(
    style: PathStyle,
    operation: Option<HostedWorkspaceOperation>,
    root: Seq<char>,
    seen: SeenRoot,
) -> Option<Seq<char>> {
    match (paths::parent_of(style, root), seen.parent) {
        (None, _) => Some("hosted workspace root must have an existing parent"@),
        (Some(parent), ParentState::Unavailable(why)) => Some(
            "hosted workspace parent `"@ + parent + "` is unavailable: "@ + why@,
        ),
        (Some(parent), ParentState::Other) => Some(
            "hosted workspace parent `"@ + parent + "` must be a real directory"@,
        ),
        (Some(parent), ParentState::RealDirectory) => if operation == Some(
            HostedWorkspaceOperation::Relocate,
        ) && seen.exists {
            Some("hosted workspace relocation destination `"@ + root + "` must be absent"@)
        } else {
            None
        },
    }
}

/// The root that an operation works on: the recorded one, where it is kept.
pub open spec fn kept_root(
    operation: Option<HostedWorkspaceOperation>,
    root: Seq<char>,
    known: KnownAttachment,
) -> Seq<char> {
    match (operation, known.root) {
        (Some(HostedWorkspaceOperation::Refresh), Some(recorded)) => recorded@,
        (None, Some(recorded)) => recorded@,
        _ => root,
    }
}

/// What is reported once everything is done.
pub open spec fn follows_publication(
    profile: OpenedProfile,
    root: Seq<char>,
    done: PublishedFiles,
    p: AttachProgress,
    r: AttachAction,
) -> bool {
    if !done.committed {
        r matches AttachAction::Fail(e) && hosted_workspace::needs_recovery(
            e,
            "publication completed without committing attachment state"@,
        )
    } else {
        match p.cleaned {
            None => r is CleanUp,
            Some(Err(e)) => r == AttachAction::Fail(e),
            Some(Ok(_)) => if hosted_state::is_ambiguous(profile.session.entries@) {
                r matches AttachAction::Fail(e) && hosted_workspace::needs_recovery(
                    e,
                    "session maps one portable mount ID to several targets"@,
                )
            } else {
                r matches AttachAction::Report(report) && report == (HostedWorkspaceAttachReport {
                    ok: true,
                    api_origin: profile.identity.api_origin,
                    profile_id: profile.identity.profile_id,
                    profile_revision: profile.session.profile_revision,
                    root: report.root,
                    mount_count: report.mount_count,
                    files: done.files,
                    directories: done.directories,
                    materialized_bytes: done.content_bytes,
                }) && report.root@ == root && report.mount_count == ordered_map::collected(
                    profile.session.entries@,
                ).len()
            },
        }
    }
}

/// What follows once the transition is locked: it is reserved, its files are
/// brought and checked, and only then published.
pub open spec fn follows_lock(
    profile: OpenedProfile,
    root: Seq<char>,
    transition_id: Seq<char>,
    p: AttachProgress,
    r: AttachAction,
) -> bool {
    match (p.reserved, p.staged, p.cleared, p.published) {
        (None, _, _, _) => r matches AttachAction::Reserve(at) && at@ == root,
        (Some(Err(e)), _, _, _) => r == AttachAction::Fail(e),
        (Some(Ok(_)), None, _, _) => r matches AttachAction::Download(to) && to@ == root,
        (Some(Ok(_)), Some(Err(why)), _, _) => r matches AttachAction::Abandon(id, e) && id@
            == transition_id && e == why,
        (Some(Ok(_)), Some(Ok(_)), None, _) => r matches AttachAction::Clear(at) && at@ == root,
        (Some(Ok(_)), Some(Ok(_)), Some(Err(e)), _) => r == AttachAction::Fail(e),
        (Some(Ok(_)), Some(Ok(_)), Some(Ok(_)), None) => r matches AttachAction::Publish(at)
            && at@ == root,
        (Some(Ok(_)), Some(Ok(_)), Some(Ok(_)), Some(Err(e))) => r == AttachAction::Fail(e),
        (Some(Ok(_)), Some(Ok(_)), Some(Ok(_)), Some(Ok(done))) => follows_publication(
            profile,
            root,
            done,
            p,
            r,
        ),
    }
}

/// What follows once the profile is open and earlier attempts are dealt with.
pub open spec fn follows_profile(
    operation: Option<HostedWorkspaceOperation>,
    root: Seq<char>,
    profile: OpenedProfile,
    p: AttachProgress,
    r: AttachAction,
) -> bool {
    match p.known {
        None => r matches AttachAction::LookUp(asked) && asked@ == root,
        Some(Err(e)) => r == AttachAction::Fail(HostedWorkspaceAttachError::Store(e)),
        Some(Ok(known)) => match hosted_workspace::operation_refusal(
            operation,
            known.root is Some,
            known.same_root,
        ) {
            Some(why) => r matches AttachAction::Fail(e) && hosted_workspace::refuses_placement(
                e,
                why,
            ),
            None => {
                let kept = kept_root(operation, root, known);
                match (p.prepared, p.locked) {
                    (None, _) => r matches AttachAction::Prepare(at) && at@ == kept,
                    (Some(Err(e)), _) => r == AttachAction::Fail(e),
                    (Some(Ok(id)), None) => r matches AttachAction::LockTransition(i) && i@ == id@,
                    (Some(Ok(id)), Some(Err(why))) => r == AttachAction::Fail(
                        HostedWorkspaceAttachError::Lock(why),
                    ),
                    (Some(Ok(id)), Some(Ok(_))) => follows_lock(profile, kept, id@, p, r),
                }
            },
        },
    }
}

/// What follows on what is known of a workspace: its place has to be fit before
/// the hosted service is asked, and what an earlier attempt left is dealt with
/// before anything new is begun.
pub open spec fn follows_attach(
    style: PathStyle,
    request: AttachRequest,
    p: AttachProgress,
    r: AttachAction,
) -> bool {
    match whole_root(style, request.root@, request.current_dir) {
        Err(why) => r matches AttachAction::Fail(e) && hosted_workspace::refuses_placement(e, why),
        Ok(root) => match p.seen {
            None => r matches AttachAction::LookAt(at) && at@ == root,
            Some(seen) => match (place_refusal(style, request.operation, root, seen), p.session) {
                (Some(why), _) => r matches AttachAction::Fail(e)
                    && hosted_workspace::refuses_placement(e, why),
                (None, None) => r is OpenSession,
                (None, Some(Err(e))) => r == AttachAction::Fail(e),
                (None, Some(Ok(Negotiated::GenerationOne))) => r == AttachAction::Fail(
                    HostedWorkspaceAttachError::GenerationTwoRequired,
                ),
                (None, Some(Ok(Negotiated::GenerationTwo(profile)))) => match p.recovered {
                    None => r is Recover,
                    Some(Err(e)) => r == AttachAction::Fail(e),
                    Some(Ok(_)) => follows_profile(request.operation, root, profile, p, r),
                },
            },
        },
    }
}

fn store_copy(error: &StoreError) -> (r: StoreError)
    ensures
        r == *error,
{
    StoreError { kind: error.kind, message: error.message.clone() }
}

fn own_copy(error: &HostedWorkspaceAttachError) -> (r: HostedWorkspaceAttachError)
    ensures
        r == *error,
{
    match error {
        HostedWorkspaceAttachError::InvalidPlacement(why) => {
            HostedWorkspaceAttachError::InvalidPlacement(why.clone())
        },
        HostedWorkspaceAttachError::Credential { code, message } => {
            HostedWorkspaceAttachError::Credential { code: code.clone(), message: message.clone() }
        },
        HostedWorkspaceAttachError::Protocol { code, message } => {
            HostedWorkspaceAttachError::Protocol { code: code.clone(), message: message.clone() }
        },
        HostedWorkspaceAttachError::Store(e) => HostedWorkspaceAttachError::Store(store_copy(e)),
        HostedWorkspaceAttachError::Lock(why) => HostedWorkspaceAttachError::Lock(why.clone()),
        HostedWorkspaceAttachError::Materialization(why) => {
            HostedWorkspaceAttachError::Materialization(why.clone())
        },
        HostedWorkspaceAttachError::GenerationTwoRequired => {
            HostedWorkspaceAttachError::GenerationTwoRequired
        },
        HostedWorkspaceAttachError::Recovery(why) => {
            HostedWorkspaceAttachError::Recovery(why.clone())
        },
    }
}

fn parent_copy(state: &ParentState) -> (r: ParentState)
    ensures
        r == *state,
{
    match state {
        ParentState::Unavailable(why) => ParentState::Unavailable(why.clone()),
        ParentState::RealDirectory => ParentState::RealDirectory,
        ParentState::Other => ParentState::Other,
    }
}

fn dir_copy(dir: &Result<String, String>) -> (r: Result<String, String>)
    ensures
        r == *dir,
{
    match dir {
        Ok(path) => Ok(path.clone()),
        Err(why) => Err(why.clone()),
    }
}

fn after_publication(
    profile: &OpenedProfile,
    root: String,
    done: PublishedFiles,
    p: &AttachProgress,
) -> (r: AttachAction)
    ensures
        follows_publication(*profile, root@, done, *p, r),
{
    if let Err(e) = hosted_state::ensure_committed(done.committed) {
        return AttachAction::Fail(e);
    }
    match &p.cleaned {
        None => AttachAction::CleanUp,
        Some(Err(e)) => AttachAction::Fail(own_copy(e)),
        Some(Ok(_)) => match hosted_state::attach_report(
            &profile.identity,
            profile.session.profile_revision,
            root,
            &profile.session.entries,
            done.files,
            done.directories,
            done.content_bytes,
        ) {
            Ok(report) => AttachAction::Report(report),
            Err(e) => AttachAction::Fail(e),
        },
    }
}

fn after_lock(
    profile: &OpenedProfile,
    root: String,
    transition_id: &String,
    p: &AttachProgress,
) -> (r: AttachAction)
    ensures
        follows_lock(*profile, root@, transition_id@, *p, r),
{
    match &p.reserved {
        None => {
            return AttachAction::Reserve(root);
        },
        Some(Err(e)) => {
            return AttachAction::Fail(own_copy(e));
        },
        Some(Ok(_)) => {},
    }
    match &p.staged {
        None => {
            return AttachAction::Download(root);
        },
        Some(Err(e)) => {
            return AttachAction::Abandon(transition_id.clone(), own_copy(e));
        },
        Some(Ok(_)) => {},
    }
    match &p.cleared {
        None => {
            return AttachAction::Clear(root);
        },
        Some(Err(e)) => {
            return AttachAction::Fail(own_copy(e));
        },
        Some(Ok(_)) => {},
    }
    match &p.published {
        None => AttachAction::Publish(root),
        Some(Err(e)) => AttachAction::Fail(own_copy(e)),
        Some(Ok(done)) => after_publication(profile, root, *done, p),
    }
}

fn after_profile(
    operation: Option<HostedWorkspaceOperation>,
    root: String,
    profile: &OpenedProfile,
    p: &AttachProgress,
) -> (r: AttachAction)
    ensures
        follows_profile(operation, root@, *profile, *p, r),
{
    let known = match &p.known {
        None => {
            return AttachAction::LookUp(root);
        },
        Some(Err(e)) => {
            return AttachAction::Fail(HostedWorkspaceAttachError::Store(store_copy(e)));
        },
        Some(Ok(known)) => known,
    };
    let kept = match hosted_workspace::resolve_operation_root(
        operation,
        root,
        text::clone_option(&known.root),
        known.same_root,
    ) {
        Ok(kept) => kept,
        Err(e) => {
            return AttachAction::Fail(e);
        },
    };
    let transition_id = match &p.prepared {
        None => {
            return AttachAction::Prepare(kept);
        },
        Some(Err(e)) => {
            return AttachAction::Fail(own_copy(e));
        },
        Some(Ok(id)) => id,
    };
    match &p.locked {
        None => AttachAction::LockTransition(transition_id.clone()),
        Some(Err(why)) => AttachAction::Fail(HostedWorkspaceAttachError::Lock(why.clone())),
        Some(Ok(_)) => after_lock(profile, kept, transition_id, p),
    }
}

/// What is done next to attach, refresh or move a hosted workspace.
pub fn attach(
    style: PathStyle,
    request: &AttachRequest,
    progress: &AttachProgress,
) -> (r: AttachAction)
    ensures
        follows_attach(style, *request, *progress, r),
{
    let root = match hosted_workspace::absolute_normalized_root(
        style,
        &request.root,
        dir_copy(&request.current_dir),
    ) {
        Ok(root) => root,
        Err(e) => {
            return AttachAction::Fail(e);
        },
    };
    let seen = match &progress.seen {
        None => {
            return AttachAction::LookAt(root);
        },
        Some(seen) => seen,
    };
    if let Err(e) = hosted_workspace::validate_destination_parent(
        style,
        &root,
        parent_copy(&seen.parent),
    ) {
        return AttachAction::Fail(e);
    }
    if let Err(e) = hosted_workspace::ensure_relocation_target_absent(
        request.operation,
        &root,
        seen.exists,
    ) {
        return AttachAction::Fail(e);
    }
    let profile = match &progress.session {
        None => {
            return AttachAction::OpenSession;
        },
        Some(Err(e)) => {
            return AttachAction::Fail(own_copy(e));
        },
        Some(Ok(Negotiated::GenerationOne)) => {
            return AttachAction::Fail(HostedWorkspaceAttachError::GenerationTwoRequired);
        },
        Some(Ok(Negotiated::GenerationTwo(profile))) => profile,
    };
    match &progress.recovered {
        None => AttachAction::Recover,
        Some(Err(e)) => AttachAction::Fail(own_copy(e)),
        Some(Ok(_)) => after_profile(request.operation, root, profile, progress),
    }
}

/// What is known so far of a download.
#[derive(Debug, PartialEq, Eq)]
pub struct DownloadProgress {
    pub status: Option<Result<SessionStatus, HostedWorkspaceAttachError>>,
    /// Whether the wait for a fresh session came to its end.
    pub waited: Option<Result<bool, HostedWorkspaceAttachError>>,
    /// The status after the wait.
    pub renewed: Option<Result<SessionStatus, HostedWorkspaceAttachError>>,
    /// How what the service offers is encoded.
    pub offered: Option<Result<ReplicaArchiveEncoding, HostedWorkspaceAttachError>>,
}

/// What is done next to bring the files of a workspace.
#[derive(Debug, PartialEq, Eq)]
pub enum DownloadAction {
    AskStatus,
    WaitForFreshness,
    RenewStatus,
    RequestExport,
    Stage,
    /// The session cannot be exported.
    Refuse(SessionRefusal),
    /// The export is not encoded as it has to be.
    RefuseEncoding(String),
    Fail(HostedWorkspaceAttachError),
}

/// What follows once a status stands for the session.
pub open spec fn follows_status(
    status: SessionStatus,
    required: Option<ReplicaArchiveEncoding>,
    p: DownloadProgress,
    r: DownloadAction,
) -> bool {
    if status.state != hosted_state::SandboxSessionState::Ready {
        r == DownloadAction::Refuse(
            SessionRefusal::NotReady {
                state: status.state,
                code: match status.error {
                    Some(error) => Some(error.code),
                    None => None,
                },
            },
        )
    } else if status.error is Some {
        r matches DownloadAction::Refuse(SessionRefusal::InvalidReady(why)) && why@
            == "error is present"@
    } else if !status.has_export_limits {
        r matches DownloadAction::Refuse(SessionRefusal::InvalidReady(why)) && why@
            == "export-attempt limits are absent"@
    } else {
        match (p.offered, required) {
            (None, _) => r is RequestExport,
            (Some(Err(e)), _) => r == DownloadAction::Fail(e),
            (Some(Ok(offered)), Some(wanted)) => if wanted == offered {
                r is Stage
            } else {
                r matches DownloadAction::RefuseEncoding(why) && why@ == offered.name()
                    + " (requested "@ + wanted.name() + ")"@
            },
            (Some(Ok(_)), None) => r is Stage,
        }
    }
}

/// What follows on what is known of a download: a session that is still being
/// made ready is waited for once, where it can be.
pub open spec fn follows_download(
    supports_wait: bool,
    required: Option<ReplicaArchiveEncoding>,
    p: DownloadProgress,
    r: DownloadAction,
) -> bool {
    match p.status {
        None => r is AskStatus,
        Some(Err(e)) => r == DownloadAction::Fail(e),
        Some(Ok(status)) => if hosted_state::should_wait_for_freshness(status, supports_wait) {
            match (p.waited, p.renewed) {
                (None, _) => r is WaitForFreshness,
                (Some(Err(e)), _) => r == DownloadAction::Fail(e),
                (Some(Ok(false)), _) => follows_status(status, required, p, r),
                (Some(Ok(true)), None) => r is RenewStatus,
                (Some(Ok(true)), Some(Err(e))) => r == DownloadAction::Fail(e),
                (Some(Ok(true)), Some(Ok(renewed))) => follows_status(renewed, required, p, r),
            }
        } else {
            follows_status(status, required, p, r)
        },
    }
}

fn after_status(
    status: SessionStatus,
    required: Option<ReplicaArchiveEncoding>,
    p: &DownloadProgress,
) -> (r: DownloadAction)
    ensures
        follows_status(status, required, *p, r),
{
    if let Err(refusal) = hosted_state::ensure_session_ready(status) {
        return DownloadAction::Refuse(refusal);
    }
    match &p.offered {
        None => DownloadAction::RequestExport,
        Some(Err(e)) => DownloadAction::Fail(own_copy(e)),
        Some(Ok(offered)) => match hosted_state::ensure_export_encoding(required, *offered) {
            Ok(_) => DownloadAction::Stage,
            Err(why) => DownloadAction::RefuseEncoding(why),
        },
    }
}

/// What is done next to bring the files of a workspace.
pub fn download_and_stage(
    supports_wait: bool,
    required: Option<ReplicaArchiveEncoding>,
    progress: &DownloadProgress,
) -> (r: DownloadAction)
    ensures
        follows_download(supports_wait, required, *progress, r),
{
    let status = match &progress.status {
        None => {
            return DownloadAction::AskStatus;
        },
        Some(Err(e)) => {
            return DownloadAction::Fail(own_copy(e));
        },
        Some(Ok(status)) => *status,
    };
    if !hosted_state::should_wait_for_freshness(status, supports_wait) {
        return after_status(status, required, progress);
    }
    match &progress.waited {
        None => DownloadAction::WaitForFreshness,
        Some(Err(e)) => DownloadAction::Fail(own_copy(e)),
        Some(Ok(false)) => after_status(status, required, progress),
        Some(Ok(true)) => match &progress.renewed {
            None => DownloadAction::RenewStatus,
            Some(Err(e)) => DownloadAction::Fail(own_copy(e)),
            Some(Ok(renewed)) => after_status(*renewed, required, progress),
        },
    }
}

/// Every action asks for what is not known yet, so attaching goes forward to
/// its end.
pub proof fn law_attach_goes_forward(
    style: PathStyle,
    request: AttachRequest,
    p: AttachProgress,
    r: AttachAction,
)
    requires
        follows_attach(style, request, p, r),
    ensures
        r is LookAt ==> p.seen is None,
        r is OpenSession ==> p.session is None,
        r is Recover ==> p.recovered is None,
        r is LookUp ==> p.known is None,
        r is Prepare ==> p.prepared is None,
        r is LockTransition ==> p.locked is None,
        r is Reserve ==> p.reserved is None,
        r is Download ==> p.staged is None,
        r is Clear ==> p.cleared is None,
        r is Publish ==> p.published is None,
        r is CleanUp ==> p.cleaned is None,
{
}

/// Nothing is published before earlier attempts are dealt with, the transition
/// is locked and holds its place, its files lie ready and nothing stands in
/// their way; and it is published where the transition was prepared for.
pub proof fn law_publication_is_prepared(
    style: PathStyle,
    request: AttachRequest,
    p: AttachProgress,
    r: AttachAction,
    root: String,
)
    requires
        follows_attach(style, request, p, r),
        r == AttachAction::Publish(root),
    ensures
        p.recovered matches Some(Ok(_)),
        p.prepared matches Some(Ok(_)),
        p.locked matches Some(Ok(_)),
        p.reserved matches Some(Ok(_)),
        p.staged matches Some(Ok(_)),
        p.cleared matches Some(Ok(_)),
        follows_attach(
            style,
            request,
            AttachProgress { prepared: None, ..p },
            AttachAction::Prepare(root),
        ),
{
}

/// A transition whose files could not be brought is taken back, and is the only
/// one that is.
pub proof fn law_failed_download_is_abandoned(
    style: PathStyle,
    request: AttachRequest,
    p: AttachProgress,
    r: AttachAction,
)
    requires
        follows_attach(style, request, p, r),
    ensures
        r matches AttachAction::Abandon(id, e) ==> {
            &&& p.prepared matches Some(Ok(prepared))
            &&& id@ == prepared@
            &&& p.reserved matches Some(Ok(_))
            &&& p.staged == Some(Err::<(), _>(e))
        },
{
}

/// A report is made only of what was committed and cleaned up after.
pub proof fn law_report_follows_commit(
    style: PathStyle,
    request: AttachRequest,
    p: AttachProgress,
    r: AttachAction,
)
    requires
        follows_attach(style, request, p, r),
        r is Report,
    ensures
        p.published matches Some(Ok(done)) && done.committed,
        p.cleaned matches Some(Ok(_)),
{
}

/// Files are staged only of a session that is ready, without an error, and in
/// the encoding that is required.
pub proof fn law_only_ready_sessions_are_staged(
    supports_wait: bool,
    required: Option<ReplicaArchiveEncoding>,
    p: DownloadProgress,
    r: DownloadAction,
)
    requires
        follows_download(supports_wait, required, p, r),
        r is Stage,
    ensures
        exists|status: SessionStatus|
            {
                &&& p.status == Some(Ok::<_, HostedWorkspaceAttachError>(status)) || p.renewed
                    == Some(Ok::<_, HostedWorkspaceAttachError>(status))
                &&& #[trigger] is_ready(status)
            },
        p.offered matches Some(Ok(offered)) && (required matches Some(wanted) ==> wanted == offered),
{
    match p.status {
        Some(Ok(status)) => {
            assert(is_ready(status) || (p.renewed matches Some(Ok(renewed)) && is_ready(renewed)));
        },
        _ => {},
    }
}

/// Whether a session can be exported.
pub open spec fn is_ready(status: SessionStatus) -> bool {
    &&& status.state == hosted_state::SandboxSessionState::Ready
    &&& status.error is None
    &&& status.has_export_limits
}

} // verus!
