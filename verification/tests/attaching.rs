use loc_cli::hosted_flow::{
    attach, download_and_stage, AttachAction, AttachProgress, AttachRequest, DownloadAction,
    DownloadProgress, KnownAttachment, Negotiated, OpenedProfile, PublishedFiles, SeenRoot,
};
use loc_cli::hosted_state::{
    ProfileSession, ReplicaArchiveEncoding, SandboxSessionState, SessionError, SessionErrorCode,
    SessionMount, SessionRefusal, SessionStatus,
};
use loc_cli::hosted_workspace::{
    HostedWorkspaceAttachError, HostedWorkspaceIdentity, HostedWorkspaceOperation, ParentState,
};
use loc_cli::paths::PathStyle;

fn request(operation: Option<HostedWorkspaceOperation>, root: &str) -> AttachRequest {
    AttachRequest {
        operation,
        root: root.to_string(),
        current_dir: Ok("/home/ada".to_string()),
    }
}

fn nothing() -> AttachProgress {
    AttachProgress {
        seen: None,
        session: None,
        recovered: None,
        known: None,
        prepared: None,
        locked: None,
        reserved: None,
        staged: None,
        cleared: None,
        published: None,
        cleaned: None,
    }
}

fn seen(parent: ParentState, exists: bool) -> Option<SeenRoot> {
    Some(SeenRoot { parent, exists })
}

fn opened() -> Option<Result<Negotiated, HostedWorkspaceAttachError>> {
    Some(Ok(Negotiated::GenerationTwo(OpenedProfile {
        identity: HostedWorkspaceIdentity {
            api_origin: "https://api".to_string(),
            profile_id: "profile-1".to_string(),
        },
        session: ProfileSession {
            profile_revision: 7,
            layout_version: 2,
            layout_digest: "digest".to_string(),
            entries: vec![SessionMount {
                mount_id: "a".to_string(),
                target: "notion".to_string(),
            }],
        },
    })))
}

fn up_to_the_lock() -> AttachProgress {
    AttachProgress {
        seen: seen(ParentState::RealDirectory, false),
        session: opened(),
        recovered: Some(Ok(())),
        known: Some(Ok(KnownAttachment {
            root: None,
            same_root: false,
        })),
        prepared: Some(Ok("transition-1".to_string())),
        locked: Some(Ok(())),
        ..nothing()
    }
}

fn refused(action: AttachAction) -> String {
    match action {
        AttachAction::Fail(HostedWorkspaceAttachError::InvalidPlacement(why)) => why,
        other => panic!("should be refused: {other:?}"),
    }
}

fn lost() -> HostedWorkspaceAttachError {
    HostedWorkspaceAttachError::Materialization("lost".to_string())
}

#[test]
fn the_place_is_looked_at_before_the_service_is_asked() {
    let asked = request(None, "work");
    assert_eq!(
        attach(PathStyle::Unix, &asked, &nothing()),
        AttachAction::LookAt("/home/ada/work".to_string())
    );
    let mut progress = nothing();
    progress.seen = seen(ParentState::Other, false);
    assert_eq!(
        refused(attach(PathStyle::Unix, &asked, &progress)),
        "hosted workspace parent `/home/ada` must be a real directory"
    );
    progress.seen = seen(ParentState::Unavailable("gone".to_string()), false);
    assert_eq!(
        refused(attach(PathStyle::Unix, &asked, &progress)),
        "hosted workspace parent `/home/ada` is unavailable: gone"
    );
    progress.seen = seen(ParentState::RealDirectory, true);
    assert_eq!(attach(PathStyle::Unix, &asked, &progress), AttachAction::OpenSession);
    let moved = request(Some(HostedWorkspaceOperation::Relocate), "/w");
    assert_eq!(
        refused(attach(PathStyle::Unix, &moved, &progress)),
        "hosted workspace relocation destination `/w` must be absent"
    );
    assert!(refused(attach(PathStyle::Unix, &request(None, "../w"), &nothing())).contains("`..`"));
}

#[test]
fn the_profile_is_opened_and_recovered_first() {
    let asked = request(None, "/w");
    let mut progress = AttachProgress {
        seen: seen(ParentState::RealDirectory, false),
        ..nothing()
    };
    progress.session = Some(Ok(Negotiated::GenerationOne));
    assert_eq!(
        attach(PathStyle::Unix, &asked, &progress),
        AttachAction::Fail(HostedWorkspaceAttachError::GenerationTwoRequired)
    );
    progress.session = Some(Err(lost()));
    assert_eq!(attach(PathStyle::Unix, &asked, &progress), AttachAction::Fail(lost()));
    progress.session = opened();
    assert_eq!(attach(PathStyle::Unix, &asked, &progress), AttachAction::Recover);
    progress.recovered = Some(Err(lost()));
    assert_eq!(attach(PathStyle::Unix, &asked, &progress), AttachAction::Fail(lost()));
    progress.recovered = Some(Ok(()));
    assert_eq!(attach(PathStyle::Unix, &asked, &progress), AttachAction::LookUp("/w".to_string()));
}

#[test]
fn a_refresh_keeps_the_recorded_root() {
    let mut progress = AttachProgress {
        prepared: None,
        locked: None,
        ..up_to_the_lock()
    };
    let refresh = request(Some(HostedWorkspaceOperation::Refresh), "/W");
    assert_eq!(
        refused(attach(PathStyle::Unix, &refresh, &progress)),
        "hosted workspace profile is not attached; use attach first"
    );
    progress.known = Some(Ok(KnownAttachment {
        root: Some("/w".to_string()),
        same_root: true,
    }));
    assert_eq!(
        attach(PathStyle::Unix, &refresh, &progress),
        AttachAction::Prepare("/w".to_string()),
    );
    progress.prepared = Some(Ok("transition-1".to_string()));
    assert_eq!(
        attach(PathStyle::Unix, &refresh, &progress),
        AttachAction::LockTransition("transition-1".to_string())
    );
    progress.locked = Some(Err("busy".to_string()));
    assert_eq!(
        attach(PathStyle::Unix, &refresh, &progress),
        AttachAction::Fail(HostedWorkspaceAttachError::Lock("busy".to_string()))
    );
}

#[test]
fn files_are_published_once_they_are_staged_and_cleared() {
    let asked = request(None, "/w");
    let mut progress = up_to_the_lock();
    assert_eq!(attach(PathStyle::Unix, &asked, &progress), AttachAction::Reserve("/w".to_string()));
    progress.reserved = Some(Ok(()));
    assert_eq!(
        attach(PathStyle::Unix, &asked, &progress),
        AttachAction::Download("/w".to_string()),
    );
    progress.staged = Some(Err(lost()));
    assert_eq!(
        attach(PathStyle::Unix, &asked, &progress),
        AttachAction::Abandon("transition-1".to_string(), lost())
    );
    progress.staged = Some(Ok(()));
    assert_eq!(attach(PathStyle::Unix, &asked, &progress), AttachAction::Clear("/w".to_string()));
    progress.cleared = Some(Ok(()));
    assert_eq!(attach(PathStyle::Unix, &asked, &progress), AttachAction::Publish("/w".to_string()));
    let published = |committed: bool| PublishedFiles {
        files: 3,
        directories: 2,
        content_bytes: 90,
        committed,
    };
    progress.published = Some(Ok(published(false)));
    assert!(matches!(
        attach(PathStyle::Unix, &asked, &progress),
        AttachAction::Fail(HostedWorkspaceAttachError::Recovery(_))
    ));
    progress.published = Some(Ok(published(true)));
    assert_eq!(attach(PathStyle::Unix, &asked, &progress), AttachAction::CleanUp);
    progress.cleaned = Some(Ok(()));
    let AttachAction::Report(report) = attach(PathStyle::Unix, &asked, &progress) else {
        panic!("the workspace is attached");
    };
    assert_eq!(report.root, "/w");
    assert_eq!(report.profile_revision, 7);
    assert_eq!(report.mount_count, 1);
    assert_eq!((report.files, report.directories, report.materialized_bytes), (3, 2, 90));
}

fn status(state: SandboxSessionState, code: Option<SessionErrorCode>) -> SessionStatus {
    SessionStatus {
        state,
        error: code.map(|code| SessionError {
            code,
            retriable: true,
        }),
        waits_when_stale: true,
        has_export_limits: true,
    }
}

#[test]
fn a_session_is_waited_for_once() {
    let mut progress = DownloadProgress {
        status: None,
        waited: None,
        renewed: None,
        offered: None,
    };
    assert_eq!(download_and_stage(true, None, &progress), DownloadAction::AskStatus);
    let stale = status(SandboxSessionState::Bootstrapping, Some(SessionErrorCode::Stale));
    progress.status = Some(Ok(stale));
    assert_eq!(
        download_and_stage(true, None, &progress),
        DownloadAction::WaitForFreshness
    );
    assert!(matches!(
        download_and_stage(false, None, &progress),
        DownloadAction::Refuse(SessionRefusal::NotReady { .. })
    ));
    progress.waited = Some(Ok(true));
    assert_eq!(download_and_stage(true, None, &progress), DownloadAction::RenewStatus);
    progress.renewed = Some(Ok(status(SandboxSessionState::Ready, None)));
    assert_eq!(download_and_stage(true, None, &progress), DownloadAction::RequestExport);
    progress.offered = Some(Ok(ReplicaArchiveEncoding::Zstd));
    assert_eq!(download_and_stage(true, None, &progress), DownloadAction::Stage);
    assert_eq!(
        download_and_stage(true, Some(ReplicaArchiveEncoding::Identity), &progress),
        DownloadAction::RefuseEncoding("zstd (requested identity)".to_string())
    );
    progress.waited = Some(Ok(false));
    assert!(matches!(
        download_and_stage(true, None, &progress),
        DownloadAction::Refuse(SessionRefusal::NotReady { .. })
    ));
}
