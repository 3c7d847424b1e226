use loc_cli::connect::CredentialError;
use loc_cli::hosted_state::{
    attach_report, begin_recovery, checkpoint, cleanup_expectation, commit_staged_hosted_workspace,
    connector_mount_obstacles, drawn_transition, ensure_committed, ensure_export_encoding,
    ensure_session_ready, finish_recovery, hosted_workspace_obstacles, list_hosted_workspace_attachments,
    mappings_for_session, prepare_transition, recovery_credential, recovery_targets,
    should_wait_for_freshness, unique_session_mounts, ActiveMount, CredentialRefusal,
    HostedWorkspaceAttachment, HostedWorkspaceCleanup, HostedWorkspaceMountMapping,
    HostedWorkspaceTransitionKind, PendingHostedWorkspaceTransition,
    PreparedHostedWorkspaceTransition, ProfileSession, PublicationMetadata, RecoveryStart,
    RecoveryStep, ReplicaArchiveEncoding, SandboxSessionState, SessionError, SessionErrorCode,
    SessionMount, SessionRefusal, SessionStatus, TransitionLock,
};
use loc_cli::hosted_workspace::{
    absolute_normalized_root, deterministic_local_mount_id, drawn_local_id,
    ensure_relocation_target_absent, hosted_mount_id, local_id, random_local_id, resolve_operation_root,
    validate_destination_parent, HostedWorkspaceAttachError, HostedWorkspaceIdentity,
    HostedWorkspaceOperation, ParentState,
};
use loc_cli::paths::PathStyle;
use sha2::Digest;

fn identity(profile: &str) -> HostedWorkspaceIdentity {
    HostedWorkspaceIdentity {
        api_origin: "https://api.example.com".to_string(),
        profile_id: profile.to_string(),
    }
}

fn attachment(profile: &str, root: &str) -> HostedWorkspaceAttachment {
    HostedWorkspaceAttachment {
        identity: identity(profile),
        credential_ref: "ref".to_string(),
        root: root.to_string(),
        profile_revision: 6,
        layout_version: 1,
        layout_digest: "sha256:old".to_string(),
    }
}

fn pending(profile: &str, root: &str) -> PendingHostedWorkspaceTransition {
    PendingHostedWorkspaceTransition {
        prepared: PreparedHostedWorkspaceTransition {
            transition_id: "t1".to_string(),
            identity: identity(profile),
            credential_ref: "ref".to_string(),
            target_root: root.to_string(),
            profile_revision: 7,
            layout_version: 1,
            layout_digest: "sha256:new".to_string(),
            mappings: Vec::new(),
            prepared_at: "now".to_string(),
        },
        kind: HostedWorkspaceTransitionKind::Refresh,
    }
}

fn cleanup(profile: &str, root: &str) -> HostedWorkspaceCleanup {
    HostedWorkspaceCleanup {
        cleanup_id: "c1".to_string(),
        identity: identity(profile),
        credential_ref: "ref".to_string(),
        root: root.to_string(),
        profile_revision: 5,
        layout_version: 1,
        layout_digest: "sha256:older".to_string(),
    }
}

fn receipt(revision: u64, digest: &str) -> PublicationMetadata {
    PublicationMetadata {
        profile_id: "p".to_string(),
        profile_revision: revision,
        layout_version: 1,
        layout_digest: digest.to_string(),
    }
}

fn mount(id: &str, target: &str) -> SessionMount {
    SessionMount {
        mount_id: id.to_string(),
        target: target.to_string(),
    }
}

#[test]
fn local_mount_identifiers_are_hashes_of_their_origin() {
    let id = deterministic_local_mount_id(&identity("p"), "docs");
    let digest = sha2::Sha256::digest(
        b"locality.hosted-workspace.mount-id.v1\0https://api.example.com\0p\0docs",
    )
    .to_vec();
    assert_eq!(id, hosted_mount_id(&digest));
    assert_eq!(id.len(), "hosted-mount-".len() + 64);
    assert_eq!(hosted_mount_id(&vec![0, 171]), "hosted-mount-00ab");
    assert_ne!(id, deterministic_local_mount_id(&identity("p"), "doc"));
    assert_ne!(id, deterministic_local_mount_id(&identity("q"), "docs"));
}

#[test]
fn random_identifiers_differ() {
    let first = random_local_id("hosted-transition").expect("random bytes");
    let second = random_local_id("hosted-transition").expect("random bytes");
    assert_ne!(first, second);
    let hex = first.strip_prefix("hosted-transition-").expect("prefix");
    assert_eq!(hex.len(), 32);
    assert!(hex.chars().all(|c| c.is_ascii_hexdigit()));
    assert_eq!(local_id("x", &vec![1, 255]), "x-01ff");
}

#[test]
fn roots_are_absolute_and_without_dots() {
    assert_eq!(
        absolute_normalized_root(
            PathStyle::Unix,
            "Work",
            Ok("/home/ada".to_string()),
        ).expect("root"),
        "/home/ada/Work"
    );
    assert_eq!(
        absolute_normalized_root(PathStyle::Unix, "/Work", Err("gone".to_string())).expect("root"),
        "/Work"
    );
    assert!(matches!(
        absolute_normalized_root(PathStyle::Unix, "Work", Err("gone".to_string())),
        Err(HostedWorkspaceAttachError::InvalidPlacement(why)) if why == "gone"
    ));
    assert!(matches!(
        absolute_normalized_root(PathStyle::Unix, "/a/../b", Ok("/".to_string())),
        Err(HostedWorkspaceAttachError::InvalidPlacement(why))
            if why == "hosted workspace root must not contain `.` or `..` components"
    ));
    let directory = ParentState::RealDirectory;
    validate_destination_parent(PathStyle::Unix, "/a/b", directory).expect("directory");
    assert!(validate_destination_parent(PathStyle::Unix, "/a/b", ParentState::Other).is_err());
    assert!(validate_destination_parent(PathStyle::Unix, "/", ParentState::RealDirectory).is_err());
    assert_eq!(
        validate_destination_parent(
            PathStyle::Unix,
            "/a//b/c",
            ParentState::Unavailable("gone".to_string())
        ),
        Err(HostedWorkspaceAttachError::InvalidPlacement(
            "hosted workspace parent `/a//b` is unavailable: gone".to_string()
        ))
    );
}

#[test]
fn operations_keep_to_the_state_of_the_workspace() {
    let at = |operation, existing: Option<&str>, same| {
        resolve_operation_root(
            operation,
            "/new".to_string(),
            existing.map(str::to_string),
            same,
        )
    };
    use_root(at(Some(HostedWorkspaceOperation::Attach), None, false), "/new");
    use_root(at(None, None, false), "/new");
    use_root(at(Some(HostedWorkspaceOperation::Refresh), Some("/old"), true), "/old");
    use_root(at(None, Some("/old"), true), "/old");
    use_root(at(Some(HostedWorkspaceOperation::Relocate), Some("/old"), false), "/new");
    for (operation, existing, same, why) in [
        (
            Some(HostedWorkspaceOperation::Attach),
            Some("/old"),
            true,
            "hosted workspace profile is already attached; use refresh or relocate",
        ),
        (
            Some(HostedWorkspaceOperation::Refresh),
            None,
            false,
            "hosted workspace profile is not attached; use attach first",
        ),
        (
            Some(HostedWorkspaceOperation::Relocate),
            Some("/old"),
            true,
            "hosted workspace relocation destination must differ from the active root",
        ),
        (
            None,
            Some("/old"),
            false,
            "hosted workspace root changed; use the explicit relocate workflow",
        ),
    ] {
        assert_eq!(
            at(operation, existing, same),
            Err(HostedWorkspaceAttachError::InvalidPlacement(why.to_string()))
        );
    }
    assert!(
        ensure_relocation_target_absent(Some(HostedWorkspaceOperation::Relocate), "/new", true)
            .is_err()
    );
    ensure_relocation_target_absent(Some(HostedWorkspaceOperation::Attach), "/new", true)
        .expect("not a relocation");
}

fn use_root(root: Result<String, HostedWorkspaceAttachError>, expected: &str) {
    assert_eq!(root.expect("root"), expected);
}

#[test]
fn claimed_roots_stand_in_the_way() {
    let mounts = || {
        vec![ActiveMount {
            mount_id: "notion-main".to_string(),
            root: "/n".to_string(),
        }]
    };
    let names = |found: Vec<ActiveMount>| -> Vec<(String, String)> {
        found.into_iter().map(|m| (m.mount_id, m.root)).collect()
    };
    assert_eq!(
        names(hosted_workspace_obstacles(
            PathStyle::Unix,
            mounts(),
            &vec![attachment("p", "/w"), attachment("q", "/q")],
            &vec![pending("p", "/w"), pending("q", "/q2")],
            &vec![cleanup("p", "/old")],
            &identity("p"),
            "/w",
        )),
        vec![
            ("notion-main".to_string(), "/n".to_string()),
            ("hosted-workspace-1".to_string(), "/q".to_string()),
            ("pending-hosted-workspace-1".to_string(), "/q2".to_string()),
            ("cleanup-hosted-workspace-0".to_string(), "/old".to_string()),
        ]
    );
    assert_eq!(
        names(connector_mount_obstacles(
            PathStyle::Unix,
            mounts(),
            &vec![attachment("p", "/w")],
            &Vec::new(),
            &Vec::new(),
            "notion-main",
        )),
        vec![("hosted-workspace-0".to_string(), "/w".to_string())]
    );
}

#[test]
fn recovery_begins_with_the_lock() {
    let p = pending("p", "/new");
    let a = attachment("p", "/old");
    assert!(matches!(
        begin_recovery(Some(&a), Some(&p), TransitionLock::Busy),
        Ok(RecoveryStart::LeaveAlone)
    ));
    assert!(matches!(
        begin_recovery(Some(&a), Some(&p), TransitionLock::Failed("x".to_string())),
        Err(HostedWorkspaceAttachError::Lock(_))
    ));
    assert!(matches!(
        begin_recovery(Some(&a), Some(&p), TransitionLock::Acquired),
        Ok(RecoveryStart::Verify(root)) if root == "/new"
    ));
    assert!(matches!(
        begin_recovery(Some(&a), None, TransitionLock::Busy),
        Ok(RecoveryStart::Verify(root)) if root == "/old"
    ));
    assert!(matches!(
        begin_recovery(None, None, TransitionLock::Acquired),
        Ok(RecoveryStart::CleanUp)
    ));
}

#[test]
fn recovery_commits_what_was_published_and_cancels_what_was_not() {
    let p = pending("p", "/w");
    let a = attachment("p", "/w");
    let end = |verified, exists, found: Option<&PublicationMetadata>| {
        finish_recovery(
            PathStyle::Unix,
            &identity("p"),
            Some(&a),
            Some(&p),
            "/w",
            verified,
            exists,
            found,
        )
    };
    match end(true, true, Some(&receipt(7, "sha256:new"))) {
        Ok(RecoveryStep::Commit(commit)) => {
            assert_eq!(commit.transition_id, "t1");
            assert!(commit.committed_at.ends_with('Z'));
            assert_eq!(commit.committed_at.len(), "2026-08-03T00:00:00.000Z".len());
        }
        other => panic!("the transition is committed, not {other:?}"),
    }
    assert!(matches!(
        end(true, true, Some(&receipt(6, "sha256:old"))),
        Ok(RecoveryStep::Cancel(id)) if id == "t1"
    ));
    assert!(matches!(end(false, false, None), Ok(RecoveryStep::Cancel(_))));
    for (verified, exists, found, why) in [
        (
            false,
            true,
            None,
            "pending workspace root has no verifiable publication receipt",
        ),
        (
            true,
            true,
            None,
            "verified workspace publication has no receipt",
        ),
        (
            true,
            true,
            Some(receipt(9, "sha256:other")),
            "published receipt matches neither pending nor active attachment state",
        ),
    ] {
        assert_eq!(
            end(verified, exists, found.as_ref()),
            Err(HostedWorkspaceAttachError::Recovery(why.to_string()))
        );
    }
    assert!(matches!(
        finish_recovery(PathStyle::Unix, &identity("p"), Some(&a), None, "/w", true, true, None),
        Ok(RecoveryStep::CleanUp)
    ));
    assert_eq!(
        finish_recovery(PathStyle::Unix, &identity("p"), Some(&a), None, "/w", false, true, None),
        Err(HostedWorkspaceAttachError::Recovery(
            "attached workspace root is not bound to a durable publication receipt".to_string()
        ))
    );
}

#[test]
fn publication_commits_the_transition_that_was_prepared() {
    let p = pending("p", "/w");
    let good = receipt(7, "sha256:new");
    commit_staged_hosted_workspace(
        PathStyle::Unix,
        Ok(()),
        Some(&p),
        &p,
        "/w",
        true,
        &good,
    ).expect("commit");
    assert!(matches!(
        commit_staged_hosted_workspace(PathStyle::Unix, Ok(()), None, &p, "/w", true, &good),
        Err(HostedWorkspaceAttachError::Recovery(_))
    ));
    assert!(matches!(
        commit_staged_hosted_workspace(
            PathStyle::Unix,
            Ok(()),
            Some(&p),
            &p,
            "/w",
            true,
            &receipt(6, "sha256:old")
        ),
        Err(HostedWorkspaceAttachError::Recovery(_))
    ));
    let mut moving = pending("p", "/w");
    moving.kind = HostedWorkspaceTransitionKind::Relocate;
    assert!(matches!(
        commit_staged_hosted_workspace(
            PathStyle::Unix,
            Ok(()),
            Some(&moving),
            &moving,
            "/w",
            true,
            &good,
        ),
        Err(HostedWorkspaceAttachError::InvalidPlacement(_))
    ));
    assert_eq!(
        checkpoint(true, &p).expect("durable").transition_id,
        "t1"
    );
    assert_eq!(checkpoint(false, &p), None);
    ensure_committed(true).expect("committed");
    assert!(ensure_committed(false).is_err());
    let expected = cleanup_expectation(&identity("p"), &cleanup("p", "/old"));
    assert_eq!(expected.profile_revision, 5);
    assert_eq!(expected.layout_digest, "sha256:older");
}

#[test]
fn each_workspace_is_recovered_once() {
    let targets = recovery_targets(
        vec![attachment("q", "/q"), attachment("p", "/w")],
        vec![pending("p", "/w")],
        vec![cleanup("p", "/old")],
    );
    let profiles: Vec<&str> = targets
        .iter()
        .map(|target| target.identity.profile_id.as_str())
        .collect();
    assert_eq!(profiles, vec!["p", "q"]);
}

#[test]
fn a_workspace_without_its_credential_is_left_alone() {
    assert_eq!(
        recovery_credential(Err(CredentialRefusal::NotFound("ref".to_string()))),
        Ok(None)
    );
    assert_eq!(recovery_credential(Ok("key".to_string())), Ok(Some("key".to_string())));
    assert_eq!(
        recovery_credential(Err(CredentialRefusal::Failed(CredentialError {
            code: "keychain_locked",
            message: "locked".to_string(),
        }))),
        Err(HostedWorkspaceAttachError::Credential {
            code: "keychain_locked".to_string(),
            message: "locked".to_string(),
        })
    );
}

#[test]
fn session_mounts_keep_their_local_identifiers() {
    let existing = vec![HostedWorkspaceMountMapping {
        portable_mount_id: "docs".to_string(),
        local_mount_id: "kept".to_string(),
        mount_target: "old".to_string(),
        profile_revision: 6,
        active: true,
    }];
    let entries = vec![
        mount("notes", "Notes"),
        mount("docs", "Docs"),
        mount("docs", "Docs"),
    ];
    let mappings =
        mappings_for_session(&existing, &identity("p"), &entries, 7).expect("mappings");
    assert_eq!(mappings.len(), 2);
    assert_eq!(mappings[0].portable_mount_id, "docs");
    assert_eq!(mappings[0].local_mount_id, "kept");
    assert_eq!(mappings[0].mount_target, "Docs");
    assert_eq!(mappings[0].profile_revision, 7);
    assert_eq!(
        mappings[1].local_mount_id,
        deterministic_local_mount_id(&identity("p"), "notes")
    );
    let ambiguous = vec![mount("docs", "Docs"), mount("docs", "Other")];
    assert_eq!(
        mappings_for_session(&existing, &identity("p"), &ambiguous, 7),
        Err(HostedWorkspaceAttachError::Recovery(
            "session maps one portable mount ID to several targets".to_string()
        ))
    );
    assert!(unique_session_mounts(&ambiguous).is_err());
    assert_eq!(unique_session_mounts(&entries).expect("unique").len(), 2);
    let report =
        attach_report(&identity("p"), 7, "/w".to_string(), &entries, 1, 2, 3).expect("report");
    assert_eq!(report.mount_count, 2);
    assert_eq!(report.materialized_bytes, 3);
}

#[test]
fn transitions_are_prepared_from_the_session() {
    let session = ProfileSession {
        profile_revision: 7,
        layout_version: 1,
        layout_digest: "sha256:new".to_string(),
        entries: vec![mount("docs", "Docs")],
    };
    let prepared = prepare_transition(
        identity("p"),
        "ref".to_string(),
        "/w".to_string(),
        &session,
        &Vec::new(),
    )
    .expect("prepared");
    assert!(prepared.transition_id.starts_with("hosted-transition-"));
    assert_eq!(prepared.profile_revision, 7);
    assert_eq!(prepared.layout_digest, "sha256:new");
    assert_eq!(prepared.mappings.len(), 1);
    let at: Vec<char> = prepared.prepared_at.chars().collect();
    assert_eq!(at.len(), 24);
    assert_eq!(
        [at[4], at[7], at[10], at[13], at[16], at[19], at[23]],
        ['-', '-', 'T', ':', ':', '.', 'Z']
    );
}

#[test]
fn transitions_follow_what_was_drawn() {
    let session = |entries| ProfileSession {
        profile_revision: 7,
        layout_version: 1,
        layout_digest: "sha256:new".to_string(),
        entries,
    };
    let prepare = |entries, drawn| {
        drawn_transition(
            identity("p"),
            "ref".to_string(),
            "/w".to_string(),
            &session(entries),
            &Vec::new(),
            drawn,
            "2026-01-02T03:04:05.678Z".to_string(),
        )
    };
    let prepared = prepare(vec![mount("docs", "Docs")], Ok(vec![0, 171, 255])).expect("prepared");
    assert_eq!(prepared.transition_id, "hosted-transition-00abff");
    assert_eq!(prepared.identity, identity("p"));
    assert_eq!(prepared.credential_ref, "ref");
    assert_eq!(prepared.target_root, "/w");
    assert_eq!(prepared.layout_version, 1);
    assert_eq!(prepared.prepared_at, "2026-01-02T03:04:05.678Z");
    assert_eq!(prepared.mappings[0].portable_mount_id, "docs");
    assert_eq!(
        prepare(vec![mount("docs", "Docs")], Err("no entropy".to_string())),
        Err(HostedWorkspaceAttachError::Recovery("no entropy".to_string()))
    );
    assert_eq!(
        prepare(vec![mount("docs", "Docs"), mount("docs", "Other")], Ok(vec![1])),
        Err(HostedWorkspaceAttachError::Recovery(
            "session maps one portable mount ID to several targets".to_string()
        ))
    );
    assert_eq!(drawn_local_id("mount", Ok(vec![16])), Ok("mount-10".to_string()));
    assert_eq!(
        drawn_local_id("mount", Err("no entropy".to_string())),
        Err(HostedWorkspaceAttachError::Recovery("no entropy".to_string()))
    );
}

#[test]
fn sessions_are_waited_for_and_then_have_to_be_ready() {
    let status = |state, code: Option<SessionErrorCode>, retriable| SessionStatus {
        state,
        error: code.map(|code| SessionError { code, retriable }),
        waits_when_stale: true,
        has_export_limits: true,
    };
    assert!(should_wait_for_freshness(
        status(
            SandboxSessionState::Bootstrapping,
            Some(SessionErrorCode::Stale),
            true
        ),
        true
    ));
    assert!(!should_wait_for_freshness(
        status(
            SandboxSessionState::Bootstrapping,
            Some(SessionErrorCode::Other),
            true
        ),
        true
    ));
    assert!(!should_wait_for_freshness(
        status(
            SandboxSessionState::Bootstrapping,
            Some(SessionErrorCode::Stale),
            true
        ),
        false
    ));
    ensure_session_ready(status(SandboxSessionState::Ready, None, false)).expect("ready");
    assert!(matches!(
        ensure_session_ready(status(
            SandboxSessionState::Bootstrapping,
            Some(SessionErrorCode::Incomplete),
            true
        )),
        Err(SessionRefusal::NotReady {
            state: SandboxSessionState::Bootstrapping,
            code: Some(SessionErrorCode::Incomplete)
        })
    ));
    assert!(matches!(
        ensure_session_ready(status(
            SandboxSessionState::Ready,
            Some(SessionErrorCode::Other),
            false
        )),
        Err(SessionRefusal::InvalidReady("error is present"))
    ));
    let mut limitless = status(SandboxSessionState::Ready, None, false);
    limitless.has_export_limits = false;
    assert!(matches!(
        ensure_session_ready(limitless),
        Err(SessionRefusal::InvalidReady("export-attempt limits are absent"))
    ));
    ensure_export_encoding(None, ReplicaArchiveEncoding::Zstd).expect("any");
    assert_eq!(
        ensure_export_encoding(
            Some(ReplicaArchiveEncoding::Identity),
            ReplicaArchiveEncoding::Zstd
        ),
        Err("zstd (requested identity)".to_string())
    );
}

#[test]
fn attachments_are_listed_with_their_mounts() {
    let report = list_hosted_workspace_attachments(vec![(
        attachment("p", "/w"),
        vec![HostedWorkspaceMountMapping {
            portable_mount_id: "docs".to_string(),
            local_mount_id: "local".to_string(),
            mount_target: "Docs".to_string(),
            profile_revision: 6,
            active: false,
        }],
    )]);
    assert!(report.ok);
    assert_eq!(report.attachments[0].root, "/w");
    assert_eq!(report.attachments[0].profile_id, "p");
    assert_eq!(report.attachments[0].mounts[0].mount_target, "Docs");
    assert!(!report.attachments[0].mounts[0].active);
}
