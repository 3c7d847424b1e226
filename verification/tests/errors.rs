use loc_cli::connect::{
    ConnectError, CredentialEncodeFailure, CredentialError, CredentialStorageFailure,
    OAuthExchangeFailure,
};
use loc_cli::create::CreateError;
use loc_cli::daemon::DaemonControlError;
use loc_cli::diff::{DiffError, PushPrepareError};
use loc_cli::failures::{
    connect_failure, connector_failure, create_failure, daemon_failure, diff_failure,
    history_failure, info_failure, inspect_failure, locality_failure, mount_failure,
    okf_export_failure, pull_failure, push_target_failure, restore_failure, search_failure,
    status_failure, store_open_failure, template_failure, ConnectorResolveError, InfoErrorKind,
    InspectErrorKind, MountErrorKind, OkfExportErrorKind, PullErrorKind, RestoreErrorKind,
    SearchErrorKind, StatusErrorKind, TemplatePackErrorKind, Told,
};
use loc_cli::file_provider::{
    FileProviderHelperError, LinuxFuseRegistrationError, WindowsCloudFilesHelperError,
};
use loc_cli::history::HistoryError;
use loc_cli::hosted_workspace::HostedWorkspaceAttachError;
use loc_cli::model::{
    LocalityError, LocalityErrorKind, StoreError, StoreErrorKind,
};
use loc_cli::providing::{
    linux_fuse_command_error, macos_helper_command_error, windows_cloud_files_command_error,
};

fn store(kind: StoreErrorKind) -> StoreError {
    StoreError {
        kind,
        message: "store".to_string(),
    }
}

fn locality(kind: LocalityErrorKind) -> LocalityError {
    LocalityError {
        kind,
        message: "core".to_string(),
    }
}

fn words(value: &str) -> String {
    value.to_string()
}

#[test]
fn create_errors_have_their_codes_and_words() {
    let cases = vec![
        (
            CreateError::CurrentDir {
                message: words("gone"),
            },
            "current_dir_failed",
            "failed to resolve current directory: gone",
            2,
        ),
        (
            CreateError::InvalidTitle(words("bad title")),
            "invalid_title",
            "bad title",
            2,
        ),
        (
            CreateError::MountNotFound(words("/n")),
            "mount_not_found",
            "no Locality mount contains parent `/n`",
            2,
        ),
        (
            CreateError::PrivateUnsupported {
                connector: words("gmail"),
            },
            "private_unsupported",
            "--private is only supported for Notion mounts, not `gmail`",
            2,
        ),
        (
            CreateError::DatabaseUnsupported {
                connector: words("gmail"),
            },
            "database_unsupported",
            "database creation is only supported for Notion mounts, not `gmail`",
            2,
        ),
        (
            CreateError::GmailReplyUnsupported {
                connector: words("notion"),
            },
            "gmail_reply_unsupported",
            "Gmail replies are only supported for Gmail mounts, not `notion`",
            2,
        ),
        (
            CreateError::InvalidReply(words("no message")),
            "invalid_gmail_reply",
            "no message",
            2,
        ),
        (
            CreateError::InvalidParent {
                path: words("/n/x"),
                message: words("not a page"),
            },
            "invalid_parent",
            "cannot create inside `/n/x`: not a page",
            2,
        ),
        (
            CreateError::ReadOnlyMount {
                mount_id: words("m"),
            },
            "read_only_mount",
            "mount `m` is read-only and cannot accept new items",
            2,
        ),
        (
            CreateError::ReadOnlySource {
                mount_id: words("m"),
                source: words("Granola"),
                reason: words("no writes"),
            },
            "read_only_source",
            "Granola mount `m` cannot accept new pages: no writes",
            2,
        ),
        (
            CreateError::VirtualStateRootRequired,
            "virtual_state_root_required",
            "creating items in virtual mounts requires a Locality state directory",
            1,
        ),
        (
            CreateError::Store(store(StoreErrorKind::Io)),
            "store_error",
            "store",
            1,
        ),
        (
            CreateError::TargetExists(words("/n/x")),
            "target_exists",
            "target directory `/n/x` already exists",
            2,
        ),
        (
            CreateError::WriteFile {
                path: words("/n/x"),
                message: words("full"),
            },
            "write_file_failed",
            "failed to write `/n/x`: full",
            1,
        ),
    ];
    for (error, code, message, exit_code) in cases {
        assert_eq!(error.code(), code);
        assert_eq!(error.message(), message);
        let failure = create_failure(&error);
        assert_eq!(failure.error.code, code);
        assert_eq!(failure.exit_code, exit_code, "{code}");
    }
}

#[test]
fn history_errors_have_their_codes_and_words() {
    let cases = vec![
        (
            HistoryError::MountNotFound(words("/n")),
            "mount_not_found",
            "no Locality mount contains `/n`",
        ),
        (
            HistoryError::JournalNotFound(words("push-1")),
            "journal_not_found",
            "journal entry `push-1` was not found",
        ),
        (
            HistoryError::UndoNotLatest {
                push_id: words("push-1"),
                entity_id: words("page-1"),
                latest_push_id: Some(words("push-2")),
            },
            "undo_not_latest",
            "cannot undo journal `push-1` because later journal `push-2` touches entity `page-1`",
        ),
        (
            HistoryError::UndoNotLatest {
                push_id: words("push-1"),
                entity_id: words("page-1"),
                latest_push_id: None,
            },
            "undo_not_latest",
            "cannot undo journal `push-1` because it is not the active latest journal for entity `page-1`",
        ),
        (
            HistoryError::IncompleteUndoApplyResult {
                missing: vec![words("a"), words("b")],
            },
            "incomplete_undo_apply_result",
            "undo apply result omitted changed entity ids required for reconciliation: a, b",
        ),
        (
            HistoryError::UndoProjectionRefreshFailed {
                mount_id: words("m"),
                identifier: words("children:page-1"),
                reason: words("no helper"),
            },
            "undo_projection_refresh_failed",
            "undo updated provider state for mount `m` but could not refresh container `children:page-1`: no helper",
        ),
        (
            HistoryError::InvalidUndoObservation {
                entity_id: words("page-1"),
                reason: words("missing"),
            },
            "invalid_undo_observation",
            "undo observation for entity `page-1` is invalid: missing",
        ),
        (
            HistoryError::UnsafeUndoLocalState {
                entity_id: words("page-1"),
                reason: words("edited"),
            },
            "unsafe_undo_local_state",
            "local state for undo entity `page-1` is unsafe: edited",
        ),
        (
            HistoryError::Store(store(StoreErrorKind::EntityPathMissing)),
            "entity_path_missing",
            "store",
        ),
        (
            HistoryError::Store(store(StoreErrorKind::Other)),
            "store_error",
            "store",
        ),
    ];
    for (error, code, message) in cases {
        assert_eq!(error.code(), code);
        assert_eq!(error.message(), message);
        let failure = history_failure("undo", &error);
        assert_eq!(failure.error.command, "undo");
        assert_eq!(failure.error.message, message);
    }
}

#[test]
fn connect_errors_suggest_what_helps() {
    let storage = |connector: &str| {
        ConnectError::Credential(CredentialStorageFailure::for_connector_id(
            connector,
            CredentialError {
                code: "credential_store_unavailable",
                message: words("locked"),
            },
        ))
    };
    let cases = vec![
        (
            ConnectError::ConnectionMissing(words("work")),
            "missing_connection",
            "connection `work` was not found",
            Some("loc connect notion"),
        ),
        (
            ConnectError::ConnectionNameRequired(words("Notion")),
            "usage",
            "multiple Notion connections exist; pass --name <id>",
            None,
        ),
        (
            ConnectError::ConnectionProbeFailed(words("401")),
            "connection_probe_failed",
            "Notion connection probe failed: 401",
            Some("loc connect notion"),
        ),
        (
            ConnectError::OAuthExchangeFailed(OAuthExchangeFailure::notion(words("400"))),
            "oauth_exchange_failed",
            "Notion OAuth exchange failed: 400",
            Some("loc connect notion"),
        ),
        (
            ConnectError::OAuthExchangeFailed(OAuthExchangeFailure::google_docs(words("400"))),
            "oauth_exchange_failed",
            "Google Docs OAuth exchange failed: 400",
            Some("loc connect google-docs"),
        ),
        (
            ConnectError::OAuthExchangeFailed(OAuthExchangeFailure::gmail(words("400"))),
            "oauth_exchange_failed",
            "Gmail OAuth exchange failed: 400",
            Some("loc connect gmail"),
        ),
        (
            ConnectError::Store(store(StoreErrorKind::Io)),
            "store_error",
            "store",
            None,
        ),
    ];
    for (error, code, message, command) in cases {
        assert_eq!(error.code(), code);
        assert_eq!(error.message(), message);
        assert_eq!(error.suggested_command(), command);
        let failure = connect_failure("connect", &error);
        assert_eq!(failure.error.code, code);
        assert_eq!(failure.error.suggested_command.as_deref(), command);
    }
    assert_eq!(storage("granola").code(), "credential_store_unavailable");
    assert_eq!(
        storage("granola").suggested_command(),
        Some("loc connect granola --api-key-stdin")
    );
    assert_eq!(
        storage("google-docs").suggested_command(),
        Some("loc connect google-docs")
    );
    assert_eq!(
        ConnectError::CredentialEncode(CredentialEncodeFailure::granola(words("bad"))).code(),
        "credential_store_unavailable"
    );
}

#[test]
fn helper_errors_have_their_codes_and_words() {
    assert_eq!(FileProviderHelperError::Missing.code(), "helper_missing");
    assert_eq!(
        FileProviderHelperError::Failed(words("x")).code(),
        "helper_failed"
    );
    assert_eq!(FileProviderHelperError::Failed(words("x")).message(), "x");
    assert_eq!(
        FileProviderHelperError::Missing.message(),
        "locality-file-providerctl was not found; install Locality.app, or from a source checkout run `make install-macos-file-provider`"
    );
    for (error, code, message) in [
        (
            LinuxFuseRegistrationError::DaemonNotRunning,
            "daemon_not_running",
            "localityd is not running; start it with `loc daemon start` before registering the FUSE mount",
        ),
        (
            LinuxFuseRegistrationError::HelperMissing,
            "helper_missing",
            "locality-fuse was not found; build or install the locality-fuse binary",
        ),
        (
            LinuxFuseRegistrationError::EnvMissing(words("HOME is not set")),
            "env_missing",
            "HOME is not set",
        ),
        (LinuxFuseRegistrationError::Io(words("x")), "io_error", "x"),
        (
            LinuxFuseRegistrationError::SystemctlFailed(words("x")),
            "systemctl_failed",
            "x",
        ),
        (
            LinuxFuseRegistrationError::UnsupportedPlatform(words("x")),
            "unsupported_platform",
            "x",
        ),
    ] {
        assert_eq!(error.code(), code);
        assert_eq!(error.message(), message);
        assert_eq!(linux_fuse_command_error(&error).code, code);
        assert_eq!(linux_fuse_command_error(&error).message, message);
    }
    for (error, code) in [
        (
            WindowsCloudFilesHelperError::DaemonNotRunning,
            "daemon_not_running",
        ),
        (WindowsCloudFilesHelperError::Missing, "helper_missing"),
        (
            WindowsCloudFilesHelperError::Failed(words("x")),
            "helper_failed",
        ),
        (
            WindowsCloudFilesHelperError::UnsupportedPlatform(words("x")),
            "unsupported_platform",
        ),
    ] {
        assert_eq!(error.code(), code);
        assert_eq!(windows_cloud_files_command_error(&error).code, code);
    }
    assert_eq!(
        macos_helper_command_error(&FileProviderHelperError::Missing).command,
        "file-provider"
    );
}

#[test]
fn hosted_errors_have_their_codes() {
    for (error, code) in [
        (
            HostedWorkspaceAttachError::InvalidPlacement(words("x")),
            "hosted_workspace_invalid_placement",
        ),
        (
            HostedWorkspaceAttachError::Credential {
                code: words("credential_missing"),
                message: words("x"),
            },
            "credential_missing",
        ),
        (
            HostedWorkspaceAttachError::Protocol {
                code: words("http_500"),
                message: words("x"),
            },
            "http_500",
        ),
        (
            HostedWorkspaceAttachError::Store(store(StoreErrorKind::Io)),
            "hosted_workspace_state_error",
        ),
        (
            HostedWorkspaceAttachError::Lock(words("x")),
            "workspace_path_lock_unavailable",
        ),
        (
            HostedWorkspaceAttachError::Materialization(words("x")),
            "hosted_workspace_materialization_failed",
        ),
        (
            HostedWorkspaceAttachError::GenerationTwoRequired,
            "workspace_layout_update_required",
        ),
        (
            HostedWorkspaceAttachError::Recovery(words("x")),
            "hosted_workspace_recovery_required",
        ),
    ] {
        assert_eq!(error.code(), code);
    }
}

#[test]
fn diff_errors_have_their_codes() {
    for (kind, code) in [
        (StoreErrorKind::NotImplemented, "not_implemented"),
        (StoreErrorKind::ShadowMissing, "shadow_missing"),
        (StoreErrorKind::EntityPathMissing, "entity_path_missing"),
        (StoreErrorKind::Io, "store_error"),
        (StoreErrorKind::Other, "store_error"),
    ] {
        assert_eq!(DiffError::Store(store(kind)).code(), code);
    }
    for (kind, code) in [
        (LocalityErrorKind::NotImplemented, "not_implemented"),
        (LocalityErrorKind::Validation, "validation_failed"),
        (LocalityErrorKind::Conflict, "conflict"),
        (LocalityErrorKind::Guardrail, "guardrail"),
        (LocalityErrorKind::RemoteNotFound, "remote_not_found"),
        (LocalityErrorKind::RateLimited, "rate_limited"),
        (LocalityErrorKind::InvalidState, "invalid_state"),
        (LocalityErrorKind::UpdateRequired, "update_required"),
        (LocalityErrorKind::Unsupported, "unsupported"),
        (LocalityErrorKind::Io, "io_error"),
    ] {
        assert_eq!(DiffError::Prepare(locality(kind)).code(), code);
        assert_eq!(locality_failure("push", &locality(kind)).error.command, "push");
    }
    let error = DiffError::from(PushPrepareError::ReadFile {
        path: words("/n/a.md"),
        message: words("denied"),
    });
    assert_eq!(error.code(), "read_file_failed");
    assert_eq!(error.message(), "failed to read `/n/a.md`: denied");
    assert_eq!(diff_failure("diff", &error).error.code, "read_file_failed");
    let error = DiffError::from(PushPrepareError::MountNotFound(words("/n/a.md")));
    assert_eq!(error.message(), "no Locality mount contains `/n/a.md`");
    assert_eq!(diff_failure("diff", &error).exit_code, 2);
}

fn told() -> Told {
    Told {
        code: words("code"),
        message: words("message"),
    }
}

#[test]
fn exit_codes_tell_wrong_usage_from_failures() {
    for (kind, exit_code) in [
        (PullErrorKind::MountNotFound, 2),
        (PullErrorKind::Store(StoreErrorKind::EntityPathMissing), 2),
        (PullErrorKind::Store(StoreErrorKind::Io), 1),
        (PullErrorKind::Connector, 1),
        (PullErrorKind::WriteFile, 1),
    ] {
        let failure = pull_failure(kind, &told());
        assert_eq!(failure.error.command, "pull");
        assert_eq!(failure.error.code, "code");
        assert_eq!(failure.error.message, "message");
        assert_eq!(failure.exit_code, exit_code);
    }
    assert_eq!(
        search_failure(SearchErrorKind::EmptyQuery, &told()).exit_code,
        2
    );
    assert_eq!(search_failure(SearchErrorKind::Store, &told()).exit_code, 1);
    assert_eq!(
        mount_failure(MountErrorKind::MountPointConflict, &told()).exit_code,
        2
    );
    assert_eq!(mount_failure(MountErrorKind::Other, &told()).exit_code, 1);
    assert_eq!(
        template_failure(TemplatePackErrorKind::PackNotFound, &told()).exit_code,
        2
    );
    assert_eq!(
        template_failure(TemplatePackErrorKind::Io, &told()).exit_code,
        1
    );
    assert_eq!(
        okf_export_failure(OkfExportErrorKind::SourceMissing, &told()).exit_code,
        2
    );
    assert_eq!(
        okf_export_failure(OkfExportErrorKind::WriteFile, &told()).exit_code,
        1
    );
    assert_eq!(
        inspect_failure(InspectErrorKind::MountNotFound, &told()).exit_code,
        2
    );
    assert_eq!(
        inspect_failure(InspectErrorKind::RemoteFetch, &told()).exit_code,
        1
    );
    assert_eq!(
        restore_failure(RestoreErrorKind::MountNotFound, &told()).exit_code,
        2
    );
    assert_eq!(
        restore_failure(RestoreErrorKind::WriteFile, &told()).exit_code,
        1
    );
    assert_eq!(
        push_target_failure(StatusErrorKind::MountNotFound, &told()).exit_code,
        2
    );
    let lost = status_failure(StatusErrorKind::MountNotFound, &told(), "/s");
    assert_eq!(lost.exit_code, 2);
    assert!(lost.error.message.contains("/s"));
    assert_eq!(
        status_failure(StatusErrorKind::CurrentDir, &told(), "/s").exit_code,
        1
    );
    assert!(info_failure(InfoErrorKind::MountNotFound, &told(), "/s")
        .error
        .message
        .contains("/s"));
    let opened = store_open_failure("status", "locked");
    assert_eq!(opened.error.code, "store_open_failed");
    assert_eq!(opened.exit_code, 1);
    let daemon = daemon_failure(&DaemonControlError::new("usage", "usage: loc daemon"));
    assert_eq!(daemon.error.command, "daemon");
    assert_eq!(daemon.exit_code, 2);
    assert_eq!(
        daemon_failure(&DaemonControlError::new("start_failed", "x")).exit_code,
        1
    );
    let source = connector_failure(
        "pull",
        &ConnectorResolveError {
            code: words("auth_required"),
            message: words("connect first"),
            suggested_command: Some(words("loc connect notion")),
        },
    );
    assert_eq!(source.error.code, "auth_required");
    assert_eq!(
        source.error.suggested_command,
        Some(words("loc connect notion"))
    );
}
