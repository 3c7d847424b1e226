use loc_cli::connect::ConnectionRecord;
use loc_cli::daemon::{
    check_daemon_reply, ensure_reloadable, fallback_failure, has_reached, is_running, reload_report,
    restart_may_start, restarted, should_fall_back_to_tcp, status_report, DaemonAction,
    DaemonClientError, DaemonControlError, DaemonControlReport, DaemonManager, DaemonMetadata,
    DaemonPaths, DaemonReloadReport, DaemonReply, DaemonRunState,
};
use loc_cli::doctor::{
    doctor_exit_code, doctor_report_lines, linux_provider_status, macos_provider_status,
    run_doctor, windows_provider_status, ConnectionCheck, CredentialLookup, DoctorCheckState,
    DoctorInspection, DoctorProvider, DoctorReport, DoctorSeverity, DoctorStatus, MountCheck,
    ProfileLookup, StateCompatibility, StoreContents, UnreadableStore,
};
use loc_cli::json::{Json, JsonField};
use loc_cli::model::ProjectionMode;

fn some(value: &str) -> Option<String> {
    Some(value.to_string())
}

fn paths() -> DaemonPaths {
    DaemonPaths {
        state_root: "/s".to_string(),
        socket: "/s/sock".to_string(),
        pid_file: "/s/pid".to_string(),
        stdout_log: "/s/out".to_string(),
        stderr_log: "/s/err".to_string(),
        launch_agent: None,
    }
}

fn daemon(running: bool) -> DaemonControlReport {
    status_report(
        DaemonAction::Status,
        running,
        DaemonManager::Session,
        &None,
        &paths(),
        &None,
        "127.0.0.1:1",
        None,
    )
}

fn readable() -> StateCompatibility {
    StateCompatibility {
        db_path: "/s/state.db".to_string(),
        db_exists: true,
        schema_version: Some(3),
        current_schema_version: 3,
        readable: true,
        status: "current".to_string(),
        issues: String::new(),
    }
}

fn connection(status: &str, profile: ProfileLookup, credential: CredentialLookup) -> ConnectionCheck {
    ConnectionCheck {
        connection: ConnectionRecord {
            connection_id: "work".to_string(),
            profile_id: some("profile-1"),
            connector: "notion".to_string(),
            display_name: "Notion".to_string(),
            account_label: None,
            workspace_id: None,
            workspace_name: None,
            auth_kind: "token".to_string(),
            secret_ref: "connection:work".to_string(),
            scopes: Vec::new(),
            capabilities_json: "{}".to_string(),
            status: status.to_string(),
            created_at: "unix:1".to_string(),
            updated_at: "unix:1".to_string(),
            expires_at: None,
        },
        profile,
        credential,
    }
}

fn active() -> ProfileLookup {
    ProfileLookup::Found {
        profile_id: "profile-1".to_string(),
        status: "active".to_string(),
    }
}

fn mount(projection: ProjectionMode, root_exists: bool, provider: Option<DoctorProvider>) -> MountCheck {
    MountCheck {
        mount_id: "m".to_string(),
        connector: "notion".to_string(),
        root: "/n".to_string(),
        root_exists,
        projection,
        read_only: false,
        connection_id: some("work"),
        provider,
    }
}

fn examine(
    running: bool,
    connections: Vec<ConnectionCheck>,
    mounts: Vec<MountCheck>,
) -> DoctorReport {
    run_doctor(DoctorInspection {
        platform: "linux".to_string(),
        state_root: "/s".to_string(),
        daemon: Ok(daemon(running)),
        store: Ok(readable()),
        contents: Ok(StoreContents {
            connections: Ok(connections),
            mounts: Ok(mounts),
        }),
    })
}

fn codes(report: &DoctorReport) -> Vec<&'static str> {
    report.findings.iter().map(|finding| finding.code).collect()
}

#[test]
fn a_healthy_installation_has_no_findings() {
    let report = examine(
        true,
        vec![connection("active", active(), CredentialLookup::Present)],
        vec![mount(ProjectionMode::PlainFiles, true, None)],
    );
    assert!(report.ok);
    assert_eq!(report.status, DoctorStatus::Good);
    assert!(report.findings.is_empty());
    assert_eq!(doctor_exit_code(&report), 0);
    assert_eq!(report.connections[0].profile_status, DoctorCheckState::Good);
    let lines = doctor_report_lines(&report);
    assert_eq!(lines[0], "Locality doctor: ok");
    assert_eq!(lines[1], "platform: linux");
    assert_eq!(lines[2], "state: /s");
    assert_eq!(lines[3], "state store: present (current)");
    assert_eq!(
        lines[6],
        "  work: notion active profile=ok credential=ok"
    );
    assert_eq!(lines.last().expect("line"), "findings: none");
}

#[test]
fn findings_fail_the_report_only_where_they_are_errors() {
    let report = examine(
        true,
        vec![connection(
            "active",
            ProfileLookup::Found {
                profile_id: "profile-1".to_string(),
                status: "disabled".to_string(),
            },
            CredentialLookup::Present,
        )],
        Vec::new(),
    );
    assert!(codes(&report).contains(&"connection_profile_not_active"));
    assert_eq!(report.status, DoctorStatus::Warning);
    assert!(report.ok);

    let report = examine(
        true,
        vec![
            connection("revoked", ProfileLookup::Absent, CredentialLookup::Absent),
            connection("active", active(), CredentialLookup::Failed("locked".to_string())),
        ],
        Vec::new(),
    );
    for code in [
        "connection_profile_missing",
        "connection_credential_missing",
        "connection_not_active",
        "connection_credential_unavailable",
    ] {
        assert!(codes(&report).contains(&code), "{code}");
    }
    assert_eq!(report.status, DoctorStatus::Error);
    assert!(!report.ok);
    assert_ne!(doctor_exit_code(&report), 0);
    let suggested = report
        .suggested_commands
        .iter()
        .filter(|command| *command == "loc connect notion")
        .count();
    assert_eq!(suggested, 1);
}

#[test]
fn what_cannot_be_read_is_told() {
    let report = run_doctor(DoctorInspection {
        platform: "linux".to_string(),
        state_root: "/s".to_string(),
        daemon: Err("no socket".to_string()),
        store: Err(UnreadableStore {
            path: "/s/state.db".to_string(),
            exists: true,
            supported_schema_version: 3,
            why: "corrupt".to_string(),
        }),
        contents: Err("corrupt".to_string()),
    });
    assert!(codes(&report).contains(&"daemon_status_failed"));
    assert!(codes(&report).contains(&"state_store_unreadable"));
    assert!(report.daemon.is_none());
    assert!(!report.state_store.readable);
    assert!(doctor_report_lines(&report).contains(&"daemon: unavailable".to_string()));

    let fresh = run_doctor(DoctorInspection {
        platform: "linux".to_string(),
        state_root: "/s".to_string(),
        daemon: Ok(daemon(true)),
        store: Ok(StateCompatibility {
            db_exists: false,
            readable: false,
            ..readable()
        }),
        contents: Ok(StoreContents {
            connections: Ok(Vec::new()),
            mounts: Ok(Vec::new()),
        }),
    });
    assert!(codes(&fresh).contains(&"state_store_missing"));
    assert!(fresh
        .findings
        .iter()
        .all(|finding| finding.severity != DoctorSeverity::Error));
    assert!(fresh.ok);
}

#[test]
fn mounts_need_their_root_and_their_provider() {
    let provider = |present| DoctorProvider {
        kind: "linux_fuse",
        state: "inactive".to_string(),
        registered: Some(false),
        helper: None,
        helper_present: present,
        message: "not running".to_string(),
        details: Json::Null,
    };
    let report = examine(
        true,
        Vec::new(),
        vec![mount(
            ProjectionMode::LinuxFuse,
            true,
            Some(provider(false)),
        )],
    );
    assert!(codes(&report).contains(&"provider_helper_missing"));
    assert!(!report.ok);
    let lost = examine(
        true,
        Vec::new(),
        vec![mount(ProjectionMode::PlainFiles, false, None)],
    );
    assert!(!lost.findings.is_empty());
    assert!(!lost.mounts[0].root_exists);
}

#[test]
fn providers_are_looked_at_on_their_own_system() {
    let foreign = linux_provider_status(false, "svc".to_string(), None, None, false, None, None);
    assert_eq!(foreign.kind, "linux_fuse");
    assert!(!foreign.helper_present);
    let running = linux_provider_status(
        true,
        "svc".to_string(),
        some("/usr/bin/locality-fuse"),
        some("/unit"),
        true,
        some("active"),
        some("enabled"),
    );
    assert!(running.helper_present);
    assert_eq!(running.registered, Some(true));
    let listed = Json::Object(vec![JsonField {
        key: "domains".to_string(),
        value: Json::Array(vec![Json::Object(vec![JsonField {
            key: "identifier".to_string(),
            value: Json::Text("locality".to_string()),
        }])]),
    }]);
    let macos = macos_provider_status(true, "m", "locality", some("/ctl"), Ok(listed));
    assert_eq!(macos.registered, Some(true));
    let other = macos_provider_status(true, "m", "other", some("/ctl"), Err("x".to_string()));
    assert_ne!(other.registered, Some(true));
    let windows = windows_provider_status(None, Err("x".to_string()));
    assert!(!windows.helper_present);
}

#[test]
fn daemon_reports_name_where_the_daemon_is_reached() {
    let stored = Some(DaemonMetadata {
        manager: DaemonManager::Launchd,
        localityd_bin: "/opt/localityd".to_string(),
        tcp_addr: "127.0.0.1:9".to_string(),
    });
    let report = status_report(
        DaemonAction::Status,
        true,
        DaemonManager::Unknown,
        &None,
        &paths(),
        &stored,
        "127.0.0.1:1",
        None,
    );
    assert_eq!(report.tcp_addr, "127.0.0.1:9");
    assert_eq!(report.manager, DaemonManager::Launchd);
    assert_eq!(report.localityd_bin, some("/opt/localityd"));
    let stopped = status_report(
        DaemonAction::Status,
        false,
        DaemonManager::Unknown,
        &None,
        &paths(),
        &stored,
        "127.0.0.1:1",
        None,
    );
    assert_eq!(stopped.tcp_addr, "127.0.0.1:1");
    assert_eq!(stopped.state, DaemonRunState::Stopped);
    let reloaded = reload_report(
        DaemonManager::Session,
        &None,
        &paths(),
        &None,
        "127.0.0.1:1",
        DaemonReloadReport {
            added: 1,
            removed: 0,
            unchanged: 2,
        },
        None,
    );
    assert_eq!(reloaded.message, "daemon watches reloaded");
    assert_eq!(reloaded.action, "reload");
    let again = restarted(reloaded);
    assert_eq!(again.action, "restart");
    assert_eq!(again.message, "daemon restarted");
}

#[test]
fn a_restart_goes_on_where_nothing_answers() {
    let failed = || Err(DaemonControlError::new("stop_failed", "x"));
    restart_may_start(Ok(()), true).expect("stopped");
    restart_may_start(failed(), false).expect("silent");
    assert_eq!(
        restart_may_start(failed(), true).expect_err("answers").code(),
        "stop_failed"
    );
    ensure_reloadable(true).expect("runs");
    assert_eq!(
        ensure_reloadable(false).expect_err("silent").code(),
        "daemon_not_running"
    );
    assert!(has_reached(DaemonRunState::Running, true));
    assert!(has_reached(DaemonRunState::Stopped, false));
    assert!(!has_reached(DaemonRunState::Stopped, true));
}

#[test]
fn requests_fall_back_to_tcp_where_no_socket_answers() {
    let silent = || DaemonClientError::NotAvailable("no socket".to_string());
    assert!(should_fall_back_to_tcp(true, &silent()));
    assert!(!should_fall_back_to_tcp(false, &silent()));
    assert!(!should_fall_back_to_tcp(
        true,
        &DaemonClientError::Protocol("bad".to_string())
    ));
    assert!(!matches!(
        fallback_failure(
            silent(),
            DaemonClientError::Protocol("bad reply".to_string())
        ),
        DaemonClientError::NotAvailable(_)
    ));
    let reply = |ok| DaemonReply {
        ok,
        error: if ok {
            None
        } else {
            Some(("busy".to_string(), "later".to_string()))
        },
        has_payload: ok,
    };
    assert!(is_running(&Ok(reply(true))));
    assert!(!is_running(&Err(silent())));
    check_daemon_reply(&Ok(reply(true))).expect("a reply");
    assert!(check_daemon_reply(&Ok(reply(false))).is_err());
    assert!(check_daemon_reply(&Err("closed".to_string())).is_err());
}
