use loc_cli::connect_flow::{connect, BrokerStart, ConnectAction, ConnectProgress, ConnectSetting};
use loc_cli::daemon::{
    next_stop_action, DaemonAction, DaemonControlError, DaemonManager, DaemonOptions, DaemonPaths,
    DaemonRunState, DaemonStartMode, StopAction, StopProgress,
};
use loc_cli::diff::{PlanSummary, PushPlan};
use loc_cli::failures::{ConnectorResolveError, PullErrorKind, Told};
use loc_cli::file_provider::{Candidate, HelperSearch};
use loc_cli::history::{undo_route, JournalEntry, JournalStatus, UndoRoute};
use loc_cli::model::{
    CommandError, Failure, MountConfig, ProjectionMode, StoreError, StoreErrorKind,
};
use loc_cli::mount_flow::{
    auto_register_mounted_projection, mount, MountAction, MountProgress, SourceFault,
};
use loc_cli::mounting::{MountRoot, SourceDescriptor};
use loc_cli::oauth::{LocalOAuthAuthorization, LocalOAuthError, OAuthVariables};
use loc_cli::projection::VirtualProjectionRegistration;
use loc_cli::pull::{
    after_direct_pull, after_mount_lookup, after_pull_request, DirectPull, PullReport, PullStep,
};
use loc_cli::daemon_report::{DaemonCommandError, DaemonReport, DaemonUnavailableReason};
use loc_cli::start_flow::{
    start_daemon, BinaryPlaces, StartAction, StartProgress, StartSetting, StartedDaemon,
};

fn strings(values: &[&str]) -> Vec<String> {
    values.iter().map(|value| value.to_string()).collect()
}

fn some(value: &str) -> Option<String> {
    Some(value.to_string())
}

fn variables() -> OAuthVariables {
    OAuthVariables {
        client_ids: Vec::new(),
        client_secrets: Vec::new(),
        broker_urls: Vec::new(),
        redirect_uris: Vec::new(),
    }
}

fn setting() -> ConnectSetting {
    ConnectSetting {
        notion: variables(),
        notion_broker_url: "https://notion.broker.test".to_string(),
        google_docs: variables(),
        google_docs_broker_url: "https://docs.broker.test".to_string(),
        google_docs_redirect_uri: "http://localhost:8757/oauth/google-docs/callback".to_string(),
    }
}

fn nothing_known() -> ConnectProgress {
    ConnectProgress {
        store: None,
        token: None,
        started: None,
        authorized: None,
    }
}

fn failure(action: ConnectAction) -> Failure {
    match action {
        ConnectAction::Fail(failure) => failure,
        other => panic!("a failure is expected, not {other:?}"),
    }
}

#[test]
fn connecting_with_a_token_reads_it_first() {
    let args = strings(&["notion", "--token-stdin", "--name", "work"]);
    let mut known = nothing_known();
    assert_eq!(connect(&args, &setting(), &known), ConnectAction::OpenStore);
    known.store = Some(Ok(()));
    assert_eq!(connect(&args, &setting(), &known), ConnectAction::ReadToken);
    known.token = Some(Ok(" ntn_1\n".to_string()));
    match connect(&args, &setting(), &known) {
        ConnectAction::ConnectToken(options) => {
            assert_eq!(options.token, "ntn_1");
            assert_eq!(options.connection_id, some("work"));
        }
        other => panic!("a token is used, not {other:?}"),
    }
    known.token = Some(Ok(" \n".to_string()));
    assert_eq!(
        failure(connect(&args, &setting(), &known)).error.code,
        "auth_required"
    );
    known.token = Some(Err("closed".to_string()));
    assert_eq!(
        failure(connect(&args, &setting(), &known)).error.code,
        "stdin_read_failed"
    );
    known.store = Some(Err("locked".to_string()));
    let refused = failure(connect(&args, &setting(), &known));
    assert_eq!(refused.error.code, "store_open_failed");
    assert_eq!(refused.error.message, "locked");
    assert_eq!(refused.exit_code, 1);
}

#[test]
fn connecting_through_a_broker_goes_by_the_browser() {
    let args = strings(&["google-docs", "--no-browser"]);
    let mut known = nothing_known();
    known.store = Some(Ok(()));
    match connect(&args, &setting(), &known) {
        ConnectAction::StartBroker(config) => {
            assert_eq!(config.broker_url, "https://docs.broker.test");
            assert_eq!(
                config.redirect_uri,
                "http://localhost:8757/oauth/google-docs/callback"
            );
        }
        other => panic!("the broker is asked, not {other:?}"),
    }
    known.started = Some(Err("503".to_string()));
    let refused = failure(connect(&args, &setting(), &known));
    assert_eq!(refused.error.code, "oauth_broker_start_failed");
    assert_eq!(
        refused.error.message,
        "Google Docs OAuth broker start failed: 503"
    );
    assert_eq!(
        refused.error.suggested_command,
        some("loc connect google-docs")
    );
    known.started = Some(Ok(BrokerStart {
        client_id: "client".to_string(),
        session: "session".to_string(),
        state: "state".to_string(),
        redirect_uri: "http://localhost:8757/cb".to_string(),
        authorization_url: "https://accounts.test/auth".to_string(),
    }));
    match connect(&args, &setting(), &known) {
        ConnectAction::Authorize(browser) => {
            assert_eq!(browser.url, "https://accounts.test/auth");
            assert_eq!(browser.state, "state");
            assert!(browser.no_browser);
        }
        other => panic!("the browser is asked, not {other:?}"),
    }
    known.authorized = Some(Err(LocalOAuthError {
        code: "oauth_state_mismatch",
        message: "no".to_string(),
    }));
    assert_eq!(
        failure(connect(&args, &setting(), &known)).error.code,
        "oauth_state_mismatch"
    );
    known.authorized = Some(Ok(LocalOAuthAuthorization {
        code: "abc".to_string(),
    }));
    match connect(&args, &setting(), &known) {
        ConnectAction::ConnectGoogleDocsCode(options) => {
            assert_eq!(options.code, "abc");
            assert_eq!(options.session, "session");
            assert_eq!(options.broker_url, "https://docs.broker.test");
            assert_eq!(options.connection_id, None);
        }
        other => panic!("the code is handed on, not {other:?}"),
    }
    assert!(matches!(
        connect(&strings(&["notion"]), &setting(), &known),
        ConnectAction::ConnectNotionCode(_)
    ));
    let bad = strings(&["notion", "--redirect-uri", "https://example.test/cb"]);
    let refused = failure(connect(&bad, &setting(), &known));
    assert_eq!(refused.error.code, "invalid_redirect_uri");
    assert_eq!(
        refused.error.suggested_command,
        some("loc connect notion --token-stdin")
    );
}

#[test]
fn connecting_as_a_client_of_ones_own_needs_its_variables() {
    let args = strings(&["notion", "--direct-oauth"]);
    let mut known = nothing_known();
    known.store = Some(Ok(()));
    let mut place = setting();
    let refused = failure(connect(&args, &place, &known));
    assert_eq!(refused.error.code, "missing_oauth_config");
    assert!(refused
        .error
        .message
        .contains("LOCALITY_NOTION_OAUTH_CLIENT_ID"));
    place.notion.client_ids = vec![None, some("id")];
    assert!(failure(connect(&args, &place, &known))
        .error
        .message
        .contains("LOCALITY_NOTION_OAUTH_CLIENT_SECRET"));
    place.notion.client_secrets = vec![some("secret")];
    match connect(&args, &place, &known) {
        ConnectAction::AuthorizeDirectly(config) => {
            assert_eq!(config.client_id, "id");
            assert_eq!(
                config.redirect_uri,
                "http://localhost:8757/oauth/notion/callback"
            );
        }
        other => panic!("the browser is asked, not {other:?}"),
    }
    known.authorized = Some(Ok(LocalOAuthAuthorization {
        code: "abc".to_string(),
    }));
    match connect(&args, &place, &known) {
        ConnectAction::ConnectOwnCode(options) => {
            assert_eq!(options.client_secret, "secret");
            assert_eq!(options.code, "abc");
        }
        other => panic!("the code is used, not {other:?}"),
    }
}

fn descriptor(id: &str) -> SourceDescriptor {
    SourceDescriptor {
        id: id.to_string(),
        display_name: "Source".to_string(),
        default_mount_id: format!("{id}-main"),
        connect_command: Some(format!("loc connect {id}")),
    }
}

fn unmounted() -> MountProgress {
    MountProgress {
        store: None,
        connection: None,
        daemon_running: None,
        source: None,
        mounts: None,
    }
}

fn mount_failure(action: MountAction) -> Failure {
    match action {
        MountAction::Fail(failure) => failure,
        other => panic!("a failure is expected, not {other:?}"),
    }
}

#[test]
fn mounting_asks_for_one_thing_after_the_other() {
    let args = strings(&[
        "google-docs",
        "/tmp/Locality/docs",
        "--workspace-folder",
        "Team",
        "--connection",
        "work",
        "--projection",
        "linux-fuse",
    ]);
    let docs = descriptor("google-docs");
    let step = |known: &MountProgress| mount(&args, "linux", false, &docs, known);
    let mut known = unmounted();
    assert_eq!(step(&known), MountAction::OpenStore);
    known.store = Some(Ok(()));
    assert_eq!(step(&known), MountAction::ChooseConnection(some("work")));
    known.connection = Some(Err(CommandError::new(
        "mount",
        "auth_required",
        "none".to_string(),
    )));
    assert_eq!(mount_failure(step(&known)).error.code, "auth_required");
    known.connection = Some(Ok(some("work")));
    assert_eq!(step(&known), MountAction::ProbeDaemon);
    known.daemon_running = Some(false);
    assert_eq!(mount_failure(step(&known)).error.code, "daemon_not_running");
    known.daemon_running = Some(true);
    match step(&known) {
        MountAction::ReachSource(lookup) => {
            assert_eq!(lookup.root, MountRoot::GoogleDocsFolder("Team".to_string()));
            assert_eq!(lookup.mount.mount_id, "google-docs-main");
            assert_eq!(lookup.mount.connection_id, some("work"));
            assert_eq!(lookup.mount.remote_root_id, None);
        }
        other => panic!("the source is reached for, not {other:?}"),
    }
    known.source = Some(Err(SourceFault::NoFolder("gone".to_string())));
    let refused = mount_failure(step(&known));
    assert_eq!(refused.error.code, "workspace_folder_error");
    assert_eq!(
        refused.error.message,
        "failed to resolve Google Docs workspace folder `Team`: gone"
    );
    known.source = Some(Err(SourceFault::NoSource(ConnectorResolveError {
        code: "usage".to_string(),
        message: "no source".to_string(),
        suggested_command: None,
    })));
    assert_eq!(mount_failure(step(&known)).exit_code, 2);
    known.source = Some(Ok("folder-1".to_string()));
    assert_eq!(step(&known), MountAction::ListMounts);
    known.mounts = Some(Err(StoreError {
        kind: StoreErrorKind::Io,
        message: "disk".to_string(),
    }));
    assert_eq!(mount_failure(step(&known)).error.code, "store_error");
    known.mounts = Some(Ok(Vec::new()));
    match step(&known) {
        MountAction::Mount(options) => {
            assert_eq!(options.mount_id, "google-docs-main");
            assert_eq!(options.connector, "google-docs");
            assert_eq!(options.root, "/tmp/Locality/docs");
            assert_eq!(options.remote_root_id, some("folder-1"));
            assert_eq!(options.projection, ProjectionMode::LinuxFuse);
            assert!(!options.read_only);
        }
        other => panic!("the mount is made, not {other:?}"),
    }
}

#[test]
fn mounting_takes_the_identifier_that_it_is_given() {
    let args = strings(&[
        "notion",
        "/tmp/n",
        "--root-page",
        "page-1",
        "--mount-id",
        "mine",
        "--read-only",
    ]);
    let mut known = unmounted();
    known.store = Some(Ok(()));
    known.connection = Some(Ok(None));
    known.source = Some(Ok(String::new()));
    match mount(&args, "linux", false, &descriptor("notion"), &known) {
        MountAction::Mount(options) => {
            assert_eq!(options.mount_id, "mine");
            assert_eq!(options.remote_root_id, some("page-1"));
            assert!(options.read_only);
        }
        other => panic!("the mount is made, not {other:?}"),
    }
    let usage = mount_failure(mount(
        &strings(&["notion"]),
        "linux",
        false,
        &descriptor("notion"),
        &known,
    ));
    assert_eq!(usage.error.code, "usage");
    assert_eq!(usage.exit_code, 2);
    assert!(usage.error.message.contains("plain-files|linux-fuse"));
}

#[test]
fn a_new_mount_registers_what_its_system_has() {
    let found = MountConfig::new("m", "notion", "/tmp/n").projection(ProjectionMode::LinuxFuse);
    let wanted = auto_register_mounted_projection("m", Ok(Some(found)), "linux", false)
        .expect("found")
        .expect("registers");
    assert_eq!(wanted.registration, VirtualProjectionRegistration::LinuxFuse);
    let error = wanted.failed("systemctl_failed", "no bus");
    assert_eq!(error.code, "systemctl_failed");
    assert_eq!(
        error.message,
        "mounted `m` but Linux FUSE registration failed: no bus"
    );
    assert_eq!(
        error.suggested_command,
        some("loc file-provider register /tmp/n")
    );
    let plain = MountConfig::new("m", "notion", "/tmp/n");
    assert_eq!(
        auto_register_mounted_projection("m", Ok(Some(plain)), "linux", false).expect("found"),
        None
    );
    assert_eq!(
        auto_register_mounted_projection("m", Ok(None), "linux", false)
            .expect_err("lost")
            .code,
        "mount_not_found"
    );
}

fn journal(status: JournalStatus) -> JournalEntry {
    JournalEntry {
        push_id: "push-1".to_string(),
        mount_id: "m".to_string(),
        remote_ids: Vec::new(),
        plan: PushPlan {
            summary: PlanSummary {
                blocks_created: 0,
                blocks_updated: 0,
                blocks_replaced: 0,
                blocks_moved: 0,
                media_updated: 0,
                blocks_archived: 0,
                entities_created: 0,
                entities_archived: 0,
                entity_bodies_updated: 0,
                entities_moved: 0,
                properties_updated: 0,
            },
            affected_entities: Vec::new(),
            operations: Vec::new(),
            degradations: Vec::new(),
        },
        status,
        preimages: Vec::new(),
        apply_effects: Vec::new(),
        author: "anonymous".to_string(),
        previous_push_id: None,
        created_at_unix_ms: None,
        readable_diff: None,
    }
}

#[test]
fn only_an_applied_push_is_undone_at_its_source() {
    for status in [JournalStatus::Applied, JournalStatus::Reconciled] {
        assert!(matches!(
            undo_route("push-1", Ok(Some(journal(status)))),
            UndoRoute::Source(_)
        ));
    }
    for status in [
        JournalStatus::Prepared,
        JournalStatus::Applying,
        JournalStatus::Reverted,
        JournalStatus::Failed("x".to_string()),
    ] {
        assert!(matches!(
            undo_route("push-1", Ok(Some(journal(status)))),
            UndoRoute::Journal(_)
        ));
    }
    match undo_route("push-1", Ok(None)) {
        UndoRoute::Fail(failure) => {
            assert_eq!(failure.error.code, "journal_not_found");
            assert_eq!(
                failure.error.message,
                "journal entry `push-1` was not found"
            );
            assert_eq!(failure.exit_code, 2);
        }
        _ => panic!("the push is not found"),
    }
    let broken = StoreError {
        kind: StoreErrorKind::Io,
        message: "disk".to_string(),
    };
    match undo_route("push-1", Err(broken)) {
        UndoRoute::Fail(failure) => assert_eq!(failure.exit_code, 1),
        _ => panic!("the store fails"),
    }
}

fn pulled() -> PullReport {
    PullReport {
        ok: true,
        command: "pull",
        via: "daemon".to_string(),
        target: "/tmp/n".to_string(),
        mount_id: "m".to_string(),
        enumerated: 1,
        hydrated: 0,
        stubbed: 0,
        skipped_dirty: 0,
        conflicts: Vec::new(),
    }
}

#[test]
fn a_pull_goes_on_by_itself_only_where_the_daemon_cannot_be_at_it() {
    assert_eq!(
        after_pull_request(DaemonReport::Report(pulled()), 5000),
        PullStep::Report(pulled())
    );
    match after_pull_request(
        DaemonReport::Error(DaemonCommandError {
            code: "conflict".to_string(),
            message: "m".to_string(),
            exit_code: 3,
        }),
        5000,
    ) {
        PullStep::Fail(failure) => assert_eq!(failure.exit_code, 3),
        _ => panic!("the daemon refused"),
    }
    assert_eq!(
        after_pull_request(
            DaemonReport::Unavailable(DaemonUnavailableReason::NotAvailable),
            5000
        ),
        PullStep::PullDirectly(DaemonUnavailableReason::NotAvailable)
    );
    match after_pull_request(
        DaemonReport::Unavailable(DaemonUnavailableReason::TimedOut),
        5000,
    ) {
        PullStep::Fail(failure) => {
            assert_eq!(failure.error.code, "daemon_timeout");
            assert!(failure.error.message.contains("within 5000ms"));
        }
        _ => panic!("the daemon may be at it"),
    }
    let fuse = Some(MountConfig::new("m", "notion", "/n").projection(ProjectionMode::LinuxFuse));
    assert!(matches!(
        after_mount_lookup(DaemonUnavailableReason::NotAvailable, &fuse, 5000),
        PullStep::Fail(_)
    ));
    assert_eq!(
        after_mount_lookup(DaemonUnavailableReason::Disabled, &fuse, 5000),
        PullStep::PullDirectly(DaemonUnavailableReason::Disabled)
    );
    match after_direct_pull(DirectPull::Failed(
        PullErrorKind::MountNotFound,
        Told {
            code: "mount_not_found".to_string(),
            message: "no".to_string(),
        },
    )) {
        PullStep::Fail(failure) => assert_eq!(failure.exit_code, 2),
        _ => panic!("the pull failed"),
    }
    assert_eq!(
        after_direct_pull(DirectPull::Pulled(pulled())),
        PullStep::Report(pulled())
    );
}

fn options() -> DaemonOptions {
    DaemonOptions {
        action: DaemonAction::Start,
        mode: DaemonStartMode::Session,
        state_root: "/s".to_string(),
        localityd_bin: None,
        tcp_addr: None,
        include_env: strings(&["TOKEN"]),
    }
}

fn daemon_paths() -> DaemonPaths {
    DaemonPaths {
        state_root: "/s".to_string(),
        socket: "/s/sock".to_string(),
        pid_file: "/s/pid".to_string(),
        stdout_log: "/s/out".to_string(),
        stderr_log: "/s/err".to_string(),
        launch_agent: None,
    }
}

fn start_setting() -> StartSetting {
    StartSetting {
        on_windows: false,
        default_addr: "127.0.0.1:1".to_string(),
        malformed: None,
        stored: None,
    }
}

fn start_failure(action: StartAction) -> DaemonControlError {
    match action {
        StartAction::Fail(error) => error,
        other => panic!("a failure is expected, not {other:?}"),
    }
}

#[test]
fn starting_the_daemon_takes_its_steps_in_order() {
    let step = |known: &StartProgress| {
        start_daemon(&options(), &daemon_paths(), &start_setting(), known)
    };
    let mut known = StartProgress {
        running: None,
        state_root: None,
        places: None,
        manager: None,
        environment: None,
        started: None,
        ready: None,
        written: None,
    };
    assert_eq!(step(&known), StartAction::Probe);
    known.running = Some((true, DaemonManager::Session));
    match step(&known) {
        StartAction::Report(report) => {
            assert_eq!(report.message, "daemon already running");
            assert_eq!(report.state, DaemonRunState::Running);
            assert_eq!(report.manager, DaemonManager::Session);
            assert_eq!(report.localityd_bin, None);
        }
        other => panic!("it runs already, not {other:?}"),
    }
    known.running = Some((false, DaemonManager::Unknown));
    assert_eq!(step(&known), StartAction::CreateStateRoot);
    known.state_root = Some(Err("denied".to_string()));
    assert_eq!(start_failure(step(&known)).code(), "io_error");
    known.state_root = Some(Ok(()));
    assert_eq!(step(&known), StartAction::FindBinary);
    known.places = Some(BinaryPlaces {
        explicit: None,
        search: HelperSearch {
            named: None,
            usual: Vec::new(),
            on_path: Vec::new(),
        },
    });
    assert_eq!(start_failure(step(&known)).code(), "binary_missing");
    known.places = Some(BinaryPlaces {
        explicit: Some(Candidate {
            path: "/opt/localityd".to_string(),
            exists: true,
        }),
        search: HelperSearch {
            named: None,
            usual: Vec::new(),
            on_path: Vec::new(),
        },
    });
    assert_eq!(step(&known), StartAction::ResolveManager);
    known.manager = Some(Err(DaemonControlError::new("unsupported", "no launchd")));
    assert_eq!(start_failure(step(&known)).message(), "no launchd");
    known.manager = Some(Ok(()));
    assert_eq!(step(&known), StartAction::ReadEnvironment);
    known.environment = Some(vec![None]);
    assert!(start_failure(step(&known)).message().contains("TOKEN"));
    known.environment = Some(vec![some("secret")]);
    match step(&known) {
        StartAction::Start(call) => {
            assert_eq!(call.localityd_bin, "/opt/localityd");
            assert_eq!(
                call.environment,
                vec![("TOKEN".to_string(), "secret".to_string())]
            );
        }
        other => panic!("it is started, not {other:?}"),
    }
    known.started = Some(Ok(StartedDaemon {
        manager: DaemonManager::Session,
        localityd_bin: "/opt/localityd".to_string(),
    }));
    assert_eq!(step(&known), StartAction::AwaitRunning);
    known.ready = Some(false);
    assert_eq!(
        start_failure(step(&known)).message(),
        "daemon did not become ready; check `/s/err`"
    );
    known.ready = Some(true);
    match step(&known) {
        StartAction::WriteMetadata(metadata) => {
            assert_eq!(metadata.localityd_bin, "/opt/localityd");
            assert_eq!(metadata.tcp_addr, "127.0.0.1:1");
        }
        other => panic!("the metadata are written, not {other:?}"),
    }
    known.written = Some(Ok(()));
    match step(&known) {
        StartAction::Report(report) => {
            assert_eq!(report.message, "daemon started");
            assert_eq!(report.localityd_bin, some("/opt/localityd"));
            assert_eq!(report.socket, "/s/sock");
            assert_eq!(report.stderr_log, some("/s/err"));
        }
        other => panic!("it is reported, not {other:?}"),
    }
}

#[test]
fn a_start_under_windows_needs_an_address() {
    let mut place = start_setting();
    place.on_windows = true;
    place.malformed = some("invalid socket address syntax");
    let known = StartProgress {
        running: Some((false, DaemonManager::Unknown)),
        state_root: Some(Ok(())),
        places: Some(BinaryPlaces {
            explicit: Some(Candidate {
                path: "localityd.exe".to_string(),
                exists: true,
            }),
            search: HelperSearch {
                named: None,
                usual: Vec::new(),
                on_path: Vec::new(),
            },
        }),
        manager: Some(Ok(())),
        environment: None,
        started: None,
        ready: None,
        written: None,
    };
    assert_eq!(
        start_failure(start_daemon(&options(), &daemon_paths(), &place, &known)).code(),
        "usage"
    );
}

#[test]
fn stopping_the_daemon_ends_in_silence() {
    let mut known = StopProgress {
        was_running: None,
        shutdown_accepted: None,
        silent_after_shutdown: None,
        process_stopped: None,
        settled: None,
        silent: None,
    };
    let step = |known: StopProgress| next_stop_action(known, DaemonStartMode::Session, "linux");
    let ask = |known: &StopProgress| {
        step(StopProgress {
            was_running: known.was_running,
            shutdown_accepted: known.shutdown_accepted,
            silent_after_shutdown: known.silent_after_shutdown,
            process_stopped: known.process_stopped,
            settled: known.settled,
            silent: known.silent,
        })
    };
    assert_eq!(ask(&known), StopAction::Probe);
    known.was_running = Some(true);
    assert_eq!(ask(&known), StopAction::RequestShutdown);
    known.shutdown_accepted = Some(true);
    assert_eq!(ask(&known), StopAction::AwaitSilenceAfterShutdown);
    known.silent_after_shutdown = Some(true);
    assert_eq!(ask(&known), StopAction::AwaitSettled);
    known.settled = Some(true);
    assert_eq!(ask(&known), StopAction::AwaitSilence);
    known.silent = Some(true);
    assert_eq!(ask(&known), StopAction::Report("daemon stopped"));
    known.silent = Some(false);
    assert!(matches!(ask(&known), StopAction::Fail(error) if error.code() == "stop_failed"));
    known.silent_after_shutdown = Some(false);
    known.settled = None;
    assert_eq!(ask(&known), StopAction::StopProcess);
    let idle = StopProgress {
        was_running: Some(false),
        shutdown_accepted: None,
        silent_after_shutdown: None,
        process_stopped: Some(false),
        settled: None,
        silent: Some(true),
    };
    assert_eq!(ask(&idle), StopAction::Report("daemon was not running"));
}
