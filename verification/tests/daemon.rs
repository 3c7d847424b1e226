use loc_cli::daemon::{
    control_tcp_addr, parse_options, should_stop_managed_process, validate_start_endpoint,
    DaemonAction, DaemonManager, DaemonMetadata, DaemonStartMode,
};

fn strings(values: &[&str]) -> Vec<String> {
    values.iter().map(|value| value.to_string()).collect()
}

#[test]
fn parses_daemon_start_options() {
    let args = strings(&[
        "start",
        "--session",
        "--state-dir",
        "/tmp/loc-state",
        "--tcp-addr",
        "off",
        "--include-env",
        "NOTION_TOKEN",
    ]);

    let options = parse_options(&args, "/home/example/.loc", &None).expect("parse");

    assert_eq!(options.action, DaemonAction::Start);
    assert_eq!(options.mode, DaemonStartMode::Session);
    assert_eq!(options.state_root, "/tmp/loc-state");
    assert_eq!(options.tcp_addr.as_deref(), Some("off"));
    assert_eq!(options.include_env, vec!["NOTION_TOKEN"]);
}

#[test]
fn rejects_multiple_start_modes() {
    let error = parse_options(
        &strings(&["start", "--session", "--launchd"]),
        "/home/example/.loc",
        &None,
    )
    .expect_err("parse should fail");

    assert_eq!(error.code(), "usage");
}

#[test]
fn launchd_stop_unloads_manager_after_graceful_shutdown() {
    assert!(should_stop_managed_process(
        DaemonStartMode::Auto,
        true,
        "macos"
    ));
    assert!(should_stop_managed_process(
        DaemonStartMode::Launchd,
        true,
        "macos"
    ));
    assert!(!should_stop_managed_process(
        DaemonStartMode::Session,
        true,
        "macos"
    ));
    assert!(!should_stop_managed_process(
        DaemonStartMode::Auto,
        true,
        "linux"
    ));
    assert!(should_stop_managed_process(
        DaemonStartMode::Session,
        false,
        "macos"
    ));
}

#[test]
fn windows_start_rejects_disabled_tcp_endpoint() {
    let error = validate_start_endpoint(true, &Some("off".to_string()), "127.0.0.1:38719", None)
        .expect_err("tcp off rejected");

    assert_eq!(error.code(), "unsupported");
    assert!(error.message().contains("requires TCP IPC"));
}

#[test]
fn windows_control_tcp_addr_prefers_cli_then_metadata() {
    let metadata = Some(DaemonMetadata {
        manager: DaemonManager::Session,
        localityd_bin: "localityd.exe".to_string(),
        tcp_addr: "127.0.0.1:40100".to_string(),
    });

    assert_eq!(
        control_tcp_addr(&None, &metadata, "127.0.0.1:38719").expect("metadata tcp"),
        "127.0.0.1:40100"
    );
    assert_eq!(
        control_tcp_addr(
            &Some("127.0.0.1:40200".to_string()),
            &metadata,
            "127.0.0.1:38719"
        )
        .expect("option tcp"),
        "127.0.0.1:40200"
    );
}
