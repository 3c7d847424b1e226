use loc_cli::cli::{
    legacy_args_for_command, spinner_config_for_command, spinner_enabled, ConnectCommand,
    ConnectGoogleDocsArgs, CreateCommand, CreatePageArgs, DaemonArgs, DaemonCommand,
    FileProviderCommand, FileProviderTargetArg, LocalityCommand, PushArgs, SearchArgs,
    TemplateNewArgs, TemplatesCommand, EXIT_SUCCESS, EXIT_VALIDATION,
};
use loc_cli::daemon_report::DaemonUnavailableReason;
use loc_cli::diff::{DiffReport, GuardrailOutput};
use loc_cli::failures::diff_report_exit_code;
use loc_cli::json::{Json, JsonField};
use loc_cli::model::{MountConfig, ProjectionMode};
use loc_cli::mounting::{default_mount_id_for_source, SourceDescriptor};
use loc_cli::oauth::{
    google_docs_oauth_broker_config, local_redirect, notion_authorize_url,
    notion_oauth_broker_config, parse_oauth_callback, OAuthVariables,
};
use loc_cli::overview::file_provider_list_lines;
use loc_cli::paths::PathStyle;
use loc_cli::projection::{
    auto_registration_for_mounted_projection, mounted_projection_preflight_error,
    projection_mode_for_target, projection_usage_options_for_target,
    validate_virtual_projection_registration, VirtualProjectionRegistration,
};
use loc_cli::providing::{
    guard_linux_fuse_shared_root_unregister, guard_unresolved_linux_fuse_unregister,
    guard_unresolved_windows_cloud_files_unregister,
    guard_windows_cloud_files_shared_root_unregister, FileProviderCommandReport,
};
use loc_cli::pull::{absolute_command_path, pull_direct_fallback_error};
use loc_cli::push::{
    prompt_for_push_confirmation, push_report_exit_code, should_prompt_for_push_confirmation,
    PushReport,
};
use loc_cli::requests::{PushOptions, SearchOptions};
use loc_cli::search::{should_refresh_notion_url_search, SearchReport};

fn strings(values: &[&str]) -> Vec<String> {
    values.iter().map(|value| value.to_string()).collect()
}

fn mount(id: &str, connector: &str, root: &str, projection: ProjectionMode) -> MountConfig {
    let mut mount = MountConfig::new(id, connector, root).projection(projection);
    let end = root.rfind('/').unwrap_or(0);
    mount.projection_root = root[..end].to_string();
    mount
}

#[test]
fn clap_parsed_commands_convert_to_legacy_args_for_execution() {
    let command = LocalityCommand::Push(PushArgs {
        path: "Roadmap.md".to_string(),
        yes: true,
        confirm: true,
    });
    assert_eq!(
        legacy_args_for_command(&command),
        vec!["push", "Roadmap.md", "--yes", "--confirm"]
    );

    let command = LocalityCommand::Daemon {
        command: DaemonCommand::Start(DaemonArgs {
            session: true,
            launchd: false,
            localityd_bin: None,
            state_dir: Some("/tmp/loc-state".to_string()),
            tcp_addr: None,
            include_env: strings(&["NOTION_TOKEN"]),
        }),
    };
    assert_eq!(
        legacy_args_for_command(&command),
        vec![
            "daemon",
            "start",
            "--session",
            "--state-dir",
            "/tmp/loc-state",
            "--include-env",
            "NOTION_TOKEN"
        ]
    );

    let command = LocalityCommand::Connect {
        command: ConnectCommand::GoogleDocs(ConnectGoogleDocsArgs {
            name: Some("docs-work".to_string()),
            no_browser: true,
            broker_url: Some("https://auth.example.test".to_string()),
            redirect_uri: Some("http://localhost:8757/oauth/google-docs/callback".to_string()),
        }),
    };
    assert_eq!(
        legacy_args_for_command(&command),
        vec![
            "connect",
            "google-docs",
            "--name",
            "docs-work",
            "--no-browser",
            "--broker-url",
            "https://auth.example.test",
            "--redirect-uri",
            "http://localhost:8757/oauth/google-docs/callback"
        ]
    );

    let command = LocalityCommand::Search(SearchArgs {
        query: strings(&["initial", "idea"]),
        connector: Some("notion".to_string()),
        limit: 5,
        all: false,
    });
    assert_eq!(
        legacy_args_for_command(&command),
        vec!["search", "initial", "idea", "--connector", "notion", "--limit", "5"]
    );

    let command = LocalityCommand::Create {
        command: CreateCommand::Page(CreatePageArgs {
            title: "Launch Plan".to_string(),
            parent: Some("/tmp/locality/notion".to_string()),
        }),
    };
    assert_eq!(
        legacy_args_for_command(&command),
        vec![
            "create",
            "page",
            "--title",
            "Launch Plan",
            "--parent",
            "/tmp/locality/notion"
        ]
    );

    let command = LocalityCommand::Templates {
        command: TemplatesCommand::New(TemplateNewArgs {
            pack: "founder-proof-of-work".to_string(),
            path: "/tmp/founder".to_string(),
            force: true,
        }),
    };
    assert_eq!(
        legacy_args_for_command(&command),
        vec!["templates", "new", "founder-proof-of-work", "/tmp/founder", "--force"]
    );

    let command = LocalityCommand::FileProvider {
        command: FileProviderCommand::Restart(FileProviderTargetArg {
            target: "notion-main".to_string(),
        }),
    };
    assert_eq!(
        legacy_args_for_command(&command),
        vec!["file-provider", "restart", "notion-main"]
    );

    assert_eq!(legacy_args_for_command(&LocalityCommand::Doctor), vec!["doctor"]);
}

#[test]
fn clean_diff_report_exits_successfully() {
    assert_eq!(diff_report_exit_code(&report(true)), EXIT_SUCCESS);
}

#[test]
fn validation_diff_report_exits_with_validation_code() {
    assert_eq!(diff_report_exit_code(&report(false)), EXIT_VALIDATION);
}

#[test]
fn push_report_exit_codes_track_gate_states() {
    assert_eq!(push_report_exit_code(&push_report("noop")), EXIT_SUCCESS);
    assert_eq!(
        push_report_exit_code(&push_report("fix_validation")),
        EXIT_VALIDATION
    );
    assert_eq!(push_report_exit_code(&push_report("confirm_plan")), 4);
    assert_eq!(push_report_exit_code(&push_report("apply_not_implemented")), 5);
}

#[test]
fn push_confirmation_prompt_accepts_yes_and_rejects_no() {
    let yes = prompt_for_push_confirmation(&strings(&["y\n"]));
    assert!(yes.approved);
    assert_eq!(yes.output, "Proceed with push? [y/N] ");

    let no = prompt_for_push_confirmation(&strings(&["n\n"]));
    assert!(!no.approved);
}

#[test]
fn push_confirmation_prompt_is_only_for_interactive_safe_plans() {
    let options = PushOptions {
        assume_yes: false,
        confirm_dangerous: false,
    };

    assert!(should_prompt_for_push_confirmation(
        &push_report("confirm_plan"),
        &options,
        false,
        true
    ));
    assert!(!should_prompt_for_push_confirmation(
        &push_report("confirm_plan"),
        &options,
        true,
        true
    ));
    assert!(!should_prompt_for_push_confirmation(
        &push_report("confirm_plan"),
        &options,
        false,
        false
    ));
    assert!(!should_prompt_for_push_confirmation(
        &push_report("confirm_dangerous_plan"),
        &options,
        false,
        true
    ));
}

#[test]
fn spinner_is_only_enabled_for_human_terminal_output() {
    assert!(spinner_enabled(false, true));
    assert!(!spinner_enabled(true, true));
    assert!(!spinner_enabled(false, false));
    assert!(!spinner_enabled(true, false));
}

#[test]
fn spinner_config_uses_command_specific_loading_labels() {
    let pull = spinner_config_for_command("pull", "Roadmap.md", false, true);
    assert!(pull.enabled);
    assert_eq!(pull.label, "pulling Roadmap.md");

    let push = spinner_config_for_command("push", "Roadmap.md", false, true);
    assert!(push.enabled);
    assert_eq!(push.label, "pushing Roadmap.md");
}

#[test]
fn spinner_config_is_disabled_for_json() {
    let config = spinner_config_for_command("pull", "Roadmap.md", true, true);

    assert!(!config.enabled);
    assert_eq!(config.label, "pulling Roadmap.md");
}

#[test]
fn notion_url_search_miss_triggers_metadata_refresh() {
    let options = SearchOptions::new(
        "https://app.notion.com/p/codeflash/Email-Outreach-1fa3ac0ebb8880e580cbcfd7e54f9be2",
    );
    let report = empty_search_report(&options);

    assert!(should_refresh_notion_url_search(&options, &report));
}

#[test]
fn notion_url_search_refresh_skips_non_notion_or_existing_matches() {
    let mut options = SearchOptions::new(
        "https://app.notion.com/p/codeflash/Email-Outreach-1fa3ac0ebb8880e580cbcfd7e54f9be2",
    );
    options.connector = Some("linear".to_string());
    let report = empty_search_report(&options);

    assert!(!should_refresh_notion_url_search(&options, &report));

    let options = SearchOptions::new("Email Outreach");
    let report = empty_search_report(&options);

    assert!(!should_refresh_notion_url_search(&options, &report));
}

#[test]
fn projection_mode_accepts_only_linux_virtual_projection_on_linux() {
    let args = vec!["--projection".to_string(), "linux-fuse".to_string()];

    assert_eq!(
        projection_mode_for_target(&args, "linux").expect("linux fuse projection"),
        ProjectionMode::LinuxFuse
    );
    assert!(projection_mode_for_target(&args, "macos")
        .expect_err("linux fuse rejected on macos")
        .contains("only supported on Linux"));
    assert_eq!(
        projection_usage_options_for_target("linux"),
        "plain-files|linux-fuse"
    );
}

#[test]
fn projection_mode_accepts_only_macos_virtual_projection_on_macos() {
    let args = vec![
        "--projection".to_string(),
        "macos-file-provider".to_string(),
    ];

    assert_eq!(
        projection_mode_for_target(&args, "macos").expect("macos file provider projection"),
        ProjectionMode::MacosFileProvider
    );
    assert!(projection_mode_for_target(&args, "linux")
        .expect_err("macos file provider rejected on linux")
        .contains("only supported on macOS"));
    assert_eq!(
        projection_usage_options_for_target("macos"),
        "plain-files|macos-file-provider"
    );
}

#[test]
fn projection_mode_defaults_to_plain_files_on_every_platform() {
    let args: Vec<String> = Vec::new();

    assert_eq!(
        projection_mode_for_target(&args, "windows").expect("plain files default"),
        ProjectionMode::PlainFiles
    );
    assert_eq!(
        projection_mode_for_target(
            &[
                "--projection".to_string(),
                "windows-cloud-files".to_string()
            ],
            "windows"
        )
        .expect("windows cloud files projection"),
        ProjectionMode::WindowsCloudFiles
    );
    assert_eq!(
        projection_usage_options_for_target("windows"),
        "plain-files|windows-cloud-files"
    );
}

#[test]
fn virtual_projection_registration_is_platform_specific() {
    let macos_mount = mount(
        "notion-main",
        "notion",
        "/tmp/loc/notion",
        ProjectionMode::MacosFileProvider,
    );
    let linux_mount = mount(
        "notion-linux",
        "notion",
        "/tmp/loc/linux",
        ProjectionMode::LinuxFuse,
    );
    let windows_mount = MountConfig::new("notion-windows", "notion", r"C:\Users\Ada\Locality")
        .projection(ProjectionMode::WindowsCloudFiles);

    assert_eq!(
        validate_virtual_projection_registration(&macos_mount, "macos")
            .expect("macos file provider mount is valid"),
        VirtualProjectionRegistration::MacosFileProvider
    );
    assert_eq!(
        validate_virtual_projection_registration(&linux_mount, "linux")
            .expect("linux fuse mount is valid"),
        VirtualProjectionRegistration::LinuxFuse
    );
    assert_eq!(
        validate_virtual_projection_registration(&windows_mount, "windows")
            .expect("windows cloud files mount is valid"),
        VirtualProjectionRegistration::WindowsCloudFiles
    );

    let wrong_projection = validate_virtual_projection_registration(&linux_mount, "macos")
        .expect_err("linux fuse mount is not a macos file provider domain");
    assert_eq!(wrong_projection.code, "wrong_projection");
    assert!(wrong_projection
        .message
        .contains("--projection macos-file-provider"));

    let wrong_projection = validate_virtual_projection_registration(&macos_mount, "linux")
        .expect_err("macos file provider mount is not a linux fuse mount");
    assert_eq!(wrong_projection.code, "wrong_projection");
    assert!(wrong_projection.message.contains("--projection linux-fuse"));

    let wrong_projection = validate_virtual_projection_registration(&macos_mount, "windows")
        .expect_err("macos file provider mount is not a windows cloud files sync root");
    assert_eq!(wrong_projection.code, "wrong_projection");
    assert!(wrong_projection
        .message
        .contains("--projection windows-cloud-files"));
}

#[test]
fn linux_fuse_unregister_guard_blocks_shared_root_siblings() {
    let target = mount(
        "notion-main",
        "notion",
        "/tmp/Locality/notion",
        ProjectionMode::LinuxFuse,
    );
    let sibling = mount(
        "docs-main",
        "google-docs",
        "/tmp/Locality/docs",
        ProjectionMode::LinuxFuse,
    );
    let mounts = vec![target.duplicate(), sibling];

    let error = guard_linux_fuse_shared_root_unregister(PathStyle::Unix, &mounts, &target)
        .expect_err("shared root sibling should block unregister");

    assert_eq!(error.code, "linux_fuse_shared_root_in_use");
    assert!(error.message.contains("/tmp/Locality"));
    assert!(error.message.contains("docs-main"));
}

#[test]
fn linux_fuse_unregister_guard_ignores_non_siblings() {
    let target = mount(
        "notion-main",
        "notion",
        "/tmp/Locality/notion",
        ProjectionMode::LinuxFuse,
    );
    let different_root = mount(
        "docs-main",
        "google-docs",
        "/tmp/Other/docs",
        ProjectionMode::LinuxFuse,
    );
    let different_projection = mount(
        "plain",
        "notion",
        "/tmp/Locality/plain",
        ProjectionMode::PlainFiles,
    );
    let same_mount_id = mount(
        "notion-main",
        "notion",
        "/tmp/Locality/notion-copy",
        ProjectionMode::LinuxFuse,
    );
    let mounts = vec![
        target.duplicate(),
        different_root,
        different_projection,
        same_mount_id,
    ];

    guard_linux_fuse_shared_root_unregister(PathStyle::Unix, &mounts, &target)
        .expect("non-siblings should not block unregister");
}

#[test]
fn unresolved_linux_fuse_unregister_is_blocked_when_shared_mounts_exist() {
    let mounts = vec![
        mount(
            "notion-main",
            "notion",
            "/tmp/Locality/notion",
            ProjectionMode::LinuxFuse,
        ),
        mount(
            "docs-main",
            "google-docs",
            "/tmp/Locality/docs",
            ProjectionMode::LinuxFuse,
        ),
    ];

    let error = guard_unresolved_linux_fuse_unregister(&mounts, "root-tmp-Locality")
        .expect_err("unresolved raw target should not unregister shared roots");

    assert_eq!(error.code, "linux_fuse_unresolved_shared_root");
    assert!(error.message.contains("root-tmp-Locality"));
    assert!(error.message.contains("notion-main"));
    assert!(error.message.contains("docs-main"));
}

#[test]
fn windows_cloud_files_unregister_guard_blocks_shared_root_siblings() {
    let target = mount(
        "notion-main",
        "notion",
        "/tmp/Locality/notion",
        ProjectionMode::WindowsCloudFiles,
    );
    let sibling = mount(
        "docs-main",
        "google-docs",
        "/tmp/Locality/docs",
        ProjectionMode::WindowsCloudFiles,
    );
    let mounts = vec![target.duplicate(), sibling];

    let error = guard_windows_cloud_files_shared_root_unregister(PathStyle::Unix, &mounts, &target)
        .expect_err("shared root sibling should block unregister");

    assert_eq!(error.code, "windows_cloud_files_shared_root_in_use");
    assert!(error.message.contains("/tmp/Locality"));
    assert!(error.message.contains("docs-main"));
}

#[test]
fn unresolved_windows_cloud_files_unregister_is_blocked_when_shared_mounts_exist() {
    let mounts = vec![
        mount(
            "notion-main",
            "notion",
            "/tmp/Locality/notion",
            ProjectionMode::WindowsCloudFiles,
        ),
        mount(
            "docs-main",
            "google-docs",
            "/tmp/Locality/docs",
            ProjectionMode::WindowsCloudFiles,
        ),
    ];

    let error = guard_unresolved_windows_cloud_files_unregister(&mounts, "notoin-main")
        .expect_err("unresolved raw target should not unregister shared roots");

    assert_eq!(error.code, "windows_cloud_files_unresolved_shared_root");
    assert!(error.message.contains("notoin-main"));
    assert!(error.message.contains("notion-main"));
    assert!(error.message.contains("docs-main"));
}

#[test]
fn mount_auto_registration_runs_for_linux_fuse_on_linux_only() {
    assert_eq!(
        auto_registration_for_mounted_projection(ProjectionMode::LinuxFuse, "linux", false),
        Some(VirtualProjectionRegistration::LinuxFuse)
    );
    assert_eq!(
        auto_registration_for_mounted_projection(
            ProjectionMode::WindowsCloudFiles,
            "windows",
            false
        ),
        Some(VirtualProjectionRegistration::WindowsCloudFiles)
    );
    assert_eq!(
        auto_registration_for_mounted_projection(ProjectionMode::PlainFiles, "linux", false),
        None
    );
    assert_eq!(
        auto_registration_for_mounted_projection(ProjectionMode::LinuxFuse, "macos", false),
        None
    );
}

#[test]
fn mount_auto_registration_skips_when_daemon_is_disabled() {
    assert_eq!(
        auto_registration_for_mounted_projection(ProjectionMode::LinuxFuse, "linux", true),
        None
    );
}

fn google_docs_descriptor() -> SourceDescriptor {
    SourceDescriptor {
        id: "google-docs".to_string(),
        display_name: "Google Docs".to_string(),
        default_mount_id: "google-docs-main".to_string(),
        connect_command: Some("loc connect google-docs".to_string()),
    }
}

fn google_docs_main() -> MountConfig {
    let mut saved = mount(
        "google-docs-main",
        "google-docs",
        "/tmp/Locality/google-docs-main",
        ProjectionMode::LinuxFuse,
    );
    saved.connection_id = Some("google-docs-work".to_string());
    saved.remote_root_id = Some("workspace-folder-a".to_string());
    saved
}

#[test]
fn google_docs_default_mount_id_derives_from_connection_when_default_is_other_workspace() {
    let mount_id = default_mount_id_for_source(
        &Ok(vec![google_docs_main()]),
        &google_docs_descriptor(),
        Some("google-docs-work"),
        Some("workspace-folder-b"),
    )
    .expect("derive Google Docs mount id");

    assert_eq!(mount_id, "google-docs-work");
}

#[test]
fn google_docs_default_mount_id_reuses_default_for_same_workspace() {
    let mount_id = default_mount_id_for_source(
        &Ok(vec![google_docs_main()]),
        &google_docs_descriptor(),
        Some("google-docs-work"),
        Some("workspace-folder-a"),
    )
    .expect("derive Google Docs mount id");

    assert_eq!(mount_id, "google-docs-main");
}

#[test]
fn linux_fuse_registration_preflight_requires_running_daemon_unless_disabled() {
    let error =
        mounted_projection_preflight_error(ProjectionMode::LinuxFuse, "linux", false, || false)
            .expect("linux fuse should require daemon");

    assert_eq!(error.code, "daemon_not_running");
    assert!(error.message.contains("localityd is not running"));
    assert!(error
        .suggested_command
        .as_deref()
        .is_some_and(|command| command.contains("loc daemon start")));

    assert!(
        mounted_projection_preflight_error(ProjectionMode::LinuxFuse, "linux", false, || true)
            .is_none()
    );
    assert!(
        mounted_projection_preflight_error(ProjectionMode::LinuxFuse, "linux", true, || {
            panic!("daemon check should be skipped when daemon-disabled")
        })
        .is_none()
    );
    assert!(
        mounted_projection_preflight_error(ProjectionMode::PlainFiles, "linux", false, || {
            panic!("daemon check should be skipped for plain files")
        })
        .is_none()
    );
}

fn field(key: &str, value: Json) -> JsonField {
    JsonField {
        key: key.to_string(),
        value,
    }
}

fn words(value: &str) -> Json {
    Json::Text(value.to_string())
}

#[test]
fn file_provider_list_lines_print_linux_roots_and_stale_units() {
    let report = FileProviderCommandReport {
        ok: true,
        command: "file-provider",
        action: "list".to_string(),
        mount_id: None,
        helper: "systemctl".to_string(),
        helper_report: Json::Object(vec![
            field("message", words("Linux FUSE roots listed")),
            field(
                "roots",
                Json::Array(vec![Json::Object(vec![
                    field(
                        "service",
                        words("ai.codeflash.locality.fuse.root-home.service"),
                    ),
                    field(
                        "mount_ids",
                        Json::Array(vec![words("google-docs-main"), words("notion-main")]),
                    ),
                    field("mountpoint", words("/home/example/Locality")),
                    field("registered", Json::Bool(true)),
                    field("active", Json::Bool(false)),
                ])]),
            ),
            field(
                "stale_units",
                Json::Array(vec![Json::Object(vec![
                    field(
                        "service",
                        words("ai.codeflash.locality.fuse.notion-main.service"),
                    ),
                    field("mountpoint", words("/home/example/Locality/notion-main")),
                    field(
                        "unit_path",
                        words("/home/example/.config/systemd/user/ai.codeflash.locality.fuse.notion-main.service"),
                    ),
                    field("legacy", Json::Bool(true)),
                ])]),
            ),
        ]),
    };

    assert_eq!(
        file_provider_list_lines(&report),
        vec![
            "linux-fuse\tgoogle-docs-main,notion-main\t/home/example/Locality\tregistered=true\tactive=false".to_string(),
            "stale-linux-fuse\tai.codeflash.locality.fuse.notion-main.service\t/home/example/Locality/notion-main\t/home/example/.config/systemd/user/ai.codeflash.locality.fuse.notion-main.service\tlegacy=true".to_string(),
        ]
    );
}

#[test]
fn command_paths_absolutize_relative_state_roots() {
    let path = absolute_command_path(PathStyle::Unix, ".loc", &Some("/home/example".to_string()));

    assert!(std::path::Path::new(&path).is_absolute());
    assert!(std::path::Path::new(&path).ends_with(".loc"));
}

#[test]
fn pull_direct_fallback_refuses_timeout_and_virtual_mount_without_daemon() {
    let virtual_mount = Some(mount(
        "notion-main",
        "notion",
        "/tmp/loc/notion",
        ProjectionMode::LinuxFuse,
    ));
    let plain_mount = Some(mount(
        "plain",
        "notion",
        "/tmp/loc/plain",
        ProjectionMode::PlainFiles,
    ));

    let timeout = pull_direct_fallback_error(DaemonUnavailableReason::TimedOut, &None, 300_000)
        .expect("timed out daemon pull blocks fallback");
    assert_eq!(timeout.code, "daemon_timeout");
    assert!(timeout
        .message
        .contains("refusing direct fallback to avoid racing daemon hydration"));

    let virtual_without_daemon = pull_direct_fallback_error(
        DaemonUnavailableReason::NotAvailable,
        &virtual_mount,
        300_000,
    )
    .expect("virtual projection requires daemon");
    assert_eq!(virtual_without_daemon.code, "daemon_required");
    assert!(virtual_without_daemon.message.contains("linux_fuse"));

    assert!(pull_direct_fallback_error(
        DaemonUnavailableReason::NotAvailable,
        &plain_mount,
        300_000
    )
    .is_none());
    assert!(pull_direct_fallback_error(
        DaemonUnavailableReason::Disabled,
        &virtual_mount,
        300_000
    )
    .is_none());
}

#[test]
fn local_redirect_defaults_to_loopback_callback_uri() {
    let redirect = local_redirect("http://localhost:8757/oauth/notion/callback").expect("redirect");

    assert_eq!(redirect.bind_addr, "127.0.0.1:8757");
    assert_eq!(redirect.callback_path, "/oauth/notion/callback");
}

#[test]
fn local_redirect_accepts_explicit_loopback_ip_callback_uri() {
    let redirect = local_redirect("http://127.0.0.1:8757/oauth/notion/callback").expect("redirect");

    assert_eq!(redirect.bind_addr, "127.0.0.1:8757");
    assert_eq!(redirect.callback_path, "/oauth/notion/callback");
}

#[test]
fn oauth_callback_requires_matching_state() {
    let request = "GET /oauth/notion/callback?code=abc123&state=expected HTTP/1.1\r\nHost: localhost\r\n\r\n";

    let authorization =
        parse_oauth_callback(request, "/oauth/notion/callback", "expected").expect("callback");

    assert_eq!(authorization.code, "abc123");
    assert!(
        parse_oauth_callback(request, "/oauth/notion/callback", "other")
            .expect_err("state mismatch")
            .code
            .contains("oauth_state_mismatch")
    );
}

#[test]
fn notion_authorize_url_encodes_redirect_and_state() {
    let url = notion_authorize_url(
        "client id",
        "http://localhost:8757/oauth/notion/callback",
        "state+value",
    );

    assert!(url.contains("client_id=client%20id"));
    assert!(url.contains("response_type=code"));
    assert!(url.contains("owner=user"));
    assert!(
        url.contains("redirect_uri=http%3A%2F%2Flocalhost%3A8757%2Foauth%2Fnotion%2Fcallback")
    );
    assert!(url.contains("state=state%2Bvalue"));
}

fn no_variables() -> OAuthVariables {
    OAuthVariables {
        client_ids: Vec::new(),
        client_secrets: Vec::new(),
        broker_urls: Vec::new(),
        redirect_uris: Vec::new(),
    }
}

#[test]
fn notion_oauth_broker_config_accepts_explicit_broker_url() {
    let args = strings(&[
        "notion",
        "--broker-url",
        "https://auth.example.test",
        "--redirect-uri",
        "http://localhost:8757/oauth/notion/callback",
    ]);

    let config = notion_oauth_broker_config(&args, &no_variables(), "https://default.example.test")
        .expect("broker config");

    assert_eq!(config.broker_url, "https://auth.example.test");
    assert_eq!(
        config.redirect_uri,
        "http://localhost:8757/oauth/notion/callback"
    );
}

#[test]
fn google_docs_oauth_broker_config_accepts_explicit_broker_url() {
    let args = strings(&[
        "google-docs",
        "--broker-url",
        "https://auth.example.test",
        "--redirect-uri",
        "http://localhost:8757/oauth/google-docs/callback",
    ]);

    let config = google_docs_oauth_broker_config(
        &args,
        &no_variables(),
        "https://default.example.test",
        "http://localhost:1/default",
    )
    .expect("broker config");

    assert_eq!(config.broker_url, "https://auth.example.test");
    assert_eq!(
        config.redirect_uri,
        "http://localhost:8757/oauth/google-docs/callback"
    );
}

fn report(ok: bool) -> DiffReport {
    DiffReport {
        ok,
        command: "diff",
        path: "Roadmap.md".to_string(),
        mount_id: "notion-main".to_string(),
        entity_id: "page-1".to_string(),
        validation: Vec::new(),
        plan: None,
        guardrail: GuardrailOutput {
            decision: "proceed".to_string(),
            reasons: Vec::new(),
        },
        action: if ok { "noop" } else { "fix_validation" }.to_string(),
        unsupported: Vec::new(),
        message: None,
        suggested_fix: None,
        readable_diff: None,
        completed_stages: Vec::new(),
    }
}

fn push_report(action: &str) -> PushReport {
    PushReport {
        ok: action == "noop",
        command: "push",
        via: "cli".to_string(),
        path: "Roadmap.md".to_string(),
        mount_id: "notion-main".to_string(),
        entity_id: "page-1".to_string(),
        validation: Vec::new(),
        plan: None,
        guardrail: GuardrailOutput {
            decision: "proceed".to_string(),
            reasons: Vec::new(),
        },
        action: action.to_string(),
        pipeline_action: action.to_string(),
        push_id: None,
        journal_status: None,
        changed_remote_ids: Vec::new(),
        reconciled_remote_ids: Vec::new(),
        apply_effect_count: 0,
        completed_stages: Vec::new(),
        message: None,
        unsupported: Vec::new(),
        suggested_fix: None,
    }
}

fn empty_search_report(options: &SearchOptions) -> SearchReport {
    SearchReport {
        ok: true,
        command: "search",
        query: options.query.clone(),
        connector: options.connector.clone(),
        count: 0,
        results: Vec::new(),
    }
}
