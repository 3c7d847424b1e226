use loc_cli::cloud_files::{
    parse_tasklist_csv_line, windows_cloud_files_lifecycle_file,
    windows_cloud_files_lifecycle_fragment,
    windows_cloud_files_lifecycle_metadata_matches_mount, windows_cloud_files_open_args,
    windows_cloud_files_register_args, windows_cloud_files_roots_contain_registration,
    windows_cloud_files_run_args, windows_cloud_files_run_command_args,
    windows_cloud_files_shared_sync_root_id, windows_cloud_files_stderr_log_path,
    windows_cloud_files_stdout_log_path, windows_cloud_files_unregister_args,
};
use loc_cli::file_provider::{
    linux_fuse_root_id, linux_fuse_unit_contents, linux_fuse_unit_name,
    macos_file_provider_display_name, FileProviderHelperError,
};
use loc_cli::json::{Json, JsonField};
use loc_cli::model::{MountConfig, ProjectionMode};
use loc_cli::paths::PathStyle;
use loc_cli::pull::absolute_command_path;

fn fuse_mount(id: &str, root: &str) -> MountConfig {
    let mut mount = MountConfig::new(id, "notion", root).projection(ProjectionMode::LinuxFuse);
    let end = root.rfind('/').unwrap_or(0);
    mount.projection_root = root[..end].to_string();
    mount
}

fn cloud_mount(id: &str, connector: &str, root: &str) -> MountConfig {
    MountConfig::new(id, connector, root).projection(ProjectionMode::WindowsCloudFiles)
}

#[test]
fn linux_fuse_systemd_unit_uses_shared_root_helper_args() {
    let mount = fuse_mount("notion/main", "/home/example/loc notion");
    let root_id = linux_fuse_root_id(&mount);
    let unit_name = linux_fuse_unit_name(&root_id);
    let log_path = format!("/home/example/.loc/logs/locality-fuse.{root_id}.log");
    let unit = linux_fuse_unit_contents(
        "/opt/agent fs/locality-fuse",
        "/home/example/.loc",
        &mount,
        &log_path,
    );

    assert!(root_id.starts_with("root-home_example-"));
    assert!(root_id.len() <= 80);
    assert_eq!(
        unit_name,
        format!("ai.codeflash.locality.fuse.{root_id}.service")
    );
    assert!(unit.contains("ExecStart=\"/opt/agent fs/locality-fuse\""));
    assert!(!unit.contains("--mount-id"));
    assert!(unit.contains("--state-dir /home/example/.loc"));
    assert!(unit.contains("--mountpoint /home/example"));
    assert!(unit.contains("ExecStop=/usr/bin/fusermount3 -uz /home/example"));
    assert!(unit.contains("TimeoutStopSec=10"));
    assert!(unit.contains("LimitCORE=0"));
    assert!(unit.contains("Restart=on-failure"));
    assert!(unit.contains(&format!("StandardOutput=append:{log_path}")));
}

#[test]
fn linux_fuse_root_id_distinguishes_sanitized_collisions() {
    let colon_id = linux_fuse_root_id(&fuse_mount("colon", "/tmp/a:b/notion"));
    let question_id = linux_fuse_root_id(&fuse_mount("question", "/tmp/a?b/notion"));

    assert_ne!(colon_id, question_id);
    assert_ne!(
        linux_fuse_unit_name(&colon_id),
        linux_fuse_unit_name(&question_id)
    );
}

#[test]
fn linux_fuse_root_id_is_bounded_for_long_roots() {
    let long_component = "x".repeat(300);
    let root = format!("/tmp/{long_component}/notion");

    let root_id = linux_fuse_root_id(&fuse_mount("long", &root));

    assert!(
        root_id.len() <= 80,
        "root id should be bounded, got {} bytes: {root_id}",
        root_id.len()
    );
}

#[test]
fn linux_fuse_unit_uses_shared_projection_root() {
    let unit = linux_fuse_unit_contents(
        "/usr/bin/locality-fuse",
        "/tmp/.loc",
        &fuse_mount("notion-main", "/tmp/Locality/notion-main"),
        "/tmp/locality-fuse.log",
    );

    assert!(unit.contains("--mountpoint /tmp/Locality"));
    assert!(!unit.contains("--mount-id notion-main"));
}

#[test]
fn macos_file_provider_display_name_strips_locality_cloudstorage_prefix() {
    assert_eq!(
        macos_file_provider_display_name(
            PathStyle::Unix,
            "/Users/example/Library/CloudStorage/Locality-Notion",
            "fallback",
        ),
        "Notion"
    );
    assert_eq!(
        macos_file_provider_display_name(
            PathStyle::Unix,
            "/Users/example/Library/CloudStorage/Locality-Notion",
            "fallback",
        ),
        "Notion"
    );
    assert_eq!(
        macos_file_provider_display_name(
            PathStyle::Unix,
            "/Users/example/Library/CloudStorage/Locality/notion-main",
            "fallback",
        ),
        ""
    );
    assert_eq!(
        macos_file_provider_display_name(
            PathStyle::Unix,
            "/Users/example/Library/CloudStorage/Locality",
            "fallback"
        ),
        ""
    );
    assert_eq!(
        macos_file_provider_display_name(
            PathStyle::Unix,
            "/Users/example/Documents/Locality/Notion",
            "fallback"
        ),
        "Notion"
    );
    assert_eq!(macos_file_provider_display_name(PathStyle::Unix, "/", "fallback"), "fallback");
}

#[test]
fn macos_file_provider_unavailable_error_is_actionable() {
    let message =
        FileProviderHelperError::Failed("The application cannot be used right now.".to_string())
            .message();

    assert!(message.contains("make install-macos-file-provider"));
    assert!(message.contains("enable the File Provider"));
    assert!(!message.contains("right now.."));
}

#[test]
fn windows_cloud_files_register_args_are_stable_helper_contract() {
    let mount = cloud_mount(
        "notion-main",
        "notion",
        r"C:\Users\Ada\Locality\notion-main",
    );

    assert_eq!(
        windows_cloud_files_register_args(
            r"C:\Users\Ada\AppData\Local\Locality",
            &mount,
            "Notion"
        ),
        vec![
            "--display-name",
            "Locality",
            "--sync-root",
            r"C:\Users\Ada\Locality",
            "--state-dir",
            r"C:\Users\Ada\AppData\Local\Locality",
        ]
    );
}

#[test]
fn windows_cloud_files_helper_args_absolutize_relative_state_dir() {
    let mount = cloud_mount(
        "notion-main",
        "notion",
        r"C:\Users\Ada\Locality\notion-main",
    );
    let current_dir = Some(r"C:\Users\Ada\work".to_string());
    let state_dir = absolute_command_path(PathStyle::Windows, ".loc", &current_dir);

    assert_eq!(
        windows_cloud_files_register_args(&state_dir, &mount, "Notion"),
        vec![
            "--display-name",
            "Locality",
            "--sync-root",
            r"C:\Users\Ada\Locality",
            "--state-dir",
            r"C:\Users\Ada\work\.loc",
        ]
    );
}

#[test]
fn windows_cloud_files_open_and_unregister_args_are_stable_helper_contract() {
    let mount = cloud_mount(
        "notion-main",
        "notion",
        r"C:\Users\Ada\Locality\notion-main",
    );

    assert_eq!(
        windows_cloud_files_open_args(&mount),
        vec!["--sync-root", r"C:\Users\Ada\Locality"]
    );
    assert_eq!(
        windows_cloud_files_run_args(r"C:\Users\Ada\AppData\Local\Locality", &mount),
        vec![
            "--sync-root",
            r"C:\Users\Ada\Locality",
            "--state-dir",
            r"C:\Users\Ada\AppData\Local\Locality",
        ]
    );
    assert_eq!(
        windows_cloud_files_run_command_args(r"C:\Users\Ada\AppData\Local\Locality", &mount),
        vec![
            "run",
            "--sync-root",
            r"C:\Users\Ada\Locality",
            "--state-dir",
            r"C:\Users\Ada\AppData\Local\Locality",
        ]
    );
    assert_eq!(
        windows_cloud_files_unregister_args(r"C:\Users\Ada\AppData\Local\Locality", "notion-main"),
        vec![
            "--mount-id",
            "notion-main",
            "--state-dir",
            r"C:\Users\Ada\AppData\Local\Locality",
        ]
    );
}

#[test]
fn windows_cloud_files_run_args_use_shared_projection_root() {
    let mount = cloud_mount(
        "notion-main",
        "notion",
        r"C:\Users\Ada\Locality\notion-main",
    );

    let args = windows_cloud_files_run_command_args(r"C:\Users\Ada\.loc", &mount);

    assert!(args
        .windows(2)
        .any(|pair| pair[0] == "--sync-root" && pair[1] == r"C:\Users\Ada\Locality"));
    assert!(!args.windows(2).any(|pair| pair[0] == "--mount-id"));
}

fn listed_root(id: String, path: &str) -> Json {
    Json::Object(vec![
        JsonField {
            key: "id".to_string(),
            value: Json::Text(id),
        },
        JsonField {
            key: "mount_id".to_string(),
            value: Json::Null,
        },
        JsonField {
            key: "display_name".to_string(),
            value: Json::Text("Locality".to_string()),
        },
        JsonField {
            key: "path".to_string(),
            value: Json::Text(path.to_string()),
        },
    ])
}

#[test]
fn windows_cloud_files_registration_status_accepts_shared_root_id_field() {
    let mount = cloud_mount(
        "notion-main",
        "notion",
        r"C:\Users\Ada\Locality\notion-main",
    );
    let roots = vec![listed_root(
        windows_cloud_files_shared_sync_root_id(&mount),
        r"C:\Users\Ada\Locality",
    )];

    assert!(windows_cloud_files_roots_contain_registration(
        &roots, &mount
    ));
}

#[test]
fn windows_cloud_files_registration_status_rejects_other_shared_root_id() {
    let mount_a = cloud_mount(
        "notion-main",
        "notion",
        r"C:\Users\Ada\Locality\notion-main",
    );
    let mount_b = cloud_mount(
        "linear-main",
        "linear",
        r"D:\Teams\Grace\Locality\linear-main",
    );
    let roots = vec![listed_root(
        windows_cloud_files_shared_sync_root_id(&mount_b),
        r"D:\Teams\Grace\Locality",
    )];

    assert!(!windows_cloud_files_roots_contain_registration(
        &roots, &mount_a
    ));
    assert!(windows_cloud_files_roots_contain_registration(
        &roots, &mount_b
    ));
    assert_ne!(
        windows_cloud_files_shared_sync_root_id(&mount_a),
        windows_cloud_files_shared_sync_root_id(&mount_b)
    );
}

#[test]
fn windows_cloud_files_lifecycle_paths_are_mount_specific_and_stable() {
    let state_root = r"C:\Users\Ada\AppData\Local\Locality";
    let mount_id = "notion/main";
    let fragment = windows_cloud_files_lifecycle_fragment(mount_id);

    assert!(fragment.starts_with("notion_main-"));
    let state = std::path::Path::new(state_root);
    assert_eq!(
        windows_cloud_files_lifecycle_file(PathStyle::Unix, state_root, mount_id),
        state
            .join("cloud-files-lifecycle")
            .join(format!("{fragment}.json"))
            .display()
            .to_string()
    );
    assert_eq!(
        windows_cloud_files_stdout_log_path(PathStyle::Unix, state_root, mount_id),
        state
            .join("logs")
            .join(format!("locality-cloud-files.{fragment}.out.log"))
            .display()
            .to_string()
    );
    assert_eq!(
        windows_cloud_files_stderr_log_path(PathStyle::Unix, state_root, mount_id),
        state
            .join("logs")
            .join(format!("locality-cloud-files.{fragment}.err.log"))
            .display()
            .to_string()
    );
}

#[test]
fn windows_cloud_files_lifecycle_metadata_rejects_old_mount_point_sync_root() {
    let mount = cloud_mount(
        "notion-main",
        "notion",
        r"C:\Users\Ada\Locality\notion-main",
    );

    assert!(!windows_cloud_files_lifecycle_metadata_matches_mount(
        r"C:\Users\Ada\Locality\notion-main",
        &mount
    ));
    assert!(windows_cloud_files_lifecycle_metadata_matches_mount(
        r"C:\Users\Ada\Locality",
        &mount
    ));
}

#[test]
fn tasklist_csv_parser_extracts_pid_column() {
    assert_eq!(
        parse_tasklist_csv_line(
            "\"locality-cloud-files.exe\",\"1234\",\"Console\",\"1\",\"10,000 K\""
        ),
        vec![
            "locality-cloud-files.exe",
            "1234",
            "Console",
            "1",
            "10,000 K"
        ]
    );
}
