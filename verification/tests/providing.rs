use loc_cli::cloud_files::{
    start_windows_cloud_files_lifecycle, started_windows_cloud_files,
    status_windows_cloud_files_lifecycle, stop_windows_cloud_files_lifecycle,
    windows_cloud_files_lifecycle_file, windows_cloud_files_lifecycle_message,
    windows_cloud_files_lifecycle_metadata_for_mount, windows_cloud_files_lifecycle_report,
    windows_cloud_files_lifecycle_root_id, windows_cloud_files_marker_matches,
    windows_cloud_files_path_key,
    windows_cloud_files_registration_marker_exists, windows_cloud_files_registration_status,
    windows_cloud_files_shared_sync_root_id, StartedHelper, WindowsCloudFilesProcessMetadata,
    WindowsCloudFilesProviderState, WindowsStart,
};
use loc_cli::file_provider::{
    find_helper, helper_answer, helper_outcome, linux_fuse_root_id, linux_fuse_unit_name,
    locality_fuse_helper_path, macos_file_provider_domain_url, macos_file_provider_helper_path,
    macos_helper_places, process_failure_message, register_linux_fuse_mount, register_macos_args,
    tell_failure, windows_cloud_files_helper_path, Candidate, FileProviderHelperError, HelperSearch, LinuxFuseRegistrationError,
    WindowsCloudFilesHelperError, WindowsCloudFilesLifecycleAction,
};
use loc_cli::json::{Json, JsonField};
use loc_cli::model::{MountConfig, ProjectionMode, StoreError, StoreErrorKind};
use loc_cli::paths::PathStyle;
use loc_cli::providing::{
    linux_fuse_unregistration, linux_opened_report, linux_registered_report,
    linux_unregistered_report, provider_step, resolve_mount_target, unregister_step,
    LinuxUnregister, MacosDomain, ProviderStep, TargetState,
};
use loc_cli::requests::ProviderAction;

fn strings(values: &[&str]) -> Vec<String> {
    values.iter().map(|value| value.to_string()).collect()
}

fn some(value: &str) -> Option<String> {
    Some(value.to_string())
}

fn field(key: &str, value: Json) -> JsonField {
    JsonField {
        key: key.to_string(),
        value,
    }
}

fn words(value: &str) -> Json {
    Json::Text(value.to_string())
}

fn mounted(id: &str, projection: ProjectionMode) -> MountConfig {
    let mut mount =
        MountConfig::new(id, "notion", &format!("/tmp/Locality/{id}")).projection(projection);
    mount.projection_root = "/tmp/Locality".to_string();
    mount
}

fn domain() -> MacosDomain {
    MacosDomain {
        id: "locality".to_string(),
        display_name: "Locality".to_string(),
    }
}

#[test]
fn the_macos_helper_is_looked_for_in_order() {
    let name = "locality-file-providerctl";
    let places = macos_helper_places(
        PathStyle::Unix,
        &Some("/named".to_string()),
        &Some("/bin".to_string()),
        &Some("/Users/ada".to_string()),
        "/src/mac",
    );
    assert_eq!(
        places,
        vec![
            "/named".to_string(),
            format!("/bin/{name}"),
            format!("/Applications/Locality.app/Contents/MacOS/{name}"),
            format!("/Users/ada/Applications/Locality.app/Contents/MacOS/{name}"),
            format!("/src/mac/.build/dev-bundle/Locality.app/Contents/MacOS/{name}"),
            format!("/src/mac/.build/debug/{name}"),
            format!("/src/mac/.build/release/{name}"),
        ]
    );
    assert_eq!(macos_helper_places(PathStyle::Unix, &None, &None, &None, "/p").len(), 4);
    let place = |path: &str, exists| Candidate { path: path.to_string(), exists };
    let seen = vec![place("/a", false), place("/b", true), place("/c", true)];
    assert_eq!(macos_file_provider_helper_path(&seen), Some("/b".to_string()));
    assert_eq!(macos_file_provider_helper_path(&Vec::new()), None);
}

#[test]
fn a_helper_answers_in_json_or_in_words() {
    assert_eq!(helper_answer(Some(Json::Bool(true)), "true"), Json::Bool(true));
    assert_eq!(helper_answer(None, " done\n"), Json::Text("done".to_string()));
}

#[test]
fn targets_are_mount_identifiers_or_paths() {
    let all = || Ok(vec![mounted("a", ProjectionMode::LinuxFuse)]);
    assert_eq!(
        resolve_mount_target(&all(), "a", &Ok(None)).expect("by id").mount_id,
        "a"
    );
    let at_path = Ok(Some(mounted("b", ProjectionMode::PlainFiles)));
    assert_eq!(
        resolve_mount_target(&all(), "/tmp/x", &at_path)
            .expect("by path")
            .mount_id,
        "b"
    );
    assert_eq!(
        resolve_mount_target(&all(), "c", &Ok(None)),
        Err("no Locality mount matches `c`".to_string())
    );
    assert_eq!(
        resolve_mount_target(&all(), "c", &Err("denied".to_string())),
        Err("failed to resolve `c`: denied".to_string())
    );
    let broken = Err(StoreError {
        kind: StoreErrorKind::Io,
        message: "disk".to_string(),
    });
    assert_eq!(
        resolve_mount_target(&broken, "a", &Ok(None)),
        Err("failed to load mounts: disk".to_string())
    );
}

#[test]
fn provider_actions_fit_the_system() {
    let step = |action, projection, os| {
        provider_step(action, Ok(mounted("a", projection)), os, &domain())
    };
    match step(
        ProviderAction::Register,
        ProjectionMode::MacosFileProvider,
        "macos",
    )
    .expect("register")
    {
        ProviderStep::MacosHelper(call) => {
            assert_eq!(call.action, "register");
            assert_eq!(
                call.args,
                strings(&["--mount-id", "locality", "--display-name", "Locality"])
            );
            assert_eq!(call.mount_id, "a");
        }
        other => panic!("the helper is called, not {other:?}"),
    }
    assert!(matches!(
        step(ProviderAction::Register, ProjectionMode::LinuxFuse, "linux"),
        Ok(ProviderStep::LinuxRegister(_))
    ));
    assert!(matches!(
        step(ProviderAction::Open, ProjectionMode::LinuxFuse, "linux"),
        Ok(ProviderStep::LinuxOpen(_))
    ));
    assert!(matches!(
        step(
            ProviderAction::Run,
            ProjectionMode::WindowsCloudFiles,
            "windows"
        ),
        Ok(ProviderStep::WindowsRun(_))
    ));
    let refused = step(ProviderAction::Run, ProjectionMode::LinuxFuse, "linux")
        .expect_err("no foreground run");
    assert_eq!(refused.error.code, "unsupported_platform");
    assert_eq!(
        refused.error.message,
        "foreground provider run is only supported for Windows Cloud Files"
    );
    let refused = step(
        ProviderAction::Lifecycle(WindowsCloudFilesLifecycleAction::Stop),
        ProjectionMode::MacosFileProvider,
        "macos",
    )
    .expect_err("no lifecycle");
    assert_eq!(
        refused.error.message,
        "file-provider stop is currently implemented for Windows Cloud Files mounts"
    );
    assert_eq!(
        step(ProviderAction::Open, ProjectionMode::PlainFiles, "linux")
            .expect_err("plain files")
            .error
            .code,
        "wrong_projection"
    );
    let lost = provider_step(
        ProviderAction::Open,
        Err("no Locality mount matches `x`".to_string()),
        "linux",
        &domain(),
    )
    .expect_err("lost");
    assert_eq!(lost.error.code, "mount_not_found");
    assert_eq!(lost.exit_code, 2);
}

#[test]
fn unregistering_stops_no_sibling() {
    let state = |mounts: Vec<MountConfig>, resolved| {
        Some(TargetState {
            mounts: Ok(mounts),
            resolved,
        })
    };
    let fuse = |id: &str| mounted(id, ProjectionMode::LinuxFuse);
    let refused = unregister_step(
        PathStyle::Unix,
        "a",
        state(vec![fuse("a"), fuse("b")], Ok(fuse("a"))),
        "linux",
        &domain(),
    )
    .expect_err("shared");
    assert_eq!(refused.error.code, "linux_fuse_shared_root_in_use");
    assert!(matches!(
        unregister_step(
            PathStyle::Unix,
            "a",
            state(vec![fuse("a")], Ok(fuse("a"))),
            "linux",
            &domain(),
        ),
        Ok(ProviderStep::LinuxUnregister(call)) if call.target == "a" && call.mount.is_some()
    ));
    assert_eq!(
        unregister_step(
            PathStyle::Unix,
            "x",
            state(vec![fuse("a")], Err("none".to_string())),
            "linux",
            &domain()
        )
        .expect_err("unknown")
        .error
        .code,
        "linux_fuse_unresolved_shared_root"
    );
    assert!(matches!(
        unregister_step(PathStyle::Unix, "x", None, "windows", &domain()),
        Ok(ProviderStep::WindowsUnregister(id)) if id == "x"
    ));
    assert!(matches!(
        unregister_step(PathStyle::Unix, "x", None, "macos", &domain()),
        Ok(ProviderStep::MacosHelper(call)) if call.action == "unregister" && call.mount_id == "x"
    ));
}

#[test]
fn fuse_units_are_registered_and_removed() {
    let mount = mounted("a", ProjectionMode::LinuxFuse);
    let done = register_linux_fuse_mount(
        PathStyle::Unix,
        true,
        true,
        some("/usr/bin/locality-fuse"),
        &some("/home/ada"),
        "/home/ada/.loc",
        &mount,
    )
    .expect("registered");
    let service = linux_fuse_unit_name(&linux_fuse_root_id(&mount));
    assert_eq!(done.report.service, service);
    assert_eq!(
        done.report.unit_path,
        format!("/home/ada/.config/systemd/user/{service}")
    );
    assert_eq!(done.report.mountpoint, "/tmp/Locality");
    assert!(done.unit.contains("--mountpoint /tmp/Locality"));
    let shown = linux_registered_report(&mount, done.report);
    assert_eq!(shown.action, "register");
    assert_eq!(shown.mount_id, some("a"));
    let register = |on_linux, running, helper: Option<String>, home: &Option<String>| {
        register_linux_fuse_mount(PathStyle::Unix, on_linux, running, helper, home, "/s", &mount)
            .expect_err("refused")
    };
    assert_eq!(
        register(false, true, some("f"), &some("/h")),
        LinuxFuseRegistrationError::UnsupportedPlatform(
            "linux_fuse registration is only supported on Linux; mount `a` cannot be registered here"
                .to_string()
        )
    );
    assert_eq!(
        register(true, false, some("f"), &some("/h")),
        LinuxFuseRegistrationError::DaemonNotRunning
    );
    assert_eq!(
        register(true, true, None, &some("/h")),
        LinuxFuseRegistrationError::HelperMissing
    );
    assert_eq!(
        register(true, true, some("f"), &None),
        LinuxFuseRegistrationError::EnvMissing("HOME is not set".to_string())
    );
    let gone = linux_fuse_unregistration(
        PathStyle::Unix,
        &LinuxUnregister {
            mount: Some(mounted("a", ProjectionMode::LinuxFuse)),
            target: "a".to_string(),
        },
        &some("/home/ada"),
    )
    .expect("unregistered");
    assert_eq!(gone.service, service);
    assert_eq!(gone.projection_root, some("/tmp/Locality"));
    assert_eq!(linux_unregistered_report(gone).action, "unregister");
    assert_eq!(linux_opened_report(&mount).action, "open");
}

#[test]
fn helpers_are_looked_for_in_order() {
    let place = |path: &str, exists| Candidate {
        path: path.to_string(),
        exists,
    };
    let search = HelperSearch {
        named: None,
        usual: vec![place("/a", false), place("/b", true)],
        on_path: vec![place("/c", true)],
    };
    assert_eq!(find_helper(&search), some("/b"));
    assert_eq!(locality_fuse_helper_path(true, &search), some("/b"));
    assert_eq!(locality_fuse_helper_path(false, &search), None);
    assert_eq!(windows_cloud_files_helper_path(false, &search), None);
    let named = HelperSearch {
        named: Some(place("/n", true)),
        usual: vec![place("/b", true)],
        on_path: Vec::new(),
    };
    assert_eq!(find_helper(&named), some("/n"));
}

#[test]
fn failures_of_programs_are_told_in_their_words() {
    assert_eq!(process_failure_message("p", " err \n", "out", "1"), "err");
    assert_eq!(process_failure_message("p", " ", " out ", "1"), "out");
    assert_eq!(
        process_failure_message("p", "", "", "exit status: 1"),
        "p exited with exit status: 1"
    );
    assert_eq!(tell_failure("p", Some("no domain"), "err", "1"), "no domain");
    assert_eq!(tell_failure("p", Some(""), " err ", "1"), "err");
    assert_eq!(tell_failure("p", None, " ", "signal: 9"), "p exited with signal: 9");
    assert_eq!(
        macos_file_provider_domain_url(&Json::Object(vec![field("url", words("/u"))]))
            .expect("url"),
        "/u"
    );
    assert_eq!(
        macos_file_provider_domain_url(&Json::Null),
        Err(FileProviderHelperError::Failed(
            "locality-file-providerctl did not return a CloudStorage URL".to_string()
        ))
    );
    assert_eq!(
        register_macos_args("a", "A"),
        strings(&["--mount-id", "a", "--display-name", "A"])
    );
}

fn windows() -> MountConfig {
    MountConfig::new("a", "notion", r"C:\Users\Ada\Locality\a")
        .projection(ProjectionMode::WindowsCloudFiles)
}

fn process(sync_root: &str, pid: u32) -> WindowsCloudFilesProcessMetadata {
    WindowsCloudFilesProcessMetadata {
        root_id: "r".to_string(),
        pid,
        helper: "old.exe".to_string(),
        sync_root: sync_root.to_string(),
        state_dir: "s".to_string(),
        stdout_log: "o".to_string(),
        stderr_log: "e".to_string(),
    }
}

#[test]
fn the_cloud_files_provider_is_started_once() {
    let start = |daemon, helper: Option<String>, existing: &Option<WindowsCloudFilesProcessMetadata>, running| {
        start_windows_cloud_files_lifecycle(
            PathStyle::Unix,
            daemon, helper, existing, running, false, "/s", "/s", &windows(),
        )
    };
    assert_eq!(
        start(false, some("h"), &None, false),
        Err(WindowsCloudFilesHelperError::DaemonNotRunning)
    );
    assert_eq!(
        start(true, None, &None, false),
        Err(WindowsCloudFilesHelperError::Missing)
    );
    let known = Some(process(r"C:\Users\Ada\Locality", 7));
    assert_eq!(
        start(true, some("h"), &known, true).expect("runs"),
        WindowsStart::Running {
            register: true,
            pid: 7
        }
    );
    match start(true, some("h"), &known, false).expect("starts") {
        WindowsStart::Launch {
            helper,
            args,
            root_id,
            sync_root,
            ..
        } => {
            assert_eq!(helper, "h");
            assert_eq!(args[0], "run");
            assert_eq!(args.len(), 5);
            assert_eq!(root_id, windows_cloud_files_lifecycle_root_id(&windows()));
            assert_eq!(sync_root, args[2]);
        }
        other => panic!("it is launched, not {other:?}"),
    }
    started_windows_cloud_files(StartedHelper::Alive, "/e").expect("alive");
    assert_eq!(
        started_windows_cloud_files(StartedHelper::Exited("code 1".to_string()), "/e"),
        Err((
            WindowsCloudFilesHelperError::Failed(
                "locality-cloud-files exited immediately with code 1; see /e".to_string()
            ),
            true
        ))
    );
}

#[test]
fn the_cloud_files_provider_is_stopped_and_told_of() {
    let known = Some(process("x", 7));
    let stop = stop_windows_cloud_files_lifecycle(
        PathStyle::Unix,
        None,
        &known,
        true,
        "/s",
        &windows(),
    );
    assert_eq!(stop.stop_pid, Some(7));
    assert_eq!(stop.helper, "old.exe");
    assert_eq!(
        stop.remove,
        vec![
            windows_cloud_files_lifecycle_file(
                PathStyle::Unix,
                "/s",
                &windows_cloud_files_lifecycle_root_id(&windows())
            ),
            windows_cloud_files_lifecycle_file(PathStyle::Unix, "/s", "a"),
        ]
    );
    let status = status_windows_cloud_files_lifecycle(None, &known, false);
    assert!(status.stale_pid_file);
    assert_eq!(status.state, WindowsCloudFilesProviderState::Stopped);
    assert_eq!(
        status_windows_cloud_files_lifecycle(None, &None, false).helper,
        "locality-cloud-files"
    );
    for (action, state, pid, message) in [
        (
            WindowsCloudFilesLifecycleAction::Start,
            WindowsCloudFilesProviderState::Running,
            Some(7),
            "Windows Cloud Files provider started for `a` (pid 7)",
        ),
        (
            WindowsCloudFilesLifecycleAction::Stop,
            WindowsCloudFilesProviderState::Stopped,
            None,
            "Windows Cloud Files provider is already stopped for `a`",
        ),
        (
            WindowsCloudFilesLifecycleAction::Status,
            WindowsCloudFilesProviderState::Stopped,
            Some(7),
            "Windows Cloud Files provider is stopped for `a`",
        ),
        (
            WindowsCloudFilesLifecycleAction::Start,
            WindowsCloudFilesProviderState::Running,
            None,
            "Windows Cloud Files provider start complete for `a`",
        ),
    ] {
        assert_eq!(
            windows_cloud_files_lifecycle_message(action, "a", state, pid),
            message
        );
    }
    let report = windows_cloud_files_lifecycle_report(
        PathStyle::Unix,
        WindowsCloudFilesLifecycleAction::Status,
        &windows(),
        &"/s".to_string(),
        "h".to_string(),
        true,
        true,
        Some(true),
        None,
        false,
        WindowsCloudFilesProviderState::Stopped,
    );
    assert_eq!(report.mount_id, "a");
    assert!(report.message.contains("is stopped"));
}

#[test]
fn cloud_files_records_belong_to_their_sync_root() {
    let own = || Some(process(r"c:/users/ada/locality/", 1));
    let other = || Some(process(r"C:\Users\Ada\Locality\a", 2));
    assert_eq!(
        windows_cloud_files_lifecycle_metadata_for_mount(other(), own(), &windows())
            .expect("own")
            .pid,
        1
    );
    assert_eq!(
        windows_cloud_files_lifecycle_metadata_for_mount(other(), None, &windows()),
        None
    );
    let id = windows_cloud_files_shared_sync_root_id(&windows());
    let listed = Json::Object(vec![field(
        "roots",
        Json::Array(vec![Json::Object(vec![
            field("id", words(&id)),
            field("path", words(r"C:\Users\Ada\Locality")),
        ])]),
    )]);
    assert_eq!(
        windows_cloud_files_registration_status(&listed, &windows()),
        Some(true)
    );
    assert_eq!(
        windows_cloud_files_registration_status(&Json::Null, &windows()),
        None
    );
    assert!(!windows_cloud_files_registration_marker_exists(
        &None,
        &None,
        &None,
        &windows()
    ));
    let by_id = Some(format!("{{\"sync_root_id\": \"{id}\"}}"));
    assert!(windows_cloud_files_registration_marker_exists(&None, &by_id, &None, &windows()));
    assert_eq!(
        windows_cloud_files_path_key(r"C:\Users\Ada\Locality"),
        windows_cloud_files_path_key("c:/users/ada/locality/")
    );
}

#[test]
fn a_helper_that_failed_is_told_in_its_own_message() {
    let wrote = " {\"ok\": false, \"message\": \"no domain\"}\n";
    assert_eq!(helper_outcome("ctl", true, wrote, "err", "exit status: 0"), Ok(()));
    assert_eq!(
        helper_outcome("ctl", false, wrote, "err", "exit status: 1"),
        Err("no domain".to_string())
    );
    for silent in ["no json", "{\"message\": \"\"}", "{\"message\": 7}", "[]", "\"message\"", ""] {
        assert_eq!(
            helper_outcome("ctl", false, silent, " err ", "exit status: 1"),
            Err("err".to_string())
        );
    }
    assert_eq!(
        helper_outcome("ctl", false, "", "", "exit status: 1"),
        Err("ctl exited with exit status: 1".to_string())
    );
}

#[test]
fn registration_markers_are_matched_by_their_first_key() {
    let matches = |marker: &str| {
        windows_cloud_files_marker_matches(&some(marker), "id-1", r"c:\users\ada")
    };
    assert!(matches(r#"{"sync_root_id": "id-1"}"#));
    assert!(matches(r#"{"id": "id-1"}"#));
    assert!(!matches(r#"{"sync_root_id": "id-2", "id": "id-1"}"#));
    assert!(!matches(r#"{"sync_root_id": 1, "id": "id-1"}"#));
    assert!(matches(r#"{"path": "C:\\Users\\Ada"}"#));
    assert!(matches(r#"{"sync_root": "C:/Users/Ada/"}"#));
    assert!(!matches(r#"{"path": "C:/Users/Bob", "sync_root": "C:/Users/Ada"}"#));
    assert!(!matches("id-1"));
    assert!(!windows_cloud_files_marker_matches(&None, "id-1", r"c:\users\ada"));
}
