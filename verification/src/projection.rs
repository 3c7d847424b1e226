//! Projections by operating system: which can be chosen, which are registered
//! with the system, and which a mount registers by itself.
use vstd::prelude::*;

use crate::args;
use crate::model;
use crate::model::{CommandError, MountConfig, ProjectionMode};
use crate::text;

verus! {

/// The value of `--projection` for a projection.
pub open spec fn cli_value(projection: ProjectionMode) -> Seq<char> {
    match projection {
        ProjectionMode::PlainFiles => "plain-files"@,
        ProjectionMode::MacosFileProvider => "macos-file-provider"@,
        ProjectionMode::LinuxFuse => "linux-fuse"@,
        ProjectionMode::WindowsCloudFiles => "windows-cloud-files"@,
    }
}

/// The value of `--projection` for a projection.
pub fn projection_cli_value(projection: ProjectionMode) -> (r: &'static str)
    ensures
        r@ == cli_value(projection),
{
    match projection {
        ProjectionMode::PlainFiles => "plain-files",
        ProjectionMode::MacosFileProvider => "macos-file-provider",
        ProjectionMode::LinuxFuse => "linux-fuse",
        ProjectionMode::WindowsCloudFiles => "windows-cloud-files",
    }
}

/// The projection that a value of `--projection` means.
pub open spec fn from_cli_value(value: Seq<char>) -> Option<ProjectionMode> {
    if value == "plain-files"@ {
        Some(ProjectionMode::PlainFiles)
    } else if value == "macos-file-provider"@ {
        Some(ProjectionMode::MacosFileProvider)
    } else if value == "linux-fuse"@ {
        Some(ProjectionMode::LinuxFuse)
    } else if value == "windows-cloud-files"@ {
        Some(ProjectionMode::WindowsCloudFiles)
    } else {
        None
    }
}

fn read_cli_value(value: &str) -> (r: Option<ProjectionMode>)
    ensures
        r == from_cli_value(value@),
{
    if text::same_text(value, "plain-files") {
        Some(ProjectionMode::PlainFiles)
    } else if text::same_text(value, "macos-file-provider") {
        Some(ProjectionMode::MacosFileProvider)
    } else if text::same_text(value, "linux-fuse") {
        Some(ProjectionMode::LinuxFuse)
    } else if text::same_text(value, "windows-cloud-files") {
        Some(ProjectionMode::WindowsCloudFiles)
    } else {
        None
    }
}

/// Every projection is read back from its value of `--projection`.
pub proof fn law_cli_values_read_back(projection: ProjectionMode)
    ensures
        from_cli_value(cli_value(projection)) == Some(projection),
{
    reveal_strlit("plain-files");
    reveal_strlit("macos-file-provider");
    reveal_strlit("linux-fuse");
    reveal_strlit("windows-cloud-files");
    assert("plain-files"@.len() == 11);
    assert("macos-file-provider"@.len() == 19);
    assert("linux-fuse"@.len() == 10);
    assert("windows-cloud-files"@.len() == 19);
    assert("macos-file-provider"@[0] == 'm');
    assert("windows-cloud-files"@[0] == 'w');
}

/// The virtual projection of an operating system.
pub open spec fn virtual_projection(target_os: Seq<char>) -> Option<ProjectionMode> {
    if target_os == "macos"@ {
        Some(ProjectionMode::MacosFileProvider)
    } else if target_os == "linux"@ {
        Some(ProjectionMode::LinuxFuse)
    } else if target_os == "windows"@ {
        Some(ProjectionMode::WindowsCloudFiles)
    } else {
        None
    }
}

/// The virtual projection of an operating system.
pub fn virtual_projection_for_target(target_os: &str) -> (r: Option<ProjectionMode>)
    ensures
        r == virtual_projection(target_os@),
{
    if text::same_text(target_os, "macos") {
        Some(ProjectionMode::MacosFileProvider)
    } else if text::same_text(target_os, "linux") {
        Some(ProjectionMode::LinuxFuse)
    } else if text::same_text(target_os, "windows") {
        Some(ProjectionMode::WindowsCloudFiles)
    } else {
        None
    }
}

/// Whether a projection works on an operating system: plain files everywhere,
/// and the system's own virtual one.
pub open spec fn is_supported(projection: ProjectionMode, target_os: Seq<char>) -> bool {
    projection == ProjectionMode::PlainFiles || virtual_projection(target_os) == Some(projection)
}

/// Whether a projection works on an operating system.
pub fn supports(projection: ProjectionMode, target_os: &str) -> (r: bool)
    ensures
        r == is_supported(projection, target_os@),
{
    match virtual_projection_for_target(target_os) {
        Some(own) => projection == ProjectionMode::PlainFiles || projection == own,
        None => projection == ProjectionMode::PlainFiles,
    }
}

/// The values of `--projection` that work on an operating system.
pub open spec fn usage_options(target_os: Seq<char>) -> Seq<char> {
    match virtual_projection(target_os) {
        Some(own) => "plain-files|"@ + cli_value(own),
        None => "plain-files"@,
    }
}

/// The values of `--projection` that work on an operating system.
pub fn projection_usage_options_for_target(target_os: &str) -> (r: String)
    ensures
        r@ == usage_options(target_os@),
{
    match virtual_projection_for_target(target_os) {
        Some(own) => {
            let mut out = "plain-files|".to_string();
            out.append(projection_cli_value(own));
            out
        },
        None => "plain-files".to_string(),
    }
}

/// The name of the operating system that a virtual projection is of.
pub open spec fn home_of(projection: ProjectionMode) -> Seq<char> {
    match projection {
        ProjectionMode::PlainFiles => "every platform"@,
        ProjectionMode::MacosFileProvider => "macOS"@,
        ProjectionMode::LinuxFuse => "Linux"@,
        ProjectionMode::WindowsCloudFiles => "Windows"@,
    }
}

fn home_name(projection: ProjectionMode) -> (r: &'static str)
    ensures
        r@ == home_of(projection),
{
    match projection {
        ProjectionMode::PlainFiles => "every platform",
        ProjectionMode::MacosFileProvider => "macOS",
        ProjectionMode::LinuxFuse => "Linux",
        ProjectionMode::WindowsCloudFiles => "Windows",
    }
}

/// What `--projection` comes to on an operating system: plain files where it is
/// not given, and a refusal of what does not work there.
pub open spec fn chosen_projection(value: Option<Seq<char>>, target_os: Seq<char>) -> Result<
    ProjectionMode,
    Seq<char>,
> {
    match value {
        None => Ok(ProjectionMode::PlainFiles),
        Some(v) => match from_cli_value(v) {
            None => Err(
                "unknown projection `"@ + v + "`; expected "@ + usage_options(target_os),
            ),
            Some(projection) => if is_supported(projection, target_os) {
                Ok(projection)
            } else {
                Err("projection `"@ + v + "` is only supported on "@ + home_of(projection))
            },
        },
    }
}

/// What `--projection` comes to on an operating system.
pub fn projection_mode_for_target(args: &[String], target_os: &str) -> (r: Result<
    ProjectionMode,
    String,
>)
    ensures
        match chosen_projection(
            args::value_of(text::texts(args@), "--projection"@),
            target_os@,
        ) {
            Ok(projection) => r == Ok::<_, String>(projection),
            Err(why) => r matches Err(m) && m@ == why,
        },
{
    let value = match args::flag_value(args, "--projection") {
        Some(value) => value,
        None => {
            return Ok(ProjectionMode::PlainFiles);
        },
    };
    match read_cli_value(value) {
        None => {
            let mut message = text::concat3("unknown projection `", value, "`; expected ");
            message.append(&projection_usage_options_for_target(target_os));
            Err(message)
        },
        Some(projection) => if supports(projection, target_os) {
            Ok(projection)
        } else {
            let mut message = text::concat3("projection `", value, "` is only supported on ");
            message.append(home_name(projection));
            Err(message)
        },
    }
}

/// How to use the mount command on an operating system.
pub open spec fn mount_usage_text(target_os: Seq<char>) -> Seq<char> {
    "usage: loc mount notion <path> (--workspace|--root-page <page-id>) [--connection <id>] [--mount-id <id>] [--projection "@
        + usage_options(target_os)
        + "] [--read-only] [--json]\n       loc mount google-docs <path> --workspace-folder <name-or-id> [--connection <id>] [--mount-id <id>] [--projection "@
        + usage_options(target_os) + "] [--read-only] [--json]"@
}

/// How to use the mount command on an operating system.
pub fn mount_usage(target_os: &str) -> (r: String)
    ensures
        r@ == mount_usage_text(target_os@),
{
    let options = projection_usage_options_for_target(target_os);
    let mut out = text::concat3(
        "usage: loc mount notion <path> (--workspace|--root-page <page-id>) [--connection <id>] [--mount-id <id>] [--projection ",
        &options,
        "] [--read-only] [--json]\n       loc mount google-docs <path> --workspace-folder <name-or-id> [--connection <id>] [--mount-id <id>] [--projection ",
    );
    out.append(&options);
    out.append("] [--read-only] [--json]");
    out
}

/// The virtual filesystems that a system can register.
#[derive(Clone, Copy, Debug, PartialEq, Eq, Structural)]
pub enum VirtualProjectionRegistration {
    MacosFileProvider,
    LinuxFuse,
    WindowsCloudFiles,
}

impl VirtualProjectionRegistration {
    /// The projection that is registered.
    #[verifier::allow_in_spec]
    pub fn projection(self) -> (r: ProjectionMode)
        returns
            (match self {
                VirtualProjectionRegistration::MacosFileProvider =>
                ProjectionMode::MacosFileProvider,
                VirtualProjectionRegistration::LinuxFuse => ProjectionMode::LinuxFuse,
                VirtualProjectionRegistration::WindowsCloudFiles =>
                ProjectionMode::WindowsCloudFiles,
            }),
    {
        match self {
            VirtualProjectionRegistration::MacosFileProvider => ProjectionMode::MacosFileProvider,
            VirtualProjectionRegistration::LinuxFuse => ProjectionMode::LinuxFuse,
            VirtualProjectionRegistration::WindowsCloudFiles => ProjectionMode::WindowsCloudFiles,
        }
    }
}

/// What an operating system can register.
pub open spec fn registration_of(target_os: Seq<char>) -> Option<VirtualProjectionRegistration> {
    match virtual_projection(target_os) {
        Some(ProjectionMode::MacosFileProvider) => Some(
            VirtualProjectionRegistration::MacosFileProvider,
        ),
        Some(ProjectionMode::LinuxFuse) => Some(VirtualProjectionRegistration::LinuxFuse),
        Some(ProjectionMode::WindowsCloudFiles) => Some(
            VirtualProjectionRegistration::WindowsCloudFiles,
        ),
        _ => None,
    }
}

/// What Linux and Windows can register.
pub proof fn lemma_registrations()
    ensures
        registration_of("linux"@) == Some(VirtualProjectionRegistration::LinuxFuse),
        registration_of("windows"@) == Some(VirtualProjectionRegistration::WindowsCloudFiles),
{
    reveal_strlit("linux");
    reveal_strlit("windows");
    reveal_strlit("macos");
    assert("linux"@.len() == 5 && "linux"@[0] == 'l');
    assert("macos"@.len() == 5 && "macos"@[0] == 'm');
    assert("windows"@.len() == 7);
}

/// What an operating system can register.
pub fn virtual_projection_registration_for_target(target_os: &str) -> (r: Option<
    VirtualProjectionRegistration,
>)
    ensures
        r == registration_of(target_os@),
{
    match virtual_projection_for_target(target_os) {
        Some(ProjectionMode::MacosFileProvider) => Some(
            VirtualProjectionRegistration::MacosFileProvider,
        ),
        Some(ProjectionMode::LinuxFuse) => Some(VirtualProjectionRegistration::LinuxFuse),
        Some(ProjectionMode::WindowsCloudFiles) => Some(
            VirtualProjectionRegistration::WindowsCloudFiles,
        ),
        _ => None,
    }
}

/// How a mount is registered on an operating system: only in the projection
/// that the system can register.
pub fn validate_virtual_projection_registration(mount: &MountConfig, target_os: &str) -> (r: Result<
    VirtualProjectionRegistration,
    CommandError,
>)
    ensures
        match registration_of(target_os@) {
            None => r matches Err(e) && model::is_command_error(
                e,
                "file-provider"@,
                "unsupported_platform"@,
                "no virtual filesystem registration is implemented for "@ + target_os@,
            ),
            Some(registration) => if mount.projection == registration.projection() {
                r == Ok::<_, CommandError>(registration)
            } else {
                r matches Err(e) && model::is_command_error(
                    e,
                    "file-provider"@,
                    "wrong_projection"@,
                    "mount `"@ + mount.mount_id@ + "` uses projection `"@ + mount.projection.name()
                        + "`; remount with --projection "@ + cli_value(registration.projection()),
                )
            },
        },
{
    let registration = match virtual_projection_registration_for_target(target_os) {
        Some(registration) => registration,
        None => {
            let mut message = "no virtual filesystem registration is implemented for ".to_string();
            message.append(target_os);
            return Err(CommandError::new("file-provider", "unsupported_platform", message));
        },
    };
    let required = registration.projection();
    if mount.projection == required {
        return Ok(registration);
    }
    let mut message = text::concat3("mount `", &mount.mount_id, "` uses projection `");
    message.append(mount.projection.as_str());
    message.append("`; remount with --projection ");
    message.append(projection_cli_value(required));
    Err(CommandError::new("file-provider", "wrong_projection", message))
}

/// What a new mount registers by itself: its virtual projection on Linux and on
/// Windows, unless the daemon is switched off.
pub open spec fn auto_registration(
    projection: ProjectionMode,
    target_os: Seq<char>,
    daemon_disabled: bool,
) -> Option<VirtualProjectionRegistration> {
    if daemon_disabled {
        None
    } else if projection == ProjectionMode::LinuxFuse && target_os == "linux"@ {
        Some(VirtualProjectionRegistration::LinuxFuse)
    } else if projection == ProjectionMode::WindowsCloudFiles && target_os == "windows"@ {
        Some(VirtualProjectionRegistration::WindowsCloudFiles)
    } else {
        None
    }
}

/// What a new mount registers by itself.
pub fn auto_registration_for_mounted_projection(
    projection: ProjectionMode,
    target_os: &str,
    daemon_disabled: bool,
) -> (r: Option<VirtualProjectionRegistration>)
    ensures
        r == auto_registration(projection, target_os@, daemon_disabled),
{
    if daemon_disabled {
        None
    } else if projection == ProjectionMode::LinuxFuse && text::same_text(target_os, "linux") {
        Some(VirtualProjectionRegistration::LinuxFuse)
    } else if projection == ProjectionMode::WindowsCloudFiles && text::same_text(
        target_os,
        "windows",
    ) {
        Some(VirtualProjectionRegistration::WindowsCloudFiles)
    } else {
        None
    }
}

/// A mount registers by itself only what its system can register.
pub proof fn law_auto_registration_is_valid(
    projection: ProjectionMode,
    target_os: Seq<char>,
    daemon_disabled: bool,
)
    ensures
        auto_registration(projection, target_os, daemon_disabled) matches Some(registration) ==> {
            &&& registration_of(target_os) == Some(registration)
            &&& registration.projection() == projection
            &&& is_supported(projection, target_os)
        },
{
    reveal_strlit("macos");
    reveal_strlit("linux");
    reveal_strlit("windows");
    assert("macos"@.len() == 5 && "linux"@.len() == 5 && "windows"@.len() == 7);
    assert("macos"@[0] == 'm' && "linux"@[0] == 'l');
}

/// Whether an error says that the daemon has to be started before a mount.
pub open spec fn asks_for_daemon(error: CommandError) -> bool {
    model::is_suggesting_error(
        error,
        "mount"@,
        "daemon_not_running"@,
        "localityd is not running; start it with `loc daemon start` before mounting a Linux FUSE projection"@,
        "loc daemon start"@,
    )
}

/// Why a projection cannot be mounted yet. Only a FUSE mount that registers by
/// itself needs the daemon, and only then is it looked for.
pub fn mounted_projection_preflight_error<F: FnOnce() -> bool>(
    projection: ProjectionMode,
    target_os: &str,
    daemon_disabled: bool,
    daemon_running: F,
) -> (r: Option<CommandError>)
    requires
        auto_registration(projection, target_os@, daemon_disabled) == Some(
            VirtualProjectionRegistration::LinuxFuse,
        ) ==> daemon_running.requires(()),
    ensures
        if auto_registration(projection, target_os@, daemon_disabled) == Some(
            VirtualProjectionRegistration::LinuxFuse,
        ) {
            match r {
                None => daemon_running.ensures((), true),
                Some(e) => asks_for_daemon(e) && daemon_running.ensures((), false),
            }
        } else {
            r is None
        },
{
    match auto_registration_for_mounted_projection(projection, target_os, daemon_disabled) {
        Some(VirtualProjectionRegistration::LinuxFuse) => if daemon_running() {
            None
        } else {
            Some(
                CommandError::new(
                    "mount",
                    "daemon_not_running",
                    "localityd is not running; start it with `loc daemon start` before mounting a Linux FUSE projection".to_string(),
                ).with_suggested_command("loc daemon start".to_string()),
            )
        },
        _ => None,
    }
}

} // verus!
