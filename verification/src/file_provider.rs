//! Virtual filesystem providers: identifiers, units, helper arguments and the
//! decisions around their lifecycle.
use vstd::prelude::*;

use crate::json;
use crate::json::Json;
use crate::model::MountConfig;
use crate::paths;
use crate::paths::{PathComponent, PathStyle};
use crate::quoting;
use crate::quoting::SafeSet;
use crate::text;

verus! {

/// Why the macOS helper could not do what it was asked to.
#[derive(Debug, PartialEq, Eq)]
pub enum FileProviderHelperError {
    Missing,
    Failed(String),
}

/// Whether the helper says that macOS does not offer the application.
pub open spec fn is_unavailable(message: Seq<char>) -> bool {
    text::contains_text(message, "The application cannot be used right now"@)
}

impl FileProviderHelperError {
    /// The code that names the failure.
    pub open spec fn code_text(self) -> Seq<char> {
        match self {
            FileProviderHelperError::Missing => "helper_missing"@,
            FileProviderHelperError::Failed(_) => "helper_failed"@,
        }
    }

    /// The code that names the failure.
    pub fn code(&self) -> (r: &'static str)
        ensures
            r@ == self.code_text(),
    {
        match self {
            FileProviderHelperError::Missing => "helper_missing",
            FileProviderHelperError::Failed(_) => "helper_failed",
        }
    }

    /// What the failure is, in words, with what to do about it where that is
    /// known.
    pub open spec fn message_text(self) -> Seq<char> {
        match self {
            FileProviderHelperError::Missing =>
            "locality-file-providerctl was not found; install Locality.app, or from a source checkout run `make install-macos-file-provider`"@,
            FileProviderHelperError::Failed(message) => if is_unavailable(message@) {
                text::stripped_end(message@, '.')
                    + ". The Locality macOS File Provider app or extension is not available to macOS. For local development, run `make install-macos-file-provider`, then reopen Locality and enable the File Provider if macOS asks."@
            } else {
                message@
            },
        }
    }

    /// What the failure is, in words.
    pub fn message(&self) -> (r: String)
        ensures
            r@ == self.message_text(),
    {
        match self {
            FileProviderHelperError::Missing =>
            "locality-file-providerctl was not found; install Locality.app, or from a source checkout run `make install-macos-file-provider`".to_string(),
            FileProviderHelperError::Failed(message) => {
                if macos_file_provider_application_unavailable(message) {
                    let mut out = text::string_of(
                        &text::strip_end(&text::chars_of(message), '.'),
                    );
                    out.append(
                        ". The Locality macOS File Provider app or extension is not available to macOS. For local development, run `make install-macos-file-provider`, then reopen Locality and enable the File Provider if macOS asks.",
                    );
                    out
                } else {
                    message.clone()
                }
            },
        }
    }
}

fn macos_file_provider_application_unavailable(message: &str) -> (r: bool)
    ensures
        r == is_unavailable(message@),
{
    text::contains(message, "The application cannot be used right now")
}

/// What registering a FUSE mount set up.
#[derive(Debug, PartialEq, Eq)]
pub struct LinuxFuseRegistrationReport {
    pub service: String,
    pub unit_path: String,
    pub mountpoint: String,
    pub locality_fuse: String,
}

/// Why a FUSE mount could not be registered.
#[derive(Debug, PartialEq, Eq)]
pub enum LinuxFuseRegistrationError {
    DaemonNotRunning,
    HelperMissing,
    EnvMissing(String),
    Io(String),
    SystemctlFailed(String),
    UnsupportedPlatform(String),
}

impl LinuxFuseRegistrationError {
    /// The code that names the failure.
    pub open spec fn code_text(self) -> Seq<char> {
        match self {
            LinuxFuseRegistrationError::DaemonNotRunning => "daemon_not_running"@,
            LinuxFuseRegistrationError::HelperMissing => "helper_missing"@,
            LinuxFuseRegistrationError::EnvMissing(_) => "env_missing"@,
            LinuxFuseRegistrationError::Io(_) => "io_error"@,
            LinuxFuseRegistrationError::SystemctlFailed(_) => "systemctl_failed"@,
            LinuxFuseRegistrationError::UnsupportedPlatform(_) => "unsupported_platform"@,
        }
    }

    /// The code that names the failure.
    pub fn code(&self) -> (r: &'static str)
        ensures
            r@ == self.code_text(),
    {
        match self {
            LinuxFuseRegistrationError::DaemonNotRunning => "daemon_not_running",
            LinuxFuseRegistrationError::HelperMissing => "helper_missing",
            LinuxFuseRegistrationError::EnvMissing(_) => "env_missing",
            LinuxFuseRegistrationError::Io(_) => "io_error",
            LinuxFuseRegistrationError::SystemctlFailed(_) => "systemctl_failed",
            LinuxFuseRegistrationError::UnsupportedPlatform(_) => "unsupported_platform",
        }
    }

    /// What the failure is, in words.
    pub open spec fn message_text(self) -> Seq<char> {
        match self {
            LinuxFuseRegistrationError::DaemonNotRunning =>
            "localityd is not running; start it with `loc daemon start` before registering the FUSE mount"@,
            LinuxFuseRegistrationError::HelperMissing =>
            "locality-fuse was not found; build or install the locality-fuse binary"@,
            LinuxFuseRegistrationError::EnvMissing(message) => message@,
            LinuxFuseRegistrationError::Io(message) => message@,
            LinuxFuseRegistrationError::SystemctlFailed(message) => message@,
            LinuxFuseRegistrationError::UnsupportedPlatform(message) => message@,
        }
    }

    /// What the failure is, in words.
    pub fn message(&self) -> (r: String)
        ensures
            r@ == self.message_text(),
    {
        match self {
            LinuxFuseRegistrationError::DaemonNotRunning =>
            "localityd is not running; start it with `loc daemon start` before registering the FUSE mount".to_string(),
            LinuxFuseRegistrationError::HelperMissing =>
            "locality-fuse was not found; build or install the locality-fuse binary".to_string(),
            LinuxFuseRegistrationError::EnvMissing(message) => message.clone(),
            LinuxFuseRegistrationError::Io(message) => message.clone(),
            LinuxFuseRegistrationError::SystemctlFailed(message) => message.clone(),
            LinuxFuseRegistrationError::UnsupportedPlatform(message) => message.clone(),
        }
    }
}

/// Why the Windows helper could not do what it was asked to.
#[derive(Debug, PartialEq, Eq)]
pub enum WindowsCloudFilesHelperError {
    DaemonNotRunning,
    Missing,
    Failed(String),
    UnsupportedPlatform(String),
}

impl WindowsCloudFilesHelperError {
    /// The code that names the failure.
    pub open spec fn code_text(self) -> Seq<char> {
        match self {
            WindowsCloudFilesHelperError::DaemonNotRunning => "daemon_not_running"@,
            WindowsCloudFilesHelperError::Missing => "helper_missing"@,
            WindowsCloudFilesHelperError::Failed(_) => "helper_failed"@,
            WindowsCloudFilesHelperError::UnsupportedPlatform(_) => "unsupported_platform"@,
        }
    }

    /// The code that names the failure.
    pub fn code(&self) -> (r: &'static str)
        ensures
            r@ == self.code_text(),
    {
        match self {
            WindowsCloudFilesHelperError::DaemonNotRunning => "daemon_not_running",
            WindowsCloudFilesHelperError::Missing => "helper_missing",
            WindowsCloudFilesHelperError::Failed(_) => "helper_failed",
            WindowsCloudFilesHelperError::UnsupportedPlatform(_) => "unsupported_platform",
        }
    }

    /// What the failure is, in words.
    pub open spec fn message_text(self) -> Seq<char> {
        match self {
            WindowsCloudFilesHelperError::DaemonNotRunning =>
            "localityd is not running; start it with `loc daemon start` before starting the Windows Cloud Files provider"@,
            WindowsCloudFilesHelperError::Missing =>
            "locality-cloud-files was not found; build or install the Windows Cloud Files helper"@,
            WindowsCloudFilesHelperError::Failed(message) => message@,
            WindowsCloudFilesHelperError::UnsupportedPlatform(message) => message@,
        }
    }

    /// What the failure is, in words.
    pub fn message(&self) -> (r: String)
        ensures
            r@ == self.message_text(),
    {
        match self {
            WindowsCloudFilesHelperError::DaemonNotRunning =>
            "localityd is not running; start it with `loc daemon start` before starting the Windows Cloud Files provider".to_string(),
            WindowsCloudFilesHelperError::Missing =>
            "locality-cloud-files was not found; build or install the Windows Cloud Files helper".to_string(),
            WindowsCloudFilesHelperError::Failed(message) => message.clone(),
            WindowsCloudFilesHelperError::UnsupportedPlatform(message) => message.clone(),
        }
    }
}

/// What to do with the Windows provider.
#[derive(Clone, Copy, Debug, PartialEq, Eq, Structural)]
pub enum WindowsCloudFilesLifecycleAction {
    Start,
    Stop,
    Status,
    Restart,
}

impl WindowsCloudFilesLifecycleAction {
    /// The name of the action.
    pub open spec fn name(self) -> Seq<char> {
        match self {
            WindowsCloudFilesLifecycleAction::Start => "start"@,
            WindowsCloudFilesLifecycleAction::Stop => "stop"@,
            WindowsCloudFilesLifecycleAction::Status => "status"@,
            WindowsCloudFilesLifecycleAction::Restart => "restart"@,
        }
    }

    /// The name of the action.
    pub fn as_str(self) -> (r: &'static str)
        ensures
            r@ == self.name(),
    {
        match self {
            WindowsCloudFilesLifecycleAction::Start => "start",
            WindowsCloudFilesLifecycleAction::Stop => "stop",
            WindowsCloudFilesLifecycleAction::Status => "status",
            WindowsCloudFilesLifecycleAction::Restart => "restart",
        }
    }
}

/// Each character of `value` that is safe in a name, and `_` for the others.
pub open spec fn sanitized(value: Seq<char>) -> Seq<char> {
    Seq::new(
        value.len(),
        |i: int|
            if SafeSet::Name.has_spec(value[i]) {
                value[i]
            } else {
                '_'
            },
    )
}

/// `value` with everything replaced that is not safe in a name.
pub fn sanitize_systemd_fragment(value: &str) -> (r: String)
    ensures
        r@ == sanitized(value@),
{
    let v = text::chars_of(value);
    let mut out = String::new();
    let mut i: usize = 0;
    while i < v.len()
        invariant
            i <= v.len(),
            v@ == value@,
            out@ == sanitized(value@).take(i as int),
        decreases v.len() - i,
    {
        out.push(
            if SafeSet::Name.has(v[i]) {
                v[i]
            } else {
                '_'
            },
        );
        i += 1;
    }
    out
}

/// The FNV-1a hash of bytes, 64 bits wide.
pub open spec fn fnv1a(bytes: Seq<u8>) -> u64
    decreases bytes.len(),
{
    if bytes.len() == 0 {
        0xcbf2_9ce4_8422_2325u64
    } else {
        (fnv1a(bytes.drop_last()) ^ bytes.last() as u64).wrapping_mul(0x0000_0100_0000_01b3u64)
    }
}

/// The hash of a text, the same on every run and machine.
pub fn stable_lifecycle_hash(value: &str) -> (r: u64)
    ensures
        r == fnv1a(vstd::utf8::encode_utf8(value@)),
{
    let bytes = value.as_bytes();
    let mut hash: u64 = 0xcbf2_9ce4_8422_2325;
    let mut i: usize = 0;
    assert(bytes@.take(0) == Seq::<u8>::empty());
    while i < bytes.len()
        invariant
            i <= bytes.len(),
            hash == fnv1a(bytes@.take(i as int)),
        decreases bytes.len() - i,
    {
        assert(bytes@.take(i + 1).drop_last() == bytes@.take(i as int));
        hash = (hash ^ bytes[i] as u64).wrapping_mul(0x0000_0100_0000_01b3);
        i += 1;
    }
    assert(bytes@.take(i as int) == bytes@);
    hash
}

/// The hash of a text in sixteen hexadecimal digits.
pub open spec fn hash_text(value: Seq<char>) -> Seq<char> {
    text::hex_digits(fnv1a(vstd::utf8::encode_utf8(value)) as nat, 16)
}

/// The hash of a text in sixteen hexadecimal digits.
pub fn stable_hex_hash(value: &str) -> (r: String)
    ensures
        r@ == hash_text(value@),
{
    let mut out = String::new();
    text::push_hex(&mut out, stable_lifecycle_hash(value), 16);
    assert(out@ =~= hash_text(value@));
    out
}

/// `value` sanitised, cut to `max` characters, without `_` at either end;
/// `root` where nothing is left.
pub open spec fn hint(value: Seq<char>, max: int) -> Seq<char> {
    let s = sanitized(value);
    let cut = s.take(if s.len() <= max {
        s.len() as int
    } else {
        max
    });
    let trimmed = text::stripped_end(text::stripped_front(cut, '_'), '_');
    if trimmed.len() == 0 {
        "root"@
    } else {
        trimmed
    }
}

/// A readable hint at `value` of at most `max_bytes` bytes, safe in a name.
pub fn bounded_systemd_hint(value: &str, max_bytes: usize) -> (r: String)
    ensures
        r@ == hint(value@, max_bytes as int),
{
    let v = text::chars_of(&sanitize_systemd_fragment(value));
    let to: usize = if v.len() <= max_bytes {
        v.len()
    } else {
        max_bytes
    };
    let cut = text::char_range(&v, 0, to);
    assert(v@.subrange(0, to as int) == v@.take(to as int));
    let trimmed = text::strip_end(&text::strip_front(&cut, '_'), '_');
    if trimmed.len() == 0 {
        "root".to_string()
    } else {
        text::string_of(&trimmed)
    }
}

/// The most that a root hint may take.
pub const LINUX_FUSE_ROOT_HINT_MAX_BYTES: usize = 48;

/// The identifier of a FUSE root: a readable hint at its path and the hash of
/// the path, so that paths with one hint have identifiers of their own.
pub open spec fn fuse_root_id(projection_root: Seq<char>) -> Seq<char> {
    "root-"@ + hint(projection_root, LINUX_FUSE_ROOT_HINT_MAX_BYTES as int) + "-"@ + hash_text(
        projection_root,
    )
}

/// The identifier of the FUSE root under which a mount is projected.
pub fn linux_fuse_root_id(mount: &MountConfig) -> (r: String)
    ensures
        r@ == fuse_root_id(mount.projection_root@),
{
    let hint = bounded_systemd_hint(&mount.projection_root, LINUX_FUSE_ROOT_HINT_MAX_BYTES);
    let mut out = text::concat3("root-", &hint, "-");
    out.append(&stable_hex_hash(&mount.projection_root));
    out
}

/// The name of the unit for an identifier.
pub open spec fn fuse_unit_name(id: Seq<char>) -> Seq<char> {
    "ai.codeflash.locality.fuse."@ + sanitized(id) + ".service"@
}

/// The name of the unit for an identifier.
pub fn linux_fuse_unit_name(mount_id: &str) -> (r: String)
    ensures
        r@ == fuse_unit_name(mount_id@),
{
    text::concat3("ai.codeflash.locality.fuse.", &sanitize_systemd_fragment(mount_id), ".service")
}

/// Where the unit of a user stands.
pub fn linux_fuse_unit_path(style: PathStyle, home: &Option<String>, unit_name: &str) -> (r: Result<
    String,
    LinuxFuseRegistrationError,
>)
    ensures
        match home {
            Some(home) => r matches Ok(p) && p@ == paths::joined(
                style,
                paths::joined(style, home@, ".config/systemd/user"@),
                unit_name@,
            ),
            None => r matches Err(LinuxFuseRegistrationError::EnvMissing(m)) && m@
                == "HOME is not set"@,
        },
{
    match home {
        Some(home) => Ok(
            paths::join(style, &paths::join(style, home, ".config/systemd/user"), unit_name),
        ),
        None => Err(LinuxFuseRegistrationError::EnvMissing("HOME is not set".to_string())),
    }
}

/// `value` as a word of a unit.
pub open spec fn unit_word(value: Seq<char>) -> Seq<char> {
    quoting::double_quoted(SafeSet::PathWord, quoting::Expansion::Systemd, value)
}

/// The unit that runs the FUSE helper on a shared root.
pub open spec fn fuse_unit(
    locality_fuse: Seq<char>,
    state_root: Seq<char>,
    projection_root: Seq<char>,
    log_path: Seq<char>,
) -> Seq<char> {
    "[Unit]\nDescription=Locality FUSE root for "@ + unit_word(projection_root)
        + "\nAfter=default.target\n\n[Service]\nType=simple\nExecStart="@ + unit_word(locality_fuse)
        + " --state-dir "@ + unit_word(state_root) + " --mountpoint "@ + unit_word(projection_root)
        + "\nExecStop=/usr/bin/fusermount3 -uz "@ + unit_word(projection_root)
        + "\nKillSignal=SIGINT\nTimeoutStopSec=10\nLimitCORE=0\nRestart=on-failure\nRestartSec=2\nStandardOutput=append:"@
        + log_path + "\nStandardError=append:"@ + log_path
        + "\n\n[Install]\nWantedBy=default.target\n"@
}

/// The unit that runs the FUSE helper on the shared root of a mount.
pub fn linux_fuse_unit_contents(
    locality_fuse: &str,
    state_root: &str,
    mount: &MountConfig,
    log_path: &str,
) -> (r: String)
    ensures
        r@ == fuse_unit(locality_fuse@, state_root@, mount.projection_root@, log_path@),
{
    let mountpoint = quoting::systemd_quote(&mount.projection_root);
    let mut out = text::concat3(
        "[Unit]\nDescription=Locality FUSE root for ",
        &mountpoint,
        "\nAfter=default.target\n\n[Service]\nType=simple\nExecStart=",
    );
    out.append(&quoting::systemd_quote(locality_fuse));
    out.append(" --state-dir ");
    out.append(&quoting::systemd_quote(state_root));
    out.append(" --mountpoint ");
    out.append(&mountpoint);
    out.append("\nExecStop=/usr/bin/fusermount3 -uz ");
    out.append(&mountpoint);
    out.append(
        "\nKillSignal=SIGINT\nTimeoutStopSec=10\nLimitCORE=0\nRestart=on-failure\nRestartSec=2\nStandardOutput=append:",
    );
    out.append(log_path);
    out.append("\nStandardError=append:");
    out.append(log_path);
    out.append("\n\n[Install]\nWantedBy=default.target\n");
    out
}

/// All that registering a FUSE mount writes and runs.
#[derive(Debug, PartialEq, Eq)]
pub struct LinuxFuseRegistration {
    /// Directories to create, in order.
    pub directories: Vec<String>,
    /// The unit to write at `report.unit_path`.
    pub unit: String,
    /// What to report once the unit is reloaded, enabled and restarted.
    pub report: LinuxFuseRegistrationReport,
}

/// Where the log of a FUSE root stands.
pub open spec fn fuse_log_path(
    style: PathStyle,
    state_root: Seq<char>,
    root_id: Seq<char>,
) -> Seq<char> {
    paths::joined(
        style,
        paths::joined(style, state_root, "logs"@),
        "locality-fuse."@ + root_id + ".log"@,
    )
}

/// The directory that holds a unit.
pub open spec fn unit_directory(style: PathStyle, unit_path: Seq<char>) -> Seq<char> {
    match paths::parent_of(style, unit_path) {
        Some(parent) => parent,
        None => "."@,
    }
}

/// Whether `r` is what registering a FUSE mount writes and runs.
pub open spec fn is_fuse_registration(
    style: PathStyle,
    locality_fuse: String,
    home: Seq<char>,
    state_root: Seq<char>,
    mount: MountConfig,
    r: LinuxFuseRegistration,
) -> bool {
    let root_id = fuse_root_id(mount.projection_root@);
    let service = fuse_unit_name(root_id);
    let unit_path = paths::joined(
        style,
        paths::joined(style, home, ".config/systemd/user"@),
        service,
    );
    &&& r.report.service@ == service
    &&& r.report.unit_path@ == unit_path
    &&& r.report.mountpoint == mount.projection_root
    &&& r.report.locality_fuse == locality_fuse
    &&& r.unit@ == fuse_unit(
        locality_fuse@,
        state_root,
        mount.projection_root@,
        fuse_log_path(style, state_root, root_id),
    )
    &&& text::texts(r.directories@) == seq![
        unit_directory(style, unit_path),
        paths::joined(style, state_root, "logs"@),
        mount.projection_root@,
    ]
}

/// What registering a FUSE mount writes and runs, or why it cannot be
/// registered: only Linux has such mounts, the daemon has to run, the helper
/// and the home directory have to be there, in this order.
pub fn register_linux_fuse_mount(
    style: PathStyle,
    on_linux: bool,
    daemon_running: bool,
    locality_fuse: Option<String>,
    home: &Option<String>,
    state_root: &str,
    mount: &MountConfig,
) -> (r: Result<LinuxFuseRegistration, LinuxFuseRegistrationError>)
    ensures
        if !on_linux {
            r matches Err(LinuxFuseRegistrationError::UnsupportedPlatform(m)) && m@
                == "linux_fuse registration is only supported on Linux; mount `"@ + mount.mount_id@
                + "` cannot be registered here"@
        } else if !daemon_running {
            r == Err::<LinuxFuseRegistration, _>(LinuxFuseRegistrationError::DaemonNotRunning)
        } else {
            match (locality_fuse, home) {
                (None, _) => r == Err::<LinuxFuseRegistration, _>(
                    LinuxFuseRegistrationError::HelperMissing,
                ),
                (Some(_), None) => r matches Err(LinuxFuseRegistrationError::EnvMissing(m)) && m@
                    == "HOME is not set"@,
                (Some(fuse), Some(home)) => r matches Ok(done) && is_fuse_registration(
                    style,
                    fuse,
                    home@,
                    state_root@,
                    *mount,
                    done,
                ),
            }
        },
{
    if !on_linux {
        return Err(
            LinuxFuseRegistrationError::UnsupportedPlatform(
                text::concat3(
                    "linux_fuse registration is only supported on Linux; mount `",
                    &mount.mount_id,
                    "` cannot be registered here",
                ),
            ),
        );
    }
    if !daemon_running {
        return Err(LinuxFuseRegistrationError::DaemonNotRunning);
    }
    let locality_fuse = match locality_fuse {
        Some(path) => path,
        None => {
            return Err(LinuxFuseRegistrationError::HelperMissing);
        },
    };
    let root_id = linux_fuse_root_id(mount);
    let service = linux_fuse_unit_name(&root_id);
    let unit_path = match linux_fuse_unit_path(style, home, &service) {
        Ok(path) => path,
        Err(error) => {
            return Err(error);
        },
    };
    let logs = paths::join(style, state_root, "logs");
    let log_path = paths::join(style, &logs, &text::concat3("locality-fuse.", &root_id, ".log"));
    let unit = linux_fuse_unit_contents(&locality_fuse, state_root, mount, &log_path);
    let unit_dir = match paths::parent(style, &unit_path) {
        Some(parent) => parent,
        None => ".".to_string(),
    };
    let mut directories: Vec<String> = Vec::new();
    directories.push(unit_dir);
    directories.push(logs);
    directories.push(mount.projection_root.clone());
    assert(text::texts(directories@) =~= seq![
        unit_directory(style, unit_path@),
        paths::joined(style, state_root@, "logs"@),
        mount.projection_root@,
    ]);
    Ok(
        LinuxFuseRegistration {
            directories,
            unit,
            report: LinuxFuseRegistrationReport {
                service,
                unit_path,
                mountpoint: mount.projection_root.clone(),
                locality_fuse,
            },
        },
    )
}

/// What a failed program said: its error output, or else its output, or else
/// how it exited.
pub open spec fn failure_words(
    program: Seq<char>,
    stderr: Seq<char>,
    stdout: Seq<char>,
    status: Seq<char>,
) -> Seq<char> {
    let said = if text::trimmed(stderr).len() > 0 {
        text::trimmed(stderr)
    } else {
        text::trimmed(stdout)
    };
    if said.len() > 0 {
        said
    } else {
        program + " exited with "@ + status
    }
}

/// What a failed program said.
pub fn process_failure_message(program: &str, stderr: &str, stdout: &str, status: &str) -> (r:
    String)
    ensures
        r@ == failure_words(program@, stderr@, stdout@, status@),
{
    let from_stderr = text::trim(stderr);
    if !from_stderr.as_str().is_empty() {
        return from_stderr;
    }
    let from_stdout = text::trim(stdout);
    if !from_stdout.as_str().is_empty() {
        return from_stdout;
    }
    text::concat3(program, " exited with ", status)
}

/// What is told of a helper that failed: its own message, what it wrote to its
/// errors, or how it ended.
pub open spec fn failure_told(
    program: Seq<char>,
    message: Option<Seq<char>>,
    stderr: Seq<char>,
    status: Seq<char>,
) -> Seq<char> {
    match message {
        Some(message) if message.len() > 0 => message,
        _ => if text::trimmed(stderr).len() > 0 {
            text::trimmed(stderr)
        } else {
            program + " exited with "@ + status
        },
    }
}

/// Tells of a helper that failed.
pub fn tell_failure(program: &str, message: Option<&str>, stderr: &str, status: &str) -> (r: String)
    ensures
        r@ == failure_told(program@, text::opt_str(message), stderr@, status@),
{
    if let Some(message) = message {
        if !message.is_empty() {
            return message.to_string();
        }
    }
    let from_stderr = text::trim(stderr);
    if !from_stderr.as_str().is_empty() {
        return from_stderr;
    }
    text::concat3(program, " exited with ", status)
}

/// How a helper ended that wrote `stdout` and `stderr`: well, or with what is
/// told of its failure. Its own message stands in what it wrote, if that is JSON.
pub fn helper_outcome(
    program: &str,
    succeeded: bool,
    stdout: &str,
    stderr: &str,
    status: &str,
) -> (r: Result<(), String>)
    ensures
        r is Ok <==> succeeded,
        r matches Err(why) ==> why@ == failure_told(
            program@,
            json::text_in(text::trimmed(stdout@), "message"@),
            stderr@,
            status@,
        ),
{
    if succeeded {
        return Ok(());
    }
    let message = json::read_text(&text::trim(stdout), "message");
    Err(tell_failure(program, text::as_str_option(&message), stderr, status))
}

/// A place where a helper may be.
#[derive(Debug, PartialEq, Eq)]
pub struct Candidate {
    pub path: String,
    pub exists: bool,
}

/// The first candidate that is there.
pub open spec fn first_existing(candidates: Seq<Candidate>) -> Option<String>
    decreases candidates.len(),
{
    if candidates.len() == 0 {
        None
    } else if candidates[0].exists {
        Some(candidates[0].path)
    } else {
        first_existing(candidates.skip(1))
    }
}

/// The first candidate that is there.
pub fn find_existing(candidates: &Vec<Candidate>) -> (r: Option<String>)
    ensures
        r == first_existing(candidates@),
{
    let mut i: usize = 0;
    assert(candidates@.skip(0) == candidates@);
    while i < candidates.len()
        invariant
            i <= candidates.len(),
            first_existing(candidates@) == first_existing(candidates@.skip(i as int)),
        decreases candidates.len() - i,
    {
        if candidates[i].exists {
            return Some(candidates[i].path.clone());
        }
        assert(candidates@.skip(i as int).skip(1) == candidates@.skip(i + 1));
        i += 1;
    }
    None
}

/// Where a helper was looked for: where the environment says, at the usual
/// places, and in the directories of the search path.
#[derive(Debug, PartialEq, Eq)]
pub struct HelperSearch {
    pub named: Option<Candidate>,
    pub usual: Vec<Candidate>,
    pub on_path: Vec<Candidate>,
}

/// The helper that was found.
pub open spec fn found_helper(search: HelperSearch) -> Option<String> {
    match search.named {
        Some(named) if named.exists => Some(named.path),
        _ => match first_existing(search.usual@) {
            Some(path) => Some(path),
            None => first_existing(search.on_path@),
        },
    }
}

/// The helper that was found.
pub fn find_helper(search: &HelperSearch) -> (r: Option<String>)
    ensures
        r == found_helper(*search),
{
    if let Some(named) = &search.named {
        if named.exists {
            return Some(named.path.clone());
        }
    }
    match find_existing(&search.usual) {
        Some(path) => Some(path),
        None => find_existing(&search.on_path),
    }
}

/// The Windows helper; only Windows has one.
pub fn windows_cloud_files_helper_path(on_windows: bool, search: &HelperSearch) -> (r: Option<
    String,
>)
    ensures
        r == (if on_windows {
            found_helper(*search)
        } else {
            None
        }),
{
    if on_windows {
        find_helper(search)
    } else {
        None
    }
}

/// The FUSE helper; only Linux has one.
pub fn locality_fuse_helper_path(on_linux: bool, search: &HelperSearch) -> (r: Option<String>)
    ensures
        r == (if on_linux {
            found_helper(*search)
        } else {
            None
        }),
{
    if on_linux {
        find_helper(search)
    } else {
        None
    }
}

/// The usual places of a helper: beside the running program, and among what a
/// source checkout builds.
pub open spec fn usual_places(
    style: PathStyle,
    name: Seq<char>,
    program_directory: Option<Seq<char>>,
    workspace: Seq<char>,
) -> Seq<Seq<char>> {
    (match program_directory {
        Some(d) => seq![paths::joined(style, d, name)],
        None => Seq::empty(),
    }) + seq![
        paths::joined(style, paths::joined(style, workspace, "target/debug"@), name),
        paths::joined(style, paths::joined(style, workspace, "target/release"@), name),
    ]
}

/// The usual places of a helper.
pub fn usual_helper_places(
    style: PathStyle,
    name: &str,
    program_directory: &Option<String>,
    workspace: &str,
) -> (r:
    Vec<String>)
    ensures
        text::texts(r@) == usual_places(
            style,
            name@,
            text::opt_text(*program_directory),
            workspace@,
        ),
{
    let mut places: Vec<String> = Vec::new();
    if let Some(directory) = program_directory {
        places.push(paths::join(style, directory, name));
    }
    let ghost before = text::texts(places@);
    places.push(paths::join(style, &paths::join(style, workspace, "target/debug"), name));
    places.push(paths::join(style, &paths::join(style, workspace, "target/release"), name));
    assert(text::texts(places@) =~= usual_places(
        style,
        name@,
        text::opt_text(*program_directory),
        workspace@,
    ));
    places
}

/// The macOS helper inside the application bundle, below a directory that holds
/// applications.
pub open spec fn bundled_macos_helper() -> Seq<char> {
    "Applications/Locality.app/Contents/MacOS/locality-file-providerctl"@
}

/// The places of the macOS helper, in the order in which they are tried: the
/// one that is named, beside the running program, the installed applications of
/// the machine and of the user, and what the package builds.
pub open spec fn macos_places(
    style: PathStyle,
    named: Option<Seq<char>>,
    program_directory: Option<Seq<char>>,
    home: Option<Seq<char>>,
    package: Seq<char>,
) -> Seq<Seq<char>> {
    (match named {
        Some(place) => seq![place],
        None => Seq::empty(),
    }) + (match program_directory {
        Some(directory) => seq![paths::joined(style, directory, "locality-file-providerctl"@)],
        None => Seq::empty(),
    }) + seq!["/Applications/Locality.app/Contents/MacOS/locality-file-providerctl"@] + (
    match home {
        Some(directory) => seq![paths::joined(style, directory, bundled_macos_helper())],
        None => Seq::empty(),
    }) + seq![
        paths::joined(
            style,
            package,
            ".build/dev-bundle/Locality.app/Contents/MacOS/locality-file-providerctl"@,
        ),
        paths::joined(style, package, ".build/debug/locality-file-providerctl"@),
        paths::joined(style, package, ".build/release/locality-file-providerctl"@),
    ]
}

/// The places of the macOS helper, in the order in which they are tried.
pub fn macos_helper_places(
    style: PathStyle,
    named: &Option<String>,
    program_directory: &Option<String>,
    home: &Option<String>,
    package: &str,
) -> (r: Vec<String>)
    ensures
        text::texts(r@) == macos_places(
            style,
            text::opt_text(*named),
            text::opt_text(*program_directory),
            text::opt_text(*home),
            package@,
        ),
{
    let mut places: Vec<String> = Vec::new();
    if let Some(place) = named {
        text::push_text(&mut places, place);
    }
    let ghost first = match text::opt_text(*named) {
        Some(place) => seq![place],
        None => Seq::empty(),
    };
    assert(text::texts(places@) =~= first);
    if let Some(directory) = program_directory {
        text::push_text(
            &mut places,
            &paths::join(style, directory, "locality-file-providerctl"),
        );
    }
    let ghost beside = match text::opt_text(*program_directory) {
        Some(directory) => seq![paths::joined(style, directory, "locality-file-providerctl"@)],
        None => Seq::empty(),
    };
    assert(text::texts(places@) =~= first + beside);
    text::push_text(
        &mut places,
        "/Applications/Locality.app/Contents/MacOS/locality-file-providerctl",
    );
    let ghost installed = first + beside + seq![
        "/Applications/Locality.app/Contents/MacOS/locality-file-providerctl"@,
    ];
    assert(text::texts(places@) =~= installed);
    if let Some(directory) = home {
        let place = paths::join(
            style,
            directory,
            "Applications/Locality.app/Contents/MacOS/locality-file-providerctl",
        );
        text::push_text(&mut places, &place);
    }
    let ghost own = match text::opt_text(*home) {
        Some(directory) => seq![paths::joined(style, directory, bundled_macos_helper())],
        None => Seq::empty(),
    };
    assert(text::texts(places@) =~= installed + own);
    let bundle = paths::join(
        style,
        package,
        ".build/dev-bundle/Locality.app/Contents/MacOS/locality-file-providerctl",
    );
    text::push_text(&mut places, &bundle);
    text::push_text(
        &mut places,
        &paths::join(style, package, ".build/debug/locality-file-providerctl"),
    );
    text::push_text(
        &mut places,
        &paths::join(style, package, ".build/release/locality-file-providerctl"),
    );
    assert(text::texts(places@) =~= macos_places(
        style,
        text::opt_text(*named),
        text::opt_text(*program_directory),
        text::opt_text(*home),
        package@,
    ));
    places
}

/// Where the macOS helper is: the first of its places that is there.
pub fn macos_file_provider_helper_path(places: &Vec<Candidate>) -> (r: Option<String>)
    ensures
        r == first_existing(places@),
{
    find_existing(places)
}

/// What a helper answered: the JSON that it wrote, or else its words.
pub fn helper_answer(parsed: Option<Json>, written: &str) -> (r: Json)
    ensures
        match parsed {
            Some(value) => r == value,
            None => r matches Json::Text(words) && words@ == text::trimmed(written@),
        },
{
    match parsed {
        Some(value) => value,
        None => Json::Text(text::trim(written)),
    }
}

/// The CloudStorage location that the macOS helper reports.
pub fn macos_file_provider_domain_url(helper_report: &Json) -> (r: Result<
    String,
    FileProviderHelperError,
>)
    ensures
        match helper_report.text_at("url"@) {
            Some(url) if url.len() > 0 => r matches Ok(u) && u@ == url,
            _ => r matches Err(FileProviderHelperError::Failed(m)) && m@
                == "locality-file-providerctl did not return a CloudStorage URL"@,
        },
{
    if let Some(url) = helper_report.get_text("url") {
        if !url.is_empty() {
            return Ok(url.to_string());
        }
    }
    Err(
        FileProviderHelperError::Failed(
            "locality-file-providerctl did not return a CloudStorage URL".to_string(),
        ),
    )
}

/// `name` without the prefix of the provider's directories, unless that is all
/// of it.
pub open spec fn without_provider_prefix(name: Seq<char>) -> Seq<char> {
    let prefix = "Locality-"@;
    if text::begins_with(name, prefix) && name.len() > prefix.len() {
        name.skip(prefix.len() as int)
    } else {
        name
    }
}

/// `name` without the prefix of the provider's directories.
pub fn strip_file_provider_directory_prefix(name: &str) -> (r: String)
    ensures
        r@ == without_provider_prefix(name@),
{
    let v = text::chars_of(name);
    let p = text::chars_of("Locality-");
    if text::matches_at(&v, &p, 0) && v.len() > p.len() {
        let r = text::string_of_range(&v, p.len(), v.len());
        assert(r@ =~= name@.skip(p.len() as int));
        r
    } else {
        name.to_string()
    }
}

/// The components of the domain that a path lies in: the directory right below
/// `CloudStorage` where the path lies one below that, else the path itself.
pub open spec fn domain_components(style: PathStyle, root: Seq<char>) -> Seq<paths::Component> {
    let c = paths::components(style, root);
    if c.len() >= 3 && paths::last_name(c.take(c.len() - 2)) == Some("CloudStorage"@) && !(c.last()
        is Root) {
        c.drop_last()
    } else {
        c
    }
}

/// The display name of the domain at `root`; empty for the shared domain, and
/// `fallback` where the path has no name.
pub open spec fn display_name(style: PathStyle, root: Seq<char>, fallback: Seq<char>) -> Seq<char> {
    match paths::last_name(domain_components(style, root)) {
        None => fallback,
        Some(name) => if name == "Locality"@ {
            Seq::empty()
        } else {
            without_provider_prefix(name)
        },
    }
}

fn last_normal(c: &Vec<PathComponent>, n: usize) -> (r: Option<&str>)
    requires
        n <= c.len(),
    ensures
        text::opt_str(r) == paths::last_name(paths::views(c@).take(n as int)),
{
    if n == 0 {
        return None;
    }
    assert(paths::views(c@).take(n as int).last() == c@[n - 1]@);
    match &c[n - 1] {
        PathComponent::Normal(name) => Some(name.as_str()),
        _ => None,
    }
}

/// The display name of the domain at `root`.
pub fn macos_file_provider_display_name(style: PathStyle, root: &str, fallback: &str) -> (r: String)
    ensures
        r@ == display_name(style, root@, fallback@),
{
    let c = paths::components_of(style, root);
    let ghost all = paths::views(c@);
    assert(all.take(all.len() as int) == all);
    let mut n: usize = c.len();
    if c.len() >= 3 {
        let in_storage = match last_normal(&c, c.len() - 2) {
            Some(name) => text::same_text(name, "CloudStorage"),
            None => false,
        };
        let is_root = match &c[c.len() - 1] {
            PathComponent::Root => true,
            _ => false,
        };
        assert(all.last() == c@[c@.len() - 1]@);
        if in_storage && !is_root {
            n = c.len() - 1;
            assert(all.take(n as int) == all.drop_last());
        }
    }
    assert(all.take(n as int) == domain_components(style, root@));
    match last_normal(&c, n) {
        None => fallback.to_string(),
        Some(name) => {
            if text::same_text(name, "Locality") {
                return String::new();
            }
            strip_file_provider_directory_prefix(name)
        },
    }
}

/// The arguments that have the macOS helper register a domain.
pub fn register_macos_args(mount_id: &str, display_name: &str) -> (r: Vec<String>)
    ensures
        text::texts(r@) == seq!["--mount-id"@, mount_id@, "--display-name"@, display_name@],
{
    let mut args: Vec<String> = Vec::new();
    args.push("--mount-id".to_string());
    args.push(mount_id.to_string());
    args.push("--display-name".to_string());
    args.push(display_name.to_string());
    assert(text::texts(args@) =~= seq![
        "--mount-id"@,
        mount_id@,
        "--display-name"@,
        display_name@,
    ]);
    args
}

proof fn lemma_stripped_shorter(s: Seq<char>, c: char)
    ensures
        text::stripped_front(s, c).len() <= s.len(),
        text::stripped_end(s, c).len() <= s.len(),
    decreases s.len(),
{
    if s.len() > 0 {
        lemma_stripped_shorter(s.skip(1), c);
        lemma_stripped_shorter(s.drop_last(), c);
    }
}

proof fn lemma_hex_digits_len(n: nat, width: nat)
    ensures
        text::hex_digits(n, width).len() == width,
    decreases width,
{
    if width > 0 {
        lemma_hex_digits_len(n / 16, (width - 1) as nat);
    }
}

proof fn lemma_stripped_subset(s: Seq<char>, c: char)
    requires
        SafeSet::Name.covers_spec(s),
    ensures
        SafeSet::Name.covers_spec(text::stripped_front(s, c)),
        SafeSet::Name.covers_spec(text::stripped_end(s, c)),
    decreases s.len(),
{
    if s.len() > 0 {
        assert forall|i: int| 0 <= i < s.skip(1).len() implies SafeSet::Name.has_spec(
            #[trigger] s.skip(1)[i],
        ) by {
            assert(SafeSet::Name.has_spec(s[i + 1]));
        }
        assert forall|i: int| 0 <= i < s.drop_last().len() implies SafeSet::Name.has_spec(
            #[trigger] s.drop_last()[i],
        ) by {
            assert(SafeSet::Name.has_spec(s[i]));
        }
        lemma_stripped_subset(s.skip(1), c);
        lemma_stripped_subset(s.drop_last(), c);
    }
}

proof fn lemma_hex_digits_safe(n: nat, width: nat)
    ensures
        SafeSet::Name.covers_spec(text::hex_digits(n, width)),
    decreases width,
{
    if width > 0 {
        lemma_hex_digits_safe(n / 16, (width - 1) as nat);
    }
}

/// A FUSE root identifier is at most 80 bytes long, holds nothing but letters,
/// digits, `-`, `_` and `.`, and so stands unchanged in the unit's name.
pub proof fn law_fuse_root_id_is_a_bounded_name(projection_root: Seq<char>)
    ensures
        vstd::utf8::encode_utf8(fuse_root_id(projection_root)).len() <= 80,
        SafeSet::Name.covers_spec(fuse_root_id(projection_root)),
        fuse_unit_name(fuse_root_id(projection_root)) == "ai.codeflash.locality.fuse."@
            + fuse_root_id(projection_root) + ".service"@,
{
    let id = fuse_root_id(projection_root);
    let h = hint(projection_root, LINUX_FUSE_ROOT_HINT_MAX_BYTES as int);
    let s = sanitized(projection_root);
    let cut = s.take(if s.len() <= LINUX_FUSE_ROOT_HINT_MAX_BYTES {
        s.len() as int
    } else {
        LINUX_FUSE_ROOT_HINT_MAX_BYTES as int
    });
    reveal_strlit("root-");
    reveal_strlit("-");
    reveal_strlit("root");
    assert(SafeSet::Name.covers_spec(cut));
    lemma_stripped_shorter(cut, '_');
    lemma_stripped_shorter(text::stripped_front(cut, '_'), '_');
    lemma_stripped_subset(cut, '_');
    lemma_stripped_subset(text::stripped_front(cut, '_'), '_');
    let n = fnv1a(vstd::utf8::encode_utf8(projection_root)) as nat;
    lemma_hex_digits_len(n, 16);
    lemma_hex_digits_safe(n, 16);
    assert(h.len() <= 48);
    assert(SafeSet::Name.covers_spec(h));
    assert(id.len() <= 80);
    let hash = text::hex_digits(n, 16);
    assert forall|i: int| 0 <= i < id.len() implies SafeSet::Name.has_spec(#[trigger] id[i]) by {
        if i < 5 {
            assert(id[i] == "root-"@[i]);
        } else if i < 5 + h.len() {
            assert(id[i] == h[i - 5]);
        } else if i == 5 + h.len() {
            assert(id[i] == '-');
        } else {
            assert(id[i] == hash[i - 6 - h.len()]);
        }
    }
    assert(sanitized(id) =~= id);
    assert(vstd::utf8::is_ascii_chars(id)) by {
        assert forall|i: int| 0 <= i < id.len() implies 0 <= (#[trigger] id[i]) as nat && (id[i] as nat) < 128 by {
            assert(SafeSet::Name.has_spec(id[i]));
        }
    }
    vstd::utf8::is_ascii_chars_encode_utf8(id);
}

} // verus!
