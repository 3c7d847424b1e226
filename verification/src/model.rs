//! Records of the local state store that the commands read.
use vstd::prelude::*;

use crate::diff::EntityKind;
use crate::text;

verus! {

/// How a mount shows its content in the local filesystem.
#[derive(Clone, Copy, Debug, PartialEq, Eq, Structural)]
pub enum ProjectionMode {
    PlainFiles,
    MacosFileProvider,
    LinuxFuse,
    WindowsCloudFiles,
}

impl ProjectionMode {
    /// Whether a virtual filesystem shows the content.
    #[verifier::allow_in_spec]
    pub fn uses_virtual_filesystem(self) -> (r: bool)
        returns
            self != ProjectionMode::PlainFiles,
    {
        self != ProjectionMode::PlainFiles
    }

    /// The name of the mode in stored records.
    pub open spec fn name(self) -> Seq<char> {
        match self {
            ProjectionMode::PlainFiles => "plain_files"@,
            ProjectionMode::MacosFileProvider => "macos_file_provider"@,
            ProjectionMode::LinuxFuse => "linux_fuse"@,
            ProjectionMode::WindowsCloudFiles => "windows_cloud_files"@,
        }
    }

    /// The name of the mode in stored records.
    pub fn as_str(self) -> (r: &'static str)
        ensures
            r@ == self.name(),
    {
        match self {
            ProjectionMode::PlainFiles => "plain_files",
            ProjectionMode::MacosFileProvider => "macos_file_provider",
            ProjectionMode::LinuxFuse => "linux_fuse",
            ProjectionMode::WindowsCloudFiles => "windows_cloud_files",
        }
    }
}

/// A mount, with what the virtual filesystem says of it: the shared root under
/// which it is projected, and every root under which its files can be seen.
#[derive(Debug, PartialEq, Eq)]
pub struct MountConfig {
    pub mount_id: String,
    pub connector: String,
    pub root: String,
    pub projection: ProjectionMode,
    pub connection_id: Option<String>,
    pub remote_root_id: Option<String>,
    pub read_only: bool,
    pub projection_root: String,
    pub access_roots: Vec<String>,
}

impl MountConfig {
    /// Whether all fields hold the same.
    pub open spec fn same_as(self, other: MountConfig) -> bool {
        &&& self.mount_id == other.mount_id
        &&& self.connector == other.connector
        &&& self.root == other.root
        &&& self.projection == other.projection
        &&& self.connection_id == other.connection_id
        &&& self.remote_root_id == other.remote_root_id
        &&& self.read_only == other.read_only
        &&& self.projection_root == other.projection_root
        &&& self.access_roots@ == other.access_roots@
    }

    /// A copy of the mount.
    pub fn duplicate(&self) -> (r: MountConfig)
        ensures
            r.same_as(*self),
    {
        MountConfig {
            mount_id: self.mount_id.clone(),
            connector: self.connector.clone(),
            root: self.root.clone(),
            projection: self.projection,
            connection_id: text::clone_option(&self.connection_id),
            remote_root_id: text::clone_option(&self.remote_root_id),
            read_only: self.read_only,
            projection_root: self.projection_root.clone(),
            access_roots: text::clone_strings(&self.access_roots),
        }
    }

    /// A mount of `connector` at `root`, with plain files and nothing else set.
    pub fn new(mount_id: &str, connector: &str, root: &str) -> (r: MountConfig)
        ensures
            r.mount_id@ == mount_id@,
            r.connector@ == connector@,
            r.root@ == root@,
            r.projection == ProjectionMode::PlainFiles,
            r.connection_id is None,
            r.remote_root_id is None,
            !r.read_only,
            r.projection_root@.len() == 0,
            r.access_roots@.len() == 0,
    {
        MountConfig {
            mount_id: mount_id.to_string(),
            connector: connector.to_string(),
            root: root.to_string(),
            projection: ProjectionMode::PlainFiles,
            connection_id: None,
            remote_root_id: None,
            read_only: false,
            projection_root: String::new(),
            access_roots: Vec::new(),
        }
    }

    /// The mount with another projection.
    pub fn projection(self, projection: ProjectionMode) -> (r: MountConfig)
        ensures
            r == (MountConfig { projection, ..self }),
    {
        MountConfig { projection, ..self }
    }
}

/// Whether two kinds are the same.
pub open spec fn same_kind(a: EntityKind, b: EntityKind) -> bool {
    match (a, b) {
        (EntityKind::Page, EntityKind::Page) => true,
        (EntityKind::Database, EntityKind::Database) => true,
        (EntityKind::Directory, EntityKind::Directory) => true,
        (EntityKind::Asset, EntityKind::Asset) => true,
        (EntityKind::Unknown(x), EntityKind::Unknown(y)) => x@ == y@,
        _ => false,
    }
}

/// Whether two kinds are the same.
pub fn kinds_match(a: &EntityKind, b: &EntityKind) -> (r: bool)
    ensures
        r == same_kind(*a, *b),
{
    match (a, b) {
        (EntityKind::Page, EntityKind::Page) => true,
        (EntityKind::Database, EntityKind::Database) => true,
        (EntityKind::Directory, EntityKind::Directory) => true,
        (EntityKind::Asset, EntityKind::Asset) => true,
        (EntityKind::Unknown(x), EntityKind::Unknown(y)) => text::same_text(x, y),
        _ => false,
    }
}

/// A copy of a kind.
pub fn clone_kind(kind: &EntityKind) -> (r: EntityKind)
    ensures
        r == *kind,
{
    match kind {
        EntityKind::Page => EntityKind::Page,
        EntityKind::Database => EntityKind::Database,
        EntityKind::Directory => EntityKind::Directory,
        EntityKind::Asset => EntityKind::Asset,
        EntityKind::Unknown(name) => EntityKind::Unknown(name.clone()),
    }
}

/// How far the content of an entity has been fetched.
#[derive(Clone, Copy, Debug, PartialEq, Eq, Structural)]
pub enum HydrationState {
    Stub,
    Hydrated,
    Dirty,
    Conflicted,
}

/// An entity as the store indexes it.
#[derive(Debug, PartialEq, Eq)]
pub struct EntityRecord {
    pub mount_id: String,
    pub remote_id: String,
    pub kind: EntityKind,
    pub title: String,
    pub path: String,
    pub hydration: HydrationState,
    pub content_hash: Option<String>,
    pub remote_edited_at: Option<String>,
    pub synced_remote_version: Option<String>,
}

/// The last synced form of an entity.
#[derive(Debug, PartialEq, Eq)]
pub struct ShadowDocument {
    pub entity_id: String,
    pub frontmatter: String,
    pub rendered_body: String,
    pub body_hash: String,
}

impl ShadowDocument {
    /// A copy of the shadow.
    pub fn duplicate(&self) -> (r: ShadowDocument)
        ensures
            r == *self,
    {
        ShadowDocument {
            entity_id: self.entity_id.clone(),
            frontmatter: self.frontmatter.clone(),
            rendered_body: self.rendered_body.clone(),
            body_hash: self.body_hash.clone(),
        }
    }
}

/// A local filesystem change that has not been pushed.
#[derive(Debug, PartialEq, Eq)]
pub struct VirtualMutationRecord {
    pub local_id: String,
    pub target_remote_id: Option<String>,
    pub projected_path: String,
}

/// What kind of failure the store reports.
#[derive(Clone, Copy, Debug, PartialEq, Eq, Structural)]
pub enum StoreErrorKind {
    EntityPathMissing,
    ShadowMissing,
    NotImplemented,
    Io,
    Other,
}

/// A failure that the store reports, with its own words.
#[derive(Debug, PartialEq, Eq)]
pub struct StoreError {
    pub kind: StoreErrorKind,
    pub message: String,
}

/// What kind of failure the core reports.
#[derive(Clone, Copy, Debug, PartialEq, Eq, Structural)]
pub enum LocalityErrorKind {
    Validation,
    Conflict,
    Guardrail,
    RemoteNotFound,
    RateLimited,
    InvalidState,
    UpdateRequired,
    Unsupported,
    NotImplemented,
    Io,
}

/// A failure that the core reports, with its own words.
#[derive(Debug, PartialEq, Eq)]
pub struct LocalityError {
    pub kind: LocalityErrorKind,
    pub message: String,
}

/// A command that could not be carried out.
#[derive(Debug, PartialEq, Eq)]
pub struct CommandError {
    pub ok: bool,
    pub command: &'static str,
    pub code: String,
    pub message: String,
    pub suggested_command: Option<String>,
}

/// Whether an error says just this, with no command suggested.
pub open spec fn is_command_error(
    error: CommandError,
    command: Seq<char>,
    code: Seq<char>,
    message: Seq<char>,
) -> bool {
    &&& !error.ok
    &&& error.command@ == command
    &&& error.code@ == code
    &&& error.message@ == message
    &&& error.suggested_command is None
}

/// Whether an error says just this and suggests a command.
pub open spec fn is_suggesting_error(
    error: CommandError,
    command: Seq<char>,
    code: Seq<char>,
    message: Seq<char>,
    suggested: Seq<char>,
) -> bool {
    &&& !error.ok
    &&& error.command@ == command
    &&& error.code@ == code
    &&& error.message@ == message
    &&& text::opt_text(error.suggested_command) == Some(suggested)
}

impl CommandError {
    /// An error with no command suggested.
    pub fn new(command: &'static str, code: &str, message: String) -> (r: CommandError)
        ensures
            is_command_error(r, command@, code@, message@),
            r.message == message,
    {
        CommandError {
            ok: false,
            command,
            code: code.to_string(),
            message,
            suggested_command: None,
        }
    }

    /// The error with a command to try.
    pub fn with_suggested_command(self, suggested_command: String) -> (r: CommandError)
        ensures
            r == (CommandError { suggested_command: Some(suggested_command), ..self }),
    {
        CommandError { suggested_command: Some(suggested_command), ..self }
    }

    /// The error with a command to try, if there is one.
    pub fn with_optional_suggested_command(self, suggested_command: Option<&str>) -> (r:
        CommandError)
        ensures
            r.ok == self.ok,
            r.command == self.command,
            r.code == self.code,
            r.message == self.message,
            text::opt_text(r.suggested_command) == text::opt_str(suggested_command),
    {
        CommandError {
            suggested_command: match suggested_command {
                Some(s) => Some(s.to_string()),
                None => None,
            },
            ..self
        }
    }
}

/// A command that could not be carried out, with the exit code it leaves with.
#[derive(Debug, PartialEq, Eq)]
pub struct Failure {
    pub error: CommandError,
    pub exit_code: i32,
}

/// Whether a failure says just this and leaves with this exit code.
pub open spec fn is_failure(
    failure: Failure,
    command: Seq<char>,
    code: Seq<char>,
    message: Seq<char>,
    exit_code: i32,
) -> bool {
    &&& is_command_error(failure.error, command, code, message)
    &&& failure.exit_code == exit_code
}

impl Failure {
    /// A failure with no command suggested.
    pub fn new(command: &'static str, code: &str, message: String, exit_code: i32) -> (r: Failure)
        ensures
            is_failure(r, command@, code@, message@, exit_code),
    {
        Failure { error: CommandError::new(command, code, message), exit_code }
    }

    /// The failure of a command that was called in a way it does not know.
    pub fn usage(command: &'static str, message: &str) -> (r: Failure)
        ensures
            is_failure(r, command@, "usage"@, message@, 2),
    {
        Failure::new(command, "usage", message.to_string(), 2)
    }
}

} // verus!
