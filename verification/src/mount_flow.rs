//! The order in which a mount is made: what has to be found out next, and what
//! the mount is then made from.
use vstd::prelude::*;

use crate::args;
use crate::failures;
use crate::failures::ConnectorResolveError;
use crate::model;
use crate::model::{CommandError, Failure, MountConfig, ProjectionMode, StoreError};
use crate::mounting;
use crate::mounting::{MountRoot, RootChoice, SourceDescriptor};
use crate::projection;
use crate::projection::VirtualProjectionRegistration;
use crate::text;

verus! {

/// A mount that is to be made.
#[derive(Debug, PartialEq, Eq)]
pub struct MountOptions {
    pub mount_id: String,
    pub connector: String,
    pub root: String,
    pub remote_root_id: Option<String>,
    pub connection_id: Option<String>,
    pub read_only: bool,
    pub projection: ProjectionMode,
}

/// Why what is to be mounted was not reached.
#[derive(Debug, PartialEq, Eq)]
pub enum SourceFault {
    /// The source itself could not be reached.
    NoSource(ConnectorResolveError),
    /// The source has no such folder.
    NoFolder(String),
}

/// What is known so far of a mount that is being made.
#[derive(Debug, PartialEq, Eq)]
pub struct MountProgress {
    /// That the store opened, or why it did not.
    pub store: Option<Result<(), String>>,
    /// The connection that the mount uses, or why there is none to use.
    pub connection: Option<Result<Option<String>, CommandError>>,
    /// Whether the daemon answers.
    pub daemon_running: Option<bool>,
    /// The identifier of the folder, where a folder is mounted; of a source
    /// that is mounted otherwise only whether it was reached is read.
    pub source: Option<Result<String, SourceFault>>,
    /// The mounts there are.
    pub mounts: Option<Result<Vec<MountConfig>, StoreError>>,
}

/// What is reached for before a mount, and the mount it is for.
#[derive(Debug, PartialEq, Eq)]
pub struct SourceLookup {
    pub root: MountRoot,
    pub mount: MountOptions,
}

/// What is done next to make a mount.
#[derive(Debug, PartialEq, Eq)]
pub enum MountAction {
    OpenStore,
    /// Find the connection; the one with this name where there is one.
    ChooseConnection(Option<String>),
    ProbeDaemon,
    ReachSource(SourceLookup),
    ListMounts,
    Mount(MountOptions),
    Fail(Failure),
}

/// Whether options are those that the arguments ask for, apart from the
/// identifiers of the mount and of its remote root.
pub open spec fn are_asked_for(
    all: Seq<Seq<char>>,
    descriptor: SourceDescriptor,
    mode: ProjectionMode,
    connection_id: Option<String>,
    o: MountOptions,
) -> bool {
    &&& o.connector@ == descriptor.id@
    &&& args::positional_at(all, 1) == Some(o.root@)
    &&& text::opt_text(o.connection_id) == text::opt_text(connection_id)
    &&& o.read_only == all.contains("--read-only"@)
    &&& o.projection == mode
}

/// The identifier of what is mounted on the side of the source.
pub open spec fn remote_root(choice: RootChoice, folder_id: Seq<char>) -> Option<Seq<char>> {
    match choice {
        RootChoice::Page(id) => Some(id),
        RootChoice::Folder(_) => Some(folder_id),
        _ => None,
    }
}

/// The identifier that a mount has before its own is settled.
pub open spec fn provisional_id(all: Seq<Seq<char>>, descriptor: SourceDescriptor) -> Seq<char> {
    match args::value_of(all, "--mount-id"@) {
        Some(id) => id,
        None => descriptor.default_mount_id@,
    }
}

/// What follows once the source is reached: the mount gets the identifier that
/// was asked for, else one that is free for it.
pub open spec fn follows_source(
    all: Seq<Seq<char>>,
    descriptor: SourceDescriptor,
    mode: ProjectionMode,
    connection_id: Option<String>,
    remote_root_id: Option<Seq<char>>,
    p: MountProgress,
    r: MountAction,
) -> bool {
    match args::value_of(all, "--mount-id"@) {
        Some(id) => r matches MountAction::Mount(o) && o.mount_id@ == id && text::opt_text(
            o.remote_root_id,
        ) == remote_root_id && are_asked_for(all, descriptor, mode, connection_id, o),
        None => match p.mounts {
            None => r is ListMounts,
            Some(Err(e)) => r matches MountAction::Fail(f) && model::is_failure(
                f,
                "mount"@,
                "store_error"@,
                e.message@,
                1,
            ),
            Some(Ok(list)) => r matches MountAction::Mount(o) && mounting::is_default_mount_id(
                o.mount_id@,
                list@,
                descriptor,
                text::opt_text(connection_id),
                remote_root_id,
            ) && text::opt_text(o.remote_root_id) == remote_root_id && are_asked_for(
                all,
                descriptor,
                mode,
                connection_id,
                o,
            ),
        },
    }
}

/// Whether a lookup is for the part of the source that the arguments name.
pub open spec fn looks_for(lookup: MountRoot, choice: RootChoice) -> bool {
    match choice {
        RootChoice::Workspace => lookup is NotionWorkspace,
        RootChoice::Page(id) => lookup matches MountRoot::NotionPage(p) && p@ == id,
        RootChoice::Folder(name) => lookup matches MountRoot::GoogleDocsFolder(f) && f@ == name,
        RootChoice::Refuse(_) => false,
    }
}

/// What follows once the connection is settled: the daemon has to run where
/// the mount needs it, the arguments have to say what is mounted, and it has to
/// be reached.
pub open spec fn follows_connection(
    all: Seq<Seq<char>>,
    target_os: Seq<char>,
    daemon_disabled: bool,
    descriptor: SourceDescriptor,
    mode: ProjectionMode,
    connection_id: Option<String>,
    p: MountProgress,
    r: MountAction,
) -> bool {
    let needs_daemon = projection::auto_registration(mode, target_os, daemon_disabled) == Some(
        VirtualProjectionRegistration::LinuxFuse,
    );
    let choice = mounting::root_choice(descriptor.id@, all);
    if needs_daemon && p.daemon_running is None {
        r is ProbeDaemon
    } else if needs_daemon && p.daemon_running == Some(false) {
        r matches MountAction::Fail(f) && projection::asks_for_daemon(f.error) && f.exit_code == 1
    } else {
        match (choice, p.source) {
            (RootChoice::Refuse(why), _) => r matches MountAction::Fail(f) && model::is_failure(
                f,
                "mount"@,
                "usage"@,
                why,
                2,
            ),
            (_, None) => r matches MountAction::ReachSource(l) && looks_for(l.root, choice)
                && l.mount.mount_id@ == provisional_id(all, descriptor) && text::opt_text(
                l.mount.remote_root_id,
            ) == (match choice {
                RootChoice::Page(id) => Some(id),
                _ => None,
            }) && are_asked_for(all, descriptor, mode, connection_id, l.mount),
            (_, Some(Err(SourceFault::NoSource(e)))) => r matches MountAction::Fail(f)
                && failures::is_connector_error(f.error, "mount"@, e) && f.exit_code == (
            if e.code@ == "usage"@ {
                2i32
            } else {
                1i32
            }),
            (RootChoice::Folder(name), Some(Err(SourceFault::NoFolder(why)))) => r matches MountAction::Fail(
            f) && model::is_suggesting_error(
                f.error,
                "mount"@,
                "workspace_folder_error"@,
                "failed to resolve Google Docs workspace folder `"@ + name + "`: "@ + why@,
                "loc connect google-docs"@,
            ) && f.exit_code == 1,
            (_, Some(found)) => follows_source(
                all,
                descriptor,
                mode,
                connection_id,
                remote_root(
                    choice,
                    match found {
                        Ok(id) => id@,
                        Err(_) => Seq::empty(),
                    },
                ),
                p,
                r,
            ),
        }
    }
}

/// What follows on what is known of a mount: the arguments have to be in order
/// and the store has to open before anything is looked for.
pub open spec fn follows_mount(
    all: Seq<Seq<char>>,
    target_os: Seq<char>,
    daemon_disabled: bool,
    descriptor: SourceDescriptor,
    p: MountProgress,
    r: MountAction,
) -> bool {
    match (args::positional_at(all, 0), args::positional_at(all, 1)) {
        (Some(_), Some(_)) => match projection::chosen_projection(
            args::value_of(all, "--projection"@),
            target_os,
        ) {
            Err(why) => r matches MountAction::Fail(f) && model::is_failure(
                f,
                "mount"@,
                "usage"@,
                why,
                2,
            ),
            Ok(mode) => match (p.store, p.connection) {
                (None, _) => r is OpenStore,
                (Some(Err(why)), _) => r matches MountAction::Fail(f) && model::is_failure(
                    f,
                    "mount"@,
                    "store_open_failed"@,
                    why@,
                    1,
                ),
                (Some(Ok(_)), None) => r matches MountAction::ChooseConnection(name)
                    && text::opt_text(name) == args::value_of(all, "--connection"@),
                (Some(Ok(_)), Some(Err(e))) => r matches MountAction::Fail(f) && f.error == e
                    && f.exit_code == 1,
                (Some(Ok(_)), Some(Ok(connection_id))) => follows_connection(
                    all,
                    target_os,
                    daemon_disabled,
                    descriptor,
                    mode,
                    connection_id,
                    p,
                    r,
                ),
            },
        },
        _ => r matches MountAction::Fail(f) && model::is_failure(
            f,
            "mount"@,
            "usage"@,
            projection::mount_usage_text(target_os),
            2,
        ),
    }
}

fn own_copy(error: &CommandError) -> (r: CommandError)
    ensures
        r == *error,
{
    let suggested_command = match &error.suggested_command {
        Some(command) => Some(command.clone()),
        None => None,
    };
    CommandError {
        ok: error.ok,
        command: error.command,
        code: error.code.clone(),
        message: error.message.clone(),
        suggested_command,
    }
}

fn daemon_is_missing(
    mode: ProjectionMode,
    target_os: &str,
    daemon_disabled: bool,
    running: bool,
) -> (r: Option<CommandError>)
    ensures
        if projection::auto_registration(mode, target_os@, daemon_disabled) == Some(
            VirtualProjectionRegistration::LinuxFuse,
        ) && !running {
            r matches Some(e) && projection::asks_for_daemon(e)
        } else {
            r is None
        },
{
    let probe = || -> (r: bool)
        ensures
            r == running,
        { running };
    projection::mounted_projection_preflight_error(mode, target_os, daemon_disabled, probe)
}

fn after_source(
    args: &[String],
    descriptor: &SourceDescriptor,
    options: MountOptions,
    explicit: bool,
    progress: &MountProgress,
) -> (r: MountAction)
    requires
        are_asked_for(
            text::texts(args@),
            *descriptor,
            options.projection,
            options.connection_id,
            options,
        ),
        explicit == args::value_of(text::texts(args@), "--mount-id"@) is Some,
        options.mount_id@ == provisional_id(text::texts(args@), *descriptor),
    ensures
        follows_source(
            text::texts(args@),
            *descriptor,
            options.projection,
            options.connection_id,
            text::opt_text(options.remote_root_id),
            *progress,
            r,
        ),
{
    if explicit {
        return MountAction::Mount(options);
    }
    match &progress.mounts {
        None => MountAction::ListMounts,
        Some(mounts) => match mounting::default_mount_id_for_source(
            mounts,
            descriptor,
            text::as_str_option(&options.connection_id),
            text::as_str_option(&options.remote_root_id),
        ) {
            Ok(mount_id) => MountAction::Mount(MountOptions { mount_id, ..options }),
            Err(error) => MountAction::Fail(Failure { error, exit_code: 1 }),
        },
    }
}

fn after_connection(
    args: &[String],
    target_os: &str,
    daemon_disabled: bool,
    descriptor: &SourceDescriptor,
    options: MountOptions,
    explicit: bool,
    progress: &MountProgress,
) -> (r: MountAction)
    requires
        are_asked_for(
            text::texts(args@),
            *descriptor,
            options.projection,
            options.connection_id,
            options,
        ),
        explicit == args::value_of(text::texts(args@), "--mount-id"@) is Some,
        options.mount_id@ == provisional_id(text::texts(args@), *descriptor),
        options.remote_root_id is None,
    ensures
        follows_connection(
            text::texts(args@),
            target_os@,
            daemon_disabled,
            *descriptor,
            options.projection,
            options.connection_id,
            *progress,
            r,
        ),
{
    let running = match progress.daemon_running {
        Some(running) => running,
        None => match projection::auto_registration_for_mounted_projection(
            options.projection,
            target_os,
            daemon_disabled,
        ) {
            Some(VirtualProjectionRegistration::LinuxFuse) => {
                return MountAction::ProbeDaemon;
            },
            _ => true,
        },
    };
    if let Some(error) = daemon_is_missing(
        options.projection,
        target_os,
        daemon_disabled,
        running,
    ) {
        return MountAction::Fail(Failure { error, exit_code: 1 });
    }
    let root = match mounting::mount_root(&descriptor.id, args) {
        Ok(root) => root,
        Err(error) => {
            return MountAction::Fail(Failure { error, exit_code: 2 });
        },
    };
    let page = match &root {
        MountRoot::NotionPage(id) => Some(id.clone()),
        _ => None,
    };
    let found = match &progress.source {
        Some(found) => found,
        None => {
            return MountAction::ReachSource(
                SourceLookup { root, mount: MountOptions { remote_root_id: page, ..options } },
            );
        },
    };
    if let Err(SourceFault::NoSource(e)) = found {
        let error = failures::connector_resolve_command_error("mount", e);
        let exit_code: i32 = mounting::mount_remote_root_error_exit_code(&error);
        return MountAction::Fail(Failure { error, exit_code });
    }
    let remote_root_id = match &root {
        MountRoot::GoogleDocsFolder(name) => match found {
            Ok(id) => Some(id.clone()),
            Err(SourceFault::NoFolder(why)) => {
                return MountAction::Fail(
                    Failure { error: mounting::workspace_folder_error(name, why), exit_code: 1 },
                );
            },
            Err(SourceFault::NoSource(_)) => None,
        },
        _ => page,
    };
    after_source(
        args,
        descriptor,
        MountOptions { remote_root_id, ..options },
        explicit,
        progress,
    )
}

/// What is done next to make the mount that `args` ask for. `descriptor` says
/// what there is to know of the source that they name.
pub fn mount(
    args: &[String],
    target_os: &str,
    daemon_disabled: bool,
    descriptor: &SourceDescriptor,
    progress: &MountProgress,
) -> (r: MountAction)
    ensures
        follows_mount(
            text::texts(args@),
            target_os@,
            daemon_disabled,
            *descriptor,
            *progress,
            r,
        ),
{
    let asked = match mounting::mount_arguments(args, target_os) {
        Ok(asked) => asked,
        Err(error) => {
            return MountAction::Fail(Failure { error, exit_code: 2 });
        },
    };
    match &progress.store {
        None => {
            return MountAction::OpenStore;
        },
        Some(Err(why)) => {
            return MountAction::Fail(Failure::new("mount", "store_open_failed", why.clone(), 1));
        },
        Some(Ok(_)) => {},
    }
    let connection_id = match &progress.connection {
        None => {
            return MountAction::ChooseConnection(
                match args::flag_value(args, "--connection") {
                    Some(name) => Some(name.to_string()),
                    None => None,
                },
            );
        },
        Some(Err(error)) => {
            return MountAction::Fail(Failure { error: own_copy(error), exit_code: 1 });
        },
        Some(Ok(connection_id)) => text::clone_option(connection_id),
    };
    let explicit = asked.mount_id.is_some();
    let mount_id = match asked.mount_id {
        Some(id) => id,
        None => descriptor.default_mount_id.clone(),
    };
    after_connection(
        args,
        target_os,
        daemon_disabled,
        descriptor,
        MountOptions {
            mount_id,
            connector: descriptor.id.clone(),
            root: asked.root,
            remote_root_id: None,
            connection_id,
            read_only: asked.read_only,
            projection: asked.projection,
        },
        explicit,
        progress,
    )
}

/// A mount that was made and is registered with its system by itself.
#[derive(Debug, PartialEq, Eq)]
pub struct MountToRegister {
    pub mount: MountConfig,
    pub registration: VirtualProjectionRegistration,
}

/// What is registered after a mount was made, if anything; `found` is the mount
/// as the store has it.
pub fn auto_register_mounted_projection(
    mount_id: &str,
    found: Result<Option<MountConfig>, StoreError>,
    target_os: &str,
    daemon_disabled: bool,
) -> (r: Result<Option<MountToRegister>, CommandError>)
    ensures
        match found {
            Err(e) => r matches Err(error) && model::is_command_error(
                error,
                "mount"@,
                "store_error"@,
                e.message@,
            ),
            Ok(None) => r matches Err(error) && model::is_command_error(
                error,
                "mount"@,
                "mount_not_found"@,
                "mount `"@ + mount_id@ + "` was not found after mount registration"@,
            ),
            Ok(Some(m)) => match projection::auto_registration(
                m.projection,
                target_os@,
                daemon_disabled,
            ) {
                Some(registration) => r == Ok::<_, CommandError>(
                    Some(MountToRegister { mount: m, registration }),
                ),
                None => r == Ok::<Option<MountToRegister>, CommandError>(None),
            },
        },
{
    let mount = match mounting::mounted(mount_id, found) {
        Ok(mount) => mount,
        Err(error) => {
            return Err(error);
        },
    };
    match projection::auto_registration_for_mounted_projection(
        mount.projection,
        target_os,
        daemon_disabled,
    ) {
        Some(registration) => Ok(Some(MountToRegister { mount, registration })),
        None => Ok(None),
    }
}

impl MountToRegister {
    /// What the mount is registered with.
    pub open spec fn system(self) -> Seq<char> {
        match self.registration {
            VirtualProjectionRegistration::MacosFileProvider => "macOS File Provider"@,
            VirtualProjectionRegistration::LinuxFuse => "Linux FUSE"@,
            VirtualProjectionRegistration::WindowsCloudFiles => "Windows Cloud Files"@,
        }
    }

    /// The failure to register the mount.
    pub fn failed(&self, code: &str, why: &str) -> (r: CommandError)
        ensures
            model::is_suggesting_error(
                r,
                "mount"@,
                code@,
                "mounted `"@ + self.mount.mount_id@ + "` but "@ + self.system()
                    + " registration failed: "@ + why@,
                "loc file-provider register "@ + self.mount.root@,
            ),
    {
        let system = match self.registration {
            VirtualProjectionRegistration::MacosFileProvider => "macOS File Provider",
            VirtualProjectionRegistration::LinuxFuse => "Linux FUSE",
            VirtualProjectionRegistration::WindowsCloudFiles => "Windows Cloud Files",
        };
        mounting::registration_failed(&self.mount, system, code, why)
    }
}

/// Nothing is asked for twice: what an action asks for is not known yet, and
/// what it builds on is.
pub proof fn law_mount_goes_forward(
    all: Seq<Seq<char>>,
    target_os: Seq<char>,
    daemon_disabled: bool,
    descriptor: SourceDescriptor,
    p: MountProgress,
    r: MountAction,
)
    requires
        follows_mount(all, target_os, daemon_disabled, descriptor, p, r),
    ensures
        r is OpenStore ==> p.store is None,
        !(r is OpenStore || r is Fail) ==> p.store matches Some(Ok(_)),
        r is ChooseConnection ==> p.connection is None,
        r is ProbeDaemon || r is ReachSource || r is ListMounts || r is Mount
            ==> p.connection matches Some(Ok(_)),
        r is ProbeDaemon ==> p.daemon_running is None,
        r is ReachSource ==> p.source is None,
        r is ListMounts || r is Mount ==> p.source is Some,
        r is ListMounts ==> p.mounts is None,
{
}

/// A mount takes the identifier that it was given; where it was given none, the
/// one that it takes is free for it. A FUSE mount that registers by itself is
/// made only while the daemon runs.
pub proof fn law_mount_is_as_asked(
    all: Seq<Seq<char>>,
    target_os: Seq<char>,
    daemon_disabled: bool,
    descriptor: SourceDescriptor,
    p: MountProgress,
    r: MountAction,
)
    requires
        follows_mount(all, target_os, daemon_disabled, descriptor, p, r),
    ensures
        r matches MountAction::Mount(o) ==> {
            &&& args::positional_at(all, 1) == Some(o.root@)
            &&& args::value_of(all, "--mount-id"@) matches Some(id) ==> o.mount_id@ == id
            &&& args::value_of(all, "--mount-id"@) is None ==> {
                &&& p.mounts matches Some(Ok(list))
                &&& mounting::is_available(
                    list@,
                    o.mount_id@,
                    descriptor,
                    text::opt_text(o.connection_id),
                    text::opt_text(o.remote_root_id),
                )
            }
            &&& projection::auto_registration(o.projection, target_os, daemon_disabled) == Some(
                VirtualProjectionRegistration::LinuxFuse,
            ) ==> p.daemon_running == Some(true)
        },
{
}

} // verus!
