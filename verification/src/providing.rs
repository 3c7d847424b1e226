//! The `file-provider` commands: which mount is meant, what is done to its
//! provider, and what is printed.
use vstd::prelude::*;

use crate::file_provider;
use crate::file_provider::{
    FileProviderHelperError, LinuxFuseRegistrationError, LinuxFuseRegistrationReport,
    WindowsCloudFilesHelperError, WindowsCloudFilesLifecycleAction,
};
use crate::json::{Json, JsonField};
use crate::model;
use crate::model::{CommandError, Failure, MountConfig, ProjectionMode, StoreError};
use crate::paths;
use crate::paths::PathStyle;
use crate::projection;
use crate::projection::VirtualProjectionRegistration;
use crate::requests::ProviderAction;
use crate::sorting;
use crate::text;

verus! {

/// The first mount with an identifier.
pub open spec fn mount_with_id(mounts: Seq<MountConfig>, id: Seq<char>) -> Option<MountConfig>
    decreases mounts.len(),
{
    if mounts.len() == 0 {
        None
    } else if mounts[0].mount_id@ == id {
        Some(mounts[0])
    } else {
        mount_with_id(mounts.skip(1), id)
    }
}

/// Whether `r` is the mount that a target means: the one with that identifier,
/// else the one that holds that path. `at_path` is the mount that holds the
/// path, or why the path has no meaning.
pub open spec fn is_meant(
    mounts: Result<Vec<MountConfig>, StoreError>,
    target: Seq<char>,
    at_path: Result<Option<MountConfig>, String>,
    r: Result<MountConfig, String>,
) -> bool {
    match mounts {
        Err(e) => r matches Err(m) && m@ == "failed to load mounts: "@ + e.message@,
        Ok(list) => match mount_with_id(list@, target) {
            Some(mount) => r matches Ok(m) && m.same_as(mount),
            None => match at_path {
                Err(why) => r matches Err(m) && m@ == "failed to resolve `"@ + target + "`: "@
                    + why@,
                Ok(Some(mount)) => r matches Ok(m) && m.same_as(mount),
                Ok(None) => r matches Err(m) && m@ == "no Locality mount matches `"@ + target
                    + "`"@,
            },
        },
    }
}

/// The mount that a target means.
pub fn resolve_mount_target(
    mounts: &Result<Vec<MountConfig>, StoreError>,
    target: &str,
    at_path: &Result<Option<MountConfig>, String>,
) -> (r: Result<MountConfig, String>)
    ensures
        is_meant(*mounts, target@, *at_path, r),
{
    let list = match mounts {
        Ok(list) => list,
        Err(e) => {
            let mut message = "failed to load mounts: ".to_string();
            message.append(&e.message);
            return Err(message);
        },
    };
    let mut i: usize = 0;
    assert(list@.skip(0) == list@);
    while i < list.len()
        invariant
            i <= list.len(),
            *mounts == Ok::<_, StoreError>(*list),
            mount_with_id(list@, target@) == mount_with_id(list@.skip(i as int), target@),
        decreases list.len() - i,
    {
        assert(list@.skip(i as int)[0] == list@[i as int]);
        assert(list@.skip(i as int).skip(1) == list@.skip(i + 1));
        if text::same_text(&list[i].mount_id, target) {
            return Ok(list[i].duplicate());
        }
        i += 1;
    }
    match at_path {
        Err(why) => {
            let mut message = text::concat3("failed to resolve `", target, "`: ");
            message.append(why);
            Err(message)
        },
        Ok(Some(mount)) => Ok(mount.duplicate()),
        Ok(None) => Err(text::concat3("no Locality mount matches `", target, "`")),
    }
}

/// The identifiers of the mounts in a projection.
pub open spec fn ids_in(mounts: Seq<MountConfig>, projection: ProjectionMode) -> Seq<String> {
    mounts.filter(|m: MountConfig| m.projection == projection).map_values(
        |m: MountConfig| m.mount_id,
    )
}

/// Whether a mount shares the root of another one.
pub open spec fn is_sibling(
    style: PathStyle,
    mount: MountConfig,
    target: MountConfig,
    projection: ProjectionMode,
) -> bool {
    &&& mount.mount_id@ != target.mount_id@
    &&& mount.projection == projection
    &&& paths::same(style, mount.projection_root@, target.projection_root@)
}

/// The identifiers of the mounts that share the root of another one.
pub open spec fn sibling_ids(
    style: PathStyle,
    mounts: Seq<MountConfig>,
    target: MountConfig,
    projection: ProjectionMode,
) -> Seq<String> {
    mounts.filter(|m: MountConfig| is_sibling(style, m, target, projection)).map_values(
        |m: MountConfig| m.mount_id,
    )
}

/// Texts in order, with commas between.
pub open spec fn listed(ids: Seq<String>) -> Seq<char> {
    text::joined(text::texts(sorting::sorted(ids)), ", "@)
}

/// What a guard says of a projection.
pub open spec fn guard_label(projection: ProjectionMode) -> Seq<char> {
    if projection == ProjectionMode::WindowsCloudFiles {
        "Windows Cloud Files"@
    } else {
        "Linux FUSE"@
    }
}

/// The code under which a shared root is kept.
pub open spec fn shared_code(projection: ProjectionMode) -> Seq<char> {
    if projection == ProjectionMode::WindowsCloudFiles {
        "windows_cloud_files_shared_root_in_use"@
    } else {
        "linux_fuse_shared_root_in_use"@
    }
}

/// The code under which an unknown target is refused.
pub open spec fn unresolved_code(projection: ProjectionMode) -> Seq<char> {
    if projection == ProjectionMode::WindowsCloudFiles {
        "windows_cloud_files_unresolved_shared_root"@
    } else {
        "linux_fuse_unresolved_shared_root"@
    }
}

/// Whether an error keeps a root that other mounts share.
pub open spec fn keeps_shared_root(
    style: PathStyle,
    error: CommandError,
    mounts: Seq<MountConfig>,
    target: MountConfig,
    projection: ProjectionMode,
) -> bool {
    model::is_command_error(
        error,
        "file-provider"@,
        shared_code(projection),
        guard_label(projection) + " root `"@ + target.projection_root@
            + "` is shared by sibling mount ids "@ + listed(
            sibling_ids(style, mounts, target, projection),
        ) + "; unregistering `"@ + target.mount_id@ + "` would stop their provider too"@,
    )
}

/// Whether an error refuses a target that means no mount.
pub open spec fn refuses_unknown(
    error: CommandError,
    mounts: Seq<MountConfig>,
    target: Seq<char>,
    projection: ProjectionMode,
) -> bool {
    model::is_command_error(
        error,
        "file-provider"@,
        unresolved_code(projection),
        guard_label(projection) + " unregister target `"@ + target
            + "` does not match a known mount; refusing raw unregister while shared "@
            + guard_label(projection) + " mounts exist: "@ + listed(ids_in(mounts, projection)),
    )
}

fn guard_words(projection: ProjectionMode) -> (r: (&'static str, &'static str, &'static str))
    ensures
        r.0@ == guard_label(projection),
        r.1@ == shared_code(projection),
        r.2@ == unresolved_code(projection),
{
    match projection {
        ProjectionMode::WindowsCloudFiles => (
            "Windows Cloud Files",
            "windows_cloud_files_shared_root_in_use",
            "windows_cloud_files_unresolved_shared_root",
        ),
        _ => (
            "Linux FUSE",
            "linux_fuse_shared_root_in_use",
            "linux_fuse_unresolved_shared_root",
        ),
    }
}

fn collect_ids(mounts: &Vec<MountConfig>, projection: ProjectionMode) -> (r: Vec<String>)
    ensures
        r@ == ids_in(mounts@, projection),
{
    let ghost all = mounts@;
    let ghost chosen = |m: MountConfig| m.projection == projection;
    let ghost id = |m: MountConfig| m.mount_id;
    let mut ids: Vec<String> = Vec::new();
    let mut i: usize = 0;
    reveal(Seq::filter);
    assert(all.take(0).filter(chosen) =~= Seq::<MountConfig>::empty());
    assert(ids@ =~= all.take(0).filter(chosen).map_values(id));
    while i < mounts.len()
        invariant
            i <= mounts.len(),
            all == mounts@,
            chosen == (|m: MountConfig| m.projection == projection),
            id == (|m: MountConfig| m.mount_id),
            ids@ == all.take(i as int).filter(chosen).map_values(id),
        decreases mounts.len() - i,
    {
        assert(all.take(i + 1).drop_last() == all.take(i as int));
        assert(all.take(i + 1).last() == all[i as int]);
        reveal(Seq::filter);
        let ghost before = all.take(i as int).filter(chosen);
        if mounts[i].projection == projection {
            ids.push(mounts[i].mount_id.clone());
            assert(ids@ =~= before.push(all[i as int]).map_values(id));
        }
        i += 1;
    }
    assert(all.take(i as int) == all);
    ids
}

fn collect_siblings(
    style: PathStyle,
    mounts: &Vec<MountConfig>,
    target: &MountConfig,
    projection: ProjectionMode,
) -> (r: Vec<String>)
    ensures
        r@ == sibling_ids(style, mounts@, *target, projection),
{
    let ghost all = mounts@;
    let ghost chosen = |m: MountConfig| is_sibling(style, m, *target, projection);
    let ghost id = |m: MountConfig| m.mount_id;
    let mut ids: Vec<String> = Vec::new();
    let mut i: usize = 0;
    reveal(Seq::filter);
    assert(all.take(0).filter(chosen) =~= Seq::<MountConfig>::empty());
    assert(ids@ =~= all.take(0).filter(chosen).map_values(id));
    while i < mounts.len()
        invariant
            i <= mounts.len(),
            all == mounts@,
            chosen == (|m: MountConfig| is_sibling(style, m, *target, projection)),
            id == (|m: MountConfig| m.mount_id),
            ids@ == all.take(i as int).filter(chosen).map_values(id),
        decreases mounts.len() - i,
    {
        assert(all.take(i + 1).drop_last() == all.take(i as int));
        assert(all.take(i + 1).last() == all[i as int]);
        reveal(Seq::filter);
        let ghost before = all.take(i as int).filter(chosen);
        let mount = &mounts[i];
        if !text::same_text(&mount.mount_id, &target.mount_id) && mount.projection == projection
            && paths::same_path(style, &mount.projection_root, &target.projection_root) {
            ids.push(mount.mount_id.clone());
            assert(ids@ =~= before.push(all[i as int]).map_values(id));
        }
        i += 1;
    }
    assert(all.take(i as int) == all);
    ids
}

/// A target that means no mount is unregistered only where no mount is in the
/// projection.
pub fn guard_unresolved_virtual_projection_unregister(
    mounts: &Vec<MountConfig>,
    target: &str,
    projection: ProjectionMode,
) -> (r: Result<(), CommandError>)
    ensures
        match r {
            Ok(_) => ids_in(mounts@, projection).len() == 0,
            Err(e) => ids_in(mounts@, projection).len() > 0 && refuses_unknown(
                e,
                mounts@,
                target@,
                projection,
            ),
        },
{
    let (label, _, code) = guard_words(projection);
    let mount_ids = sorting::sort(collect_ids(mounts, projection));
    proof {
        sorting::law_sorted_is_an_ordered_permutation(ids_in(mounts@, projection));
    }
    if mount_ids.len() == 0 {
        return Ok(());
    }
    let mut message = text::concat3(label, " unregister target `", target);
    message.append(
        "` does not match a known mount; refusing raw unregister while shared ",
    );
    message.append(label);
    message.append(" mounts exist: ");
    message.append(&text::join(&mount_ids, ", "));
    Err(CommandError::new("file-provider", code, message))
}

/// A FUSE target that means no mount.
pub fn guard_unresolved_linux_fuse_unregister(mounts: &Vec<MountConfig>, target: &str) -> (r:
    Result<(), CommandError>)
    ensures
        match r {
            Ok(_) => ids_in(mounts@, ProjectionMode::LinuxFuse).len() == 0,
            Err(e) => ids_in(mounts@, ProjectionMode::LinuxFuse).len() > 0 && refuses_unknown(
                e,
                mounts@,
                target@,
                ProjectionMode::LinuxFuse,
            ),
        },
{
    guard_unresolved_virtual_projection_unregister(mounts, target, ProjectionMode::LinuxFuse)
}

/// A Cloud Files target that means no mount.
pub fn guard_unresolved_windows_cloud_files_unregister(
    mounts: &Vec<MountConfig>,
    target: &str,
) -> (r: Result<(), CommandError>)
    ensures
        match r {
            Ok(_) => ids_in(mounts@, ProjectionMode::WindowsCloudFiles).len() == 0,
            Err(e) => ids_in(mounts@, ProjectionMode::WindowsCloudFiles).len() > 0
                && refuses_unknown(e, mounts@, target@, ProjectionMode::WindowsCloudFiles),
        },
{
    guard_unresolved_virtual_projection_unregister(
        mounts,
        target,
        ProjectionMode::WindowsCloudFiles,
    )
}

/// Whether unregistering a mount leaves every other mount its provider.
pub open spec fn leaves_siblings(
    style: PathStyle,
    mounts: Seq<MountConfig>,
    target: MountConfig,
    projection: ProjectionMode,
) -> bool {
    target.projection != projection || sibling_ids(style, mounts, target, projection).len() == 0
}

/// A mount is unregistered only where no other mount shares its root.
pub fn guard_shared_virtual_projection_root_unregister(
    style: PathStyle,
    mounts: &Vec<MountConfig>,
    target: &MountConfig,
    projection: ProjectionMode,
) -> (r: Result<(), CommandError>)
    ensures
        match r {
            Ok(_) => leaves_siblings(style, mounts@, *target, projection),
            Err(e) => !leaves_siblings(style, mounts@, *target, projection) && keeps_shared_root(
                style,
                e,
                mounts@,
                *target,
                projection,
            ),
        },
{
    if target.projection != projection {
        return Ok(());
    }
    let (label, code, _) = guard_words(projection);
    let ids = sorting::sort(collect_siblings(style, mounts, target, projection));
    proof {
        sorting::law_sorted_is_an_ordered_permutation(
            sibling_ids(style, mounts@, *target, projection),
        );
    }
    if ids.len() == 0 {
        return Ok(());
    }
    let mut message = text::concat3(label, " root `", &target.projection_root);
    message.append("` is shared by sibling mount ids ");
    message.append(&text::join(&ids, ", "));
    message.append("; unregistering `");
    message.append(&target.mount_id);
    message.append("` would stop their provider too");
    Err(CommandError::new("file-provider", code, message))
}

/// A FUSE mount whose root others may share.
pub fn guard_linux_fuse_shared_root_unregister(
    style: PathStyle,
    mounts: &Vec<MountConfig>,
    target: &MountConfig,
) -> (r: Result<(), CommandError>)
    ensures
        match r {
            Ok(_) => leaves_siblings(style, mounts@, *target, ProjectionMode::LinuxFuse),
            Err(e) => !leaves_siblings(style, mounts@, *target, ProjectionMode::LinuxFuse)
                && keeps_shared_root(style, e, mounts@, *target, ProjectionMode::LinuxFuse),
        },
{
    guard_shared_virtual_projection_root_unregister(
        style,
        mounts,
        target,
        ProjectionMode::LinuxFuse,
    )
}

/// A Cloud Files mount whose root others may share.
pub fn guard_windows_cloud_files_shared_root_unregister(
    style: PathStyle,
    mounts: &Vec<MountConfig>,
    target: &MountConfig,
) -> (r: Result<(), CommandError>)
    ensures
        match r {
            Ok(_) => leaves_siblings(style, mounts@, *target, ProjectionMode::WindowsCloudFiles),
            Err(e) => !leaves_siblings(style, mounts@, *target, ProjectionMode::WindowsCloudFiles)
                && keeps_shared_root(style, e, mounts@, *target, ProjectionMode::WindowsCloudFiles),
        },
{
    guard_shared_virtual_projection_root_unregister(
        style,
        mounts,
        target,
        ProjectionMode::WindowsCloudFiles,
    )
}

/// Where unregistering a mount leaves the others their provider, none of them
/// lies under its root in the same projection.
pub proof fn law_unregistering_stops_no_sibling(
    style: PathStyle,
    mounts: Seq<MountConfig>,
    target: MountConfig,
    projection: ProjectionMode,
    i: int,
)
    requires
        0 <= i < mounts.len(),
        target.projection == projection,
        leaves_siblings(style, mounts, target, projection),
    ensures
        !is_sibling(style, mounts[i], target, projection),
{
    let chosen = |m: MountConfig| is_sibling(style, m, target, projection);
    if is_sibling(style, mounts[i], target, projection) {
        assert(chosen(mounts[i]));
        assert(mounts.contains(mounts[i]));
        mounts.lemma_filter_contains_rev(chosen, mounts[i]);
        assert(mounts.filter(chosen).contains(mounts[i]));
    }
}

/// The domain of the macOS file provider.
#[derive(Debug, PartialEq, Eq)]
pub struct MacosDomain {
    pub id: String,
    pub display_name: String,
}

/// What is done to the provider of a mount.
#[derive(Debug, PartialEq, Eq)]
pub enum ProviderStep {
    /// Call the macOS helper.
    MacosHelper(MacosHelperCall),
    LinuxRegister(MountConfig),
    LinuxLifecycle(LifecycleCall),
    LinuxOpen(MountConfig),
    LinuxUnregister(LinuxUnregister),
    WindowsRegister(MountConfig),
    WindowsLifecycle(LifecycleCall),
    WindowsRun(MountConfig),
    WindowsOpen(MountConfig),
    WindowsUnregister(String),
}

/// A call of the macOS helper.
#[derive(Debug, PartialEq, Eq)]
pub struct MacosHelperCall {
    pub action: &'static str,
    pub args: Vec<String>,
    pub mount_id: String,
}

/// Something that is done to a running provider.
#[derive(Debug, PartialEq, Eq)]
pub struct LifecycleCall {
    pub mount: MountConfig,
    pub action: WindowsCloudFilesLifecycleAction,
}

/// A FUSE mount that is unregistered, or a name that means none.
#[derive(Debug, PartialEq, Eq)]
pub struct LinuxUnregister {
    pub mount: Option<MountConfig>,
    pub target: String,
}

/// Whether a step calls the macOS helper in this way.
pub open spec fn calls_macos_helper(
    step: ProviderStep,
    action: Seq<char>,
    args: Seq<Seq<char>>,
    mount_id: Seq<char>,
) -> bool {
    step matches ProviderStep::MacosHelper(c) && c.action@ == action && text::texts(c.args@)
        == args && c.mount_id@ == mount_id
}

/// Whether a step does what was asked of the provider of a mount.
pub open spec fn is_step(
    step: ProviderStep,
    registration: VirtualProjectionRegistration,
    action: ProviderAction,
    mount: MountConfig,
    domain: MacosDomain,
) -> bool {
    match (registration, action) {
        (VirtualProjectionRegistration::MacosFileProvider, ProviderAction::Register) =>
        calls_macos_helper(
            step,
            "register"@,
            seq!["--mount-id"@, domain.id@, "--display-name"@, domain.display_name@],
            mount.mount_id@,
        ),
        (VirtualProjectionRegistration::MacosFileProvider, ProviderAction::Open) =>
        calls_macos_helper(step, "open"@, seq!["--mount-id"@, domain.id@], mount.mount_id@),
        (VirtualProjectionRegistration::LinuxFuse, ProviderAction::Register) => step
            == ProviderStep::LinuxRegister(mount),
        (VirtualProjectionRegistration::LinuxFuse, ProviderAction::Lifecycle(a)) => step
            == ProviderStep::LinuxLifecycle(LifecycleCall { mount, action: a }),
        (VirtualProjectionRegistration::LinuxFuse, ProviderAction::Open) => step
            == ProviderStep::LinuxOpen(mount),
        (VirtualProjectionRegistration::WindowsCloudFiles, ProviderAction::Register) => step
            == ProviderStep::WindowsRegister(mount),
        (VirtualProjectionRegistration::WindowsCloudFiles, ProviderAction::Lifecycle(a)) => step
            == ProviderStep::WindowsLifecycle(LifecycleCall { mount, action: a }),
        (VirtualProjectionRegistration::WindowsCloudFiles, ProviderAction::Run) => step
            == ProviderStep::WindowsRun(mount),
        (VirtualProjectionRegistration::WindowsCloudFiles, ProviderAction::Open) => step
            == ProviderStep::WindowsOpen(mount),
        _ => false,
    }
}

/// Why something cannot be done to a provider at all.
pub open spec fn unsupported(
    registration: VirtualProjectionRegistration,
    action: ProviderAction,
) -> Option<Seq<char>> {
    match (registration, action) {
        (VirtualProjectionRegistration::MacosFileProvider, ProviderAction::Lifecycle(a)) => Some(
            "file-provider "@ + a.name()
                + " is currently implemented for Windows Cloud Files mounts"@,
        ),
        (VirtualProjectionRegistration::WindowsCloudFiles, ProviderAction::Run) => None,
        (_, ProviderAction::Run) => Some(
            "foreground provider run is only supported for Windows Cloud Files"@,
        ),
        _ => None,
    }
}

/// Whether a failure says why a mount cannot be registered on a system.
pub open spec fn refuses_projection(
    failure: Failure,
    mount: MountConfig,
    target_os: Seq<char>,
) -> bool {
    match projection::registration_of(target_os) {
        None => model::is_failure(
            failure,
            "file-provider"@,
            "unsupported_platform"@,
            "no virtual filesystem registration is implemented for "@ + target_os,
            2,
        ),
        Some(registration) => mount.projection != registration.projection() && model::is_failure(
            failure,
            "file-provider"@,
            "wrong_projection"@,
            "mount `"@ + mount.mount_id@ + "` uses projection `"@ + mount.projection.name()
                + "`; remount with --projection "@ + projection::cli_value(
                registration.projection(),
            ),
            2,
        ),
    }
}

/// What is done to the provider of a mount that is not unregistered.
pub fn provider_step(
    action: ProviderAction,
    resolved: Result<MountConfig, String>,
    target_os: &str,
    domain: &MacosDomain,
) -> (r: Result<ProviderStep, Failure>)
    requires
        action != ProviderAction::Unregister,
    ensures
        match resolved {
            Err(why) => r matches Err(f) && model::is_failure(
                f,
                "file-provider"@,
                "mount_not_found"@,
                why@,
                2,
            ),
            Ok(mount) => match projection::registration_of(target_os@) {
                Some(registration) => if mount.projection != registration.projection() {
                    r matches Err(f) && refuses_projection(f, mount, target_os@)
                } else {
                    match unsupported(registration, action) {
                        Some(why) => r matches Err(f) && model::is_failure(
                            f,
                            "file-provider"@,
                            "unsupported_platform"@,
                            why,
                            2,
                        ),
                        None => r matches Ok(step) && is_step(
                            step,
                            registration,
                            action,
                            mount,
                            *domain,
                        ),
                    }
                },
                None => r matches Err(f) && refuses_projection(f, mount, target_os@),
            },
        },
{
    let mount = match resolved {
        Ok(mount) => mount,
        Err(message) => {
            return Err(Failure::new("file-provider", "mount_not_found", message, 2));
        },
    };
    let registration = match projection::validate_virtual_projection_registration(
        &mount,
        target_os,
    ) {
        Ok(registration) => registration,
        Err(error) => {
            return Err(Failure { error, exit_code: 2 });
        },
    };
    match registration {
        VirtualProjectionRegistration::MacosFileProvider => match action {
            ProviderAction::Register => Ok(
                ProviderStep::MacosHelper(
                    MacosHelperCall {
                        action: "register",
                        args: file_provider::register_macos_args(&domain.id, &domain.display_name),
                        mount_id: mount.mount_id,
                    },
                ),
            ),
            ProviderAction::Open => Ok(
                ProviderStep::MacosHelper(
                    MacosHelperCall {
                        action: "open",
                        args: mount_id_args(&domain.id),
                        mount_id: mount.mount_id,
                    },
                ),
            ),
            ProviderAction::Lifecycle(action) => Err(
                Failure::new(
                    "file-provider",
                    "unsupported_platform",
                    text::concat3(
                        "file-provider ",
                        action.as_str(),
                        " is currently implemented for Windows Cloud Files mounts",
                    ),
                    2,
                ),
            ),
            _ => Err(run_unsupported()),
        },
        VirtualProjectionRegistration::LinuxFuse => match action {
            ProviderAction::Register => Ok(ProviderStep::LinuxRegister(mount)),
            ProviderAction::Lifecycle(action) => Ok(
                ProviderStep::LinuxLifecycle(LifecycleCall { mount, action }),
            ),
            ProviderAction::Open => Ok(ProviderStep::LinuxOpen(mount)),
            _ => Err(run_unsupported()),
        },
        VirtualProjectionRegistration::WindowsCloudFiles => match action {
            ProviderAction::Register => Ok(ProviderStep::WindowsRegister(mount)),
            ProviderAction::Lifecycle(action) => Ok(
                ProviderStep::WindowsLifecycle(LifecycleCall { mount, action }),
            ),
            ProviderAction::Open => Ok(ProviderStep::WindowsOpen(mount)),
            _ => Ok(ProviderStep::WindowsRun(mount)),
        },
    }
}

fn run_unsupported() -> (r: Failure)
    ensures
        model::is_failure(
            r,
            "file-provider"@,
            "unsupported_platform"@,
            "foreground provider run is only supported for Windows Cloud Files"@,
            2,
        ),
{
    Failure::new(
        "file-provider",
        "unsupported_platform",
        "foreground provider run is only supported for Windows Cloud Files".to_string(),
        2,
    )
}

fn mount_id_args(id: &str) -> (r: Vec<String>)
    ensures
        text::texts(r@) == seq!["--mount-id"@, id@],
{
    let mut args: Vec<String> = Vec::new();
    args.push("--mount-id".to_string());
    args.push(id.to_string());
    assert(text::texts(args@) =~= seq!["--mount-id"@, id@]);
    args
}

/// What the state says of a target.
#[derive(Debug, PartialEq, Eq)]
pub struct TargetState {
    pub mounts: Result<Vec<MountConfig>, StoreError>,
    pub resolved: Result<MountConfig, String>,
}

/// Why a target is not unregistered.
pub enum UnregisterRefusal {
    /// Its mount is in another projection.
    Projection(MountConfig),
    /// The mounts could not be read.
    Unreadable(StoreError),
    /// Other mounts share its root.
    Shared(Seq<MountConfig>, MountConfig),
    /// It means no mount, and some mounts are in the projection.
    Unknown(Seq<MountConfig>),
}

/// Why a target is not unregistered on a system that has one root for several
/// mounts. Where the target means no mount and the mounts cannot be read, it
/// goes on unless `strict`.
pub open spec fn unregister_refusal(
    style: PathStyle,
    state: TargetState,
    projection: ProjectionMode,
    strict: bool,
) -> Option<UnregisterRefusal> {
    match (state.resolved, state.mounts) {
        (Ok(mount), mounts) => if mount.projection != projection {
            Some(UnregisterRefusal::Projection(mount))
        } else {
            match mounts {
                Err(e) => Some(UnregisterRefusal::Unreadable(e)),
                Ok(list) => if leaves_siblings(style, list@, mount, projection) {
                    None
                } else {
                    Some(UnregisterRefusal::Shared(list@, mount))
                },
            }
        },
        (Err(_), Err(e)) => if strict {
            Some(UnregisterRefusal::Unreadable(e))
        } else {
            None
        },
        (Err(_), Ok(list)) => if ids_in(list@, projection).len() == 0 {
            None
        } else {
            Some(UnregisterRefusal::Unknown(list@))
        },
    }
}

/// Whether a failure says why a target is not unregistered.
pub open spec fn tells_refusal(
    style: PathStyle,
    failure: Failure,
    refusal: UnregisterRefusal,
    target: Seq<char>,
    projection: ProjectionMode,
    target_os: Seq<char>,
) -> bool {
    match refusal {
        UnregisterRefusal::Projection(mount) => refuses_projection(failure, mount, target_os),
        UnregisterRefusal::Unreadable(e) => model::is_failure(
            failure,
            "file-provider"@,
            "store_load_failed"@,
            e.message@,
            1,
        ),
        UnregisterRefusal::Shared(mounts, mount) => keeps_shared_root(
            style,
            failure.error,
            mounts,
            mount,
            projection,
        ) && failure.exit_code == 2,
        UnregisterRefusal::Unknown(mounts) => refuses_unknown(
            failure.error,
            mounts,
            target,
            projection,
        ) && failure.exit_code == 2,
    }
}

fn check_unregister(
    style: PathStyle,
    state: &TargetState,
    target: &str,
    projection: ProjectionMode,
    target_os: &str,
    strict: bool,
) -> (r: Result<(), Failure>)
    requires
        projection::registration_of(target_os@) matches Some(registration)
            && registration.projection() == projection,
    ensures
        match unregister_refusal(style, *state, projection, strict) {
            None => r is Ok,
            Some(refusal) => r matches Err(f) && tells_refusal(
                style,
                f,
                refusal,
                target@,
                projection,
                target_os@,
            ),
        },
{
    match &state.resolved {
        Ok(mount) => {
            if let Err(error) = projection::validate_virtual_projection_registration(
                mount,
                target_os,
            ) {
                return Err(Failure { error, exit_code: 2 });
            }
            match &state.mounts {
                Err(e) => Err(
                    Failure::new("file-provider", "store_load_failed", e.message.clone(), 1),
                ),
                Ok(mounts) => match guard_shared_virtual_projection_root_unregister(
                    style,
                    mounts,
                    mount,
                    projection,
                ) {
                    Ok(_) => Ok(()),
                    Err(error) => Err(Failure { error, exit_code: 2 }),
                },
            }
        },
        Err(_) => match &state.mounts {
            Err(e) => if strict {
                Err(Failure::new("file-provider", "store_load_failed", e.message.clone(), 1))
            } else {
                Ok(())
            },
            Ok(mounts) => match guard_unresolved_virtual_projection_unregister(
                mounts,
                target,
                projection,
            ) {
                Ok(_) => Ok(()),
                Err(error) => Err(Failure { error, exit_code: 2 }),
            },
        },
    }
}

/// The mount that a target means, where the state could be opened and has it.
pub open spec fn meant_mount(state: Option<TargetState>) -> Option<MountConfig> {
    match state {
        Some(s) => match s.resolved {
            Ok(mount) => Some(mount),
            Err(_) => None,
        },
        None => None,
    }
}

/// Whether `r` is how a target is unregistered. `state` is nothing where the
/// state could not be opened.
pub open spec fn is_unregister(
    style: PathStyle,
    target: Seq<char>,
    state: Option<TargetState>,
    target_os: Seq<char>,
    domain: MacosDomain,
    r: Result<ProviderStep, Failure>,
) -> bool {
    if target_os == "linux"@ {
        let refusal = match state {
            Some(s) => unregister_refusal(style, s, ProjectionMode::LinuxFuse, false),
            None => None,
        };
        match refusal {
            Some(refusal) => r matches Err(f) && tells_refusal(
                style,
                f,
                refusal,
                target,
                ProjectionMode::LinuxFuse,
                target_os,
            ),
            None => r matches Ok(ProviderStep::LinuxUnregister(u)) && u.mount == meant_mount(state)
                && u.target@ == target,
        }
    } else if target_os == "windows"@ {
        let refusal = match state {
            Some(s) => unregister_refusal(style, s, ProjectionMode::WindowsCloudFiles, true),
            None => None,
        };
        match refusal {
            Some(refusal) => r matches Err(f) && tells_refusal(
                style,
                f,
                refusal,
                target,
                ProjectionMode::WindowsCloudFiles,
                target_os,
            ),
            None => r matches Ok(ProviderStep::WindowsUnregister(id)) && id@ == (
            match meant_mount(state) {
                Some(mount) => mount.mount_id@,
                None => target,
            }),
        }
    } else {
        let id = match meant_mount(state) {
            Some(mount) => if mount.projection == ProjectionMode::MacosFileProvider {
                domain.id@
            } else {
                mount.mount_id@
            },
            None => target,
        };
        r matches Ok(step) && calls_macos_helper(step, "unregister"@, seq!["--mount-id"@, id], id)
    }
}

/// How a target is unregistered.
pub fn unregister_step(
    style: PathStyle,
    target: &str,
    state: Option<TargetState>,
    target_os: &str,
    domain: &MacosDomain,
) -> (r: Result<ProviderStep, Failure>)
    ensures
        is_unregister(style, target@, state, target_os@, *domain, r),
{
    proof {
        projection::lemma_registrations();
    }
    if text::same_text(target_os, "linux") {
        if let Some(s) = &state {
            if let Err(failure) = check_unregister(
                style,
                s,
                target,
                ProjectionMode::LinuxFuse,
                target_os,
                false,
            ) {
                return Err(failure);
            }
        }
        let mount = match state {
            Some(s) => match s.resolved {
                Ok(mount) => Some(mount),
                Err(_) => None,
            },
            None => None,
        };
        return Ok(
            ProviderStep::LinuxUnregister(LinuxUnregister { mount, target: target.to_string() }),
        );
    }
    if text::same_text(target_os, "windows") {
        if let Some(s) = &state {
            if let Err(failure) = check_unregister(
                style,
                s,
                target,
                ProjectionMode::WindowsCloudFiles,
                target_os,
                true,
            ) {
                return Err(failure);
            }
        }
        let id = match state {
            Some(s) => match s.resolved {
                Ok(mount) => mount.mount_id,
                Err(_) => target.to_string(),
            },
            None => target.to_string(),
        };
        return Ok(ProviderStep::WindowsUnregister(id));
    }
    let id = match state {
        Some(s) => match s.resolved {
            Ok(mount) => if mount.projection == ProjectionMode::MacosFileProvider {
                domain.id.clone()
            } else {
                mount.mount_id
            },
            Err(_) => target.to_string(),
        },
        None => target.to_string(),
    };
    let args = mount_id_args(&id);
    Ok(ProviderStep::MacosHelper(MacosHelperCall { action: "unregister", args, mount_id: id }))
}

/// Why a provider command failed on Windows.
pub fn windows_cloud_files_command_error(error: &WindowsCloudFilesHelperError) -> (r: CommandError)
    ensures
        if error is DaemonNotRunning {
            model::is_suggesting_error(
                r,
                "file-provider"@,
                error.code_text(),
                error.message_text(),
                "loc daemon start"@,
            )
        } else {
            model::is_command_error(
                r,
                "file-provider"@,
                error.code_text(),
                error.message_text(),
            )
        },
{
    let told = CommandError::new("file-provider", error.code(), error.message());
    match error {
        WindowsCloudFilesHelperError::DaemonNotRunning => told.with_suggested_command(
            "loc daemon start".to_string(),
        ),
        _ => told,
    }
}

/// Why a provider command failed on Linux.
pub fn linux_fuse_command_error(error: &LinuxFuseRegistrationError) -> (r: CommandError)
    ensures
        model::is_command_error(r, "file-provider"@, error.code_text(), error.message_text()),
{
    CommandError::new("file-provider", error.code(), error.message())
}

/// Why a provider command failed on macOS.
pub fn macos_helper_command_error(error: &FileProviderHelperError) -> (r: CommandError)
    ensures
        model::is_command_error(r, "file-provider"@, error.code_text(), error.message_text()),
{
    CommandError::new("file-provider", error.code(), error.message())
}

/// The unit that is taken away with a FUSE mount, and the root that is let go.
#[derive(Debug, PartialEq, Eq)]
pub struct LinuxFuseUnregistration {
    pub mount_id: String,
    pub service: String,
    pub unit_path: String,
    pub projection_root: Option<String>,
}

/// The identifier under which the unit of a target stands: that of the root of
/// its mount, else the target itself.
pub open spec fn unit_id(unregister: LinuxUnregister) -> Seq<char> {
    match unregister.mount {
        Some(mount) => file_provider::fuse_root_id(mount.projection_root@),
        None => unregister.target@,
    }
}

/// What is taken away with a FUSE mount.
pub fn linux_fuse_unregistration(
    style: PathStyle,
    unregister: &LinuxUnregister,
    home: &Option<String>,
) -> (r: Result<LinuxFuseUnregistration, LinuxFuseRegistrationError>)
    ensures
        match *home {
            None => r matches Err(LinuxFuseRegistrationError::EnvMissing(m)) && m@
                == "HOME is not set"@,
            Some(home) => r matches Ok(u) && u.service@ == file_provider::fuse_unit_name(
                unit_id(*unregister),
            ) && u.unit_path@ == paths::joined(
                style,
                paths::joined(style, home@, ".config/systemd/user"@),
                u.service@,
            ) && u.mount_id@ == (match unregister.mount {
                Some(mount) => mount.mount_id@,
                None => unregister.target@,
            }) && text::opt_text(u.projection_root) == (match unregister.mount {
                Some(mount) => Some(mount.projection_root@),
                None => None,
            }),
        },
{
    let (mount_id, id, projection_root) = match &unregister.mount {
        Some(mount) => (
            mount.mount_id.clone(),
            file_provider::linux_fuse_root_id(mount),
            Some(mount.projection_root.clone()),
        ),
        None => (unregister.target.clone(), unregister.target.clone(), None),
    };
    let service = file_provider::linux_fuse_unit_name(&id);
    match file_provider::linux_fuse_unit_path(style, home, &service) {
        Ok(unit_path) => Ok(
            LinuxFuseUnregistration { mount_id, service, unit_path, projection_root },
        ),
        Err(e) => Err(e),
    }
}

/// What a provider command reports.
#[derive(Debug, PartialEq, Eq)]
pub struct FileProviderCommandReport {
    pub ok: bool,
    pub command: &'static str,
    pub action: String,
    pub mount_id: Option<String>,
    pub helper: String,
    pub helper_report: Json,
}

/// The report on a provider command that a helper carried out.
pub fn file_provider_report(
    action: &str,
    mount_id: Option<String>,
    helper: &str,
    helper_report: Json,
) -> (r: FileProviderCommandReport)
    ensures
        r.ok,
        r.command@ == "file-provider"@,
        r.action@ == action@,
        r.mount_id == mount_id,
        r.helper@ == helper@,
        r.helper_report == helper_report,
{
    FileProviderCommandReport {
        ok: true,
        command: "file-provider",
        action: action.to_string(),
        mount_id,
        helper: helper.to_string(),
        helper_report,
    }
}

/// Whether a field holds a text under a key.
pub open spec fn is_text_field(field: JsonField, key: Seq<char>, value: Seq<char>) -> bool {
    field.key@ == key && (field.value matches Json::Text(t) && t@ == value)
}

fn text_field(key: &str, value: String) -> (r: JsonField)
    ensures
        is_text_field(r, key@, value@),
{
    JsonField { key: key.to_string(), value: Json::Text(value) }
}

/// The report on a FUSE mount that was registered.
pub fn linux_registered_report(
    mount: &MountConfig,
    registration: LinuxFuseRegistrationReport,
) -> (r: FileProviderCommandReport)
    ensures
        r.ok,
        r.command@ == "file-provider"@,
        r.action@ == "register"@,
        text::opt_text(r.mount_id) == Some(mount.mount_id@),
        r.helper@ == "systemctl --user"@,
        r.helper_report matches Json::Object(f) && f@.len() == 5 && is_text_field(
            f@[0],
            "message"@,
            "Linux FUSE mount registered for `"@ + mount.mount_id@ + "`"@,
        ) && is_text_field(f@[1], "service"@, registration.service@) && is_text_field(
            f@[2],
            "unit_path"@,
            registration.unit_path@,
        ) && is_text_field(f@[3], "mountpoint"@, registration.mountpoint@) && is_text_field(
            f@[4],
            "locality_fuse"@,
            registration.locality_fuse@,
        ),
{
    let mut fields: Vec<JsonField> = Vec::new();
    fields.push(
        text_field(
            "message",
            text::concat3("Linux FUSE mount registered for `", &mount.mount_id, "`"),
        ),
    );
    fields.push(text_field("service", registration.service));
    fields.push(text_field("unit_path", registration.unit_path));
    fields.push(text_field("mountpoint", registration.mountpoint));
    fields.push(text_field("locality_fuse", registration.locality_fuse));
    file_provider_report(
        "register",
        Some(mount.mount_id.clone()),
        "systemctl --user",
        Json::Object(fields),
    )
}

/// The report on a FUSE mount that was opened.
pub fn linux_opened_report(mount: &MountConfig) -> (r: FileProviderCommandReport)
    ensures
        r.ok,
        r.command@ == "file-provider"@,
        r.action@ == "open"@,
        text::opt_text(r.mount_id) == Some(mount.mount_id@),
        r.helper@ == "xdg-open"@,
        r.helper_report matches Json::Object(f) && f@.len() == 2 && is_text_field(
            f@[0],
            "message"@,
            "opened "@ + mount.root@,
        ) && is_text_field(f@[1], "mountpoint"@, mount.root@),
{
    let mut message = "opened ".to_string();
    message.append(&mount.root);
    let mut fields: Vec<JsonField> = Vec::new();
    fields.push(text_field("message", message));
    fields.push(text_field("mountpoint", mount.root.clone()));
    file_provider_report("open", Some(mount.mount_id.clone()), "xdg-open", Json::Object(fields))
}

/// The report on a FUSE mount that was unregistered.
pub fn linux_unregistered_report(done: LinuxFuseUnregistration) -> (r: FileProviderCommandReport)
    ensures
        r.ok,
        r.command@ == "file-provider"@,
        r.action@ == "unregister"@,
        text::opt_text(r.mount_id) == Some(done.mount_id@),
        r.helper@ == "systemctl --user"@,
        r.helper_report matches Json::Object(f) && f@.len() == 3 && is_text_field(
            f@[0],
            "message"@,
            "Linux FUSE mount unregistered for `"@ + done.mount_id@ + "`"@,
        ) && is_text_field(f@[1], "service"@, done.service@) && is_text_field(
            f@[2],
            "unit_path"@,
            done.unit_path@,
        ),
{
    let mut fields: Vec<JsonField> = Vec::new();
    fields.push(
        text_field(
            "message",
            text::concat3("Linux FUSE mount unregistered for `", &done.mount_id, "`"),
        ),
    );
    fields.push(text_field("service", done.service));
    fields.push(text_field("unit_path", done.unit_path));
    file_provider_report(
        "unregister",
        Some(done.mount_id),
        "systemctl --user",
        Json::Object(fields),
    )
}

} // verus!
