//! Which program shows a mount, and what is done with it.
use crate::file_provider;
use crate::model::{MountConfig, ProjectionMode, StoreError};
use crate::paths;
use crate::paths::PathStyle;
use crate::projection;
use crate::projection::VirtualProjectionRegistration;
use crate::providing;
use crate::providing::{LinuxUnregister, MacosDomain, ProviderStep, TargetState};
use crate::requests::ProviderAction;
use crate::text;
use vstd::prelude::*;

verus! {

proof fn lemma_systems()
    ensures
        "macos"@ != "linux"@,
        "macos"@ != "windows"@,
        "linux"@ != "windows"@,
{
    reveal_strlit("macos");
    reveal_strlit("linux");
    reveal_strlit("windows");
    assert("macos"@[0] == 'm');
    assert("linux"@[0] == 'l');
    assert("windows"@[0] == 'w');
}

/// Each operating system has a projection of its own, and plain files are shown on all.
pub proof fn law_each_system_has_its_projection(mode: ProjectionMode, target_os: Seq<char>)
    ensures
        projection::is_supported(mode, target_os) <==> match mode {
            ProjectionMode::PlainFiles => true,
            ProjectionMode::MacosFileProvider => target_os == "macos"@,
            ProjectionMode::LinuxFuse => target_os == "linux"@,
            ProjectionMode::WindowsCloudFiles => target_os == "windows"@,
        },
        projection::registration_of(target_os) is Some <==> target_os == "macos"@ || target_os
            == "linux"@ || target_os == "windows"@,
        projection::registration_of(target_os) matches Some(r) ==> {
            &&& r is MacosFileProvider <==> target_os == "macos"@
            &&& r is LinuxFuse <==> target_os == "linux"@
            &&& r is WindowsCloudFiles <==> target_os == "windows"@
        },
{
    lemma_systems();
}

/// A mount is shown as asked for, where the operating system can do that, and as plain files where
/// nothing was asked for.
pub proof fn law_mounts_are_shown_as_asked_for(value: Option<Seq<char>>, target_os: Seq<char>)
    ensures
        value is None ==> projection::chosen_projection(value, target_os)
            == Ok::<ProjectionMode, Seq<char>>(ProjectionMode::PlainFiles),
        projection::chosen_projection(value, target_os) matches Ok(mode) ==> {
            &&& projection::is_supported(mode, target_os)
            &&& value is Some ==> value->0 == (match mode {
                ProjectionMode::PlainFiles => "plain-files"@,
                ProjectionMode::MacosFileProvider => "macos-file-provider"@,
                ProjectionMode::LinuxFuse => "linux-fuse"@,
                ProjectionMode::WindowsCloudFiles => "windows-cloud-files"@,
            })
        },
        projection::chosen_projection(value, target_os) is Err ==> value is Some && forall|
            mode: ProjectionMode,
        |
            projection::is_supported(mode, target_os) ==> value->0 != #[trigger]
            projection::cli_value(mode),
{
    if let Some(v) = value {
        assert forall|mode: ProjectionMode|
            projection::chosen_projection(value, target_os) is Err && projection::is_supported(
                mode,
                target_os,
            ) implies v != #[trigger] projection::cli_value(mode) by {
            projection::law_cli_values_read_back(mode);
        }
    }
}

/// A mount is taken up by its program at once exactly where that program is the one of the
/// operating system, needs no more, and the daemon is not switched off.
pub proof fn law_mounts_are_taken_up_at_once(
    mode: ProjectionMode,
    target_os: Seq<char>,
    daemon_disabled: bool,
)
    ensures
        projection::auto_registration(mode, target_os, daemon_disabled) is Some
            <==> !daemon_disabled && ((mode is LinuxFuse && target_os == "linux"@) || (mode
            is WindowsCloudFiles && target_os == "windows"@)),
        projection::auto_registration(mode, target_os, daemon_disabled) matches Some(r) ==> (r
            is LinuxFuse <==> mode is LinuxFuse) && (r is WindowsCloudFiles <==> mode
            is WindowsCloudFiles),
{
}

proof fn lemma_with_id(mounts: Seq<MountConfig>, id: Seq<char>)
    ensures
        match providing::mount_with_id(mounts, id) {
            Some(m) => exists|i: int|
                0 <= i < mounts.len() && #[trigger] mounts[i] == m && m.mount_id@ == id
                    && forall|j: int| 0 <= j < i ==> (#[trigger] mounts[j]).mount_id@ != id,
            None => forall|i: int| 0 <= i < mounts.len() ==> (#[trigger] mounts[i]).mount_id@ != id,
        },
    decreases mounts.len(),
{
    if mounts.len() > 0 {
        if mounts[0].mount_id@ == id {
            let m = mounts[0];
            assert(mounts[0] == m && forall|j: int|
                0 <= j < 0 ==> (#[trigger] mounts[j]).mount_id@ != id);
        } else {
            let rest = mounts.skip(1);
            lemma_with_id(rest, id);
            match providing::mount_with_id(rest, id) {
                Some(m) => {
                    let i = choose|i: int|
                        0 <= i < rest.len() && #[trigger] rest[i] == m && m.mount_id@ == id
                            && forall|j: int|
                            0 <= j < i ==> (#[trigger] rest[j]).mount_id@ != id;
                    assert(mounts[i + 1] == m);
                    assert forall|j: int| 0 <= j < i + 1 implies (#[trigger] mounts[j]).mount_id@
                        != id by {
                        if j > 0 {
                            assert(mounts[j] == rest[j - 1]);
                        }
                    }
                },
                None => {
                    assert forall|i: int| 0 <= i < mounts.len() implies (
                    #[trigger] mounts[i]).mount_id@ != id by {
                        if i > 0 {
                            assert(mounts[i] == rest[i - 1]);
                        }
                    }
                },
            }
        }
    }
}

/// What a command means by a target is the mount with that identifier and, where there is none, the
/// mount that the path is in.
pub proof fn law_targets_mean_their_mount(
    mounts: Result<Vec<MountConfig>, StoreError>,
    target: Seq<char>,
    at_path: Result<Option<MountConfig>, String>,
    r: Result<MountConfig, String>,
)
    requires
        providing::is_meant(mounts, target, at_path, r),
    ensures
        r matches Ok(m) ==> mounts is Ok && {
            ||| m.mount_id@ == target && exists|i: int|
                0 <= i < mounts->Ok_0@.len() && (#[trigger] mounts->Ok_0@[i]).mount_id@ == target
                    && m.root@ == mounts->Ok_0@[i].root@ && m.projection
                    == mounts->Ok_0@[i].projection && m.projection_root@
                    == mounts->Ok_0@[i].projection_root@
            ||| (forall|i: int|
                0 <= i < mounts->Ok_0@.len() ==> (#[trigger] mounts->Ok_0@[i]).mount_id@
                    != target) && (at_path matches Ok(Some(at)) && m.mount_id@ == at.mount_id@
                && m.root@ == at.root@ && m.projection == at.projection && m.projection_root@
                == at.projection_root@)
        },
        r is Err ==> mounts is Err || ((forall|i: int|
            0 <= i < mounts->Ok_0@.len() ==> (#[trigger] mounts->Ok_0@[i]).mount_id@ != target)
            && !(at_path matches Ok(Some(_)))),
{
    if let Ok(list) = mounts {
        lemma_with_id(list@, target);
    }
}

proof fn lemma_ids_in(mounts: Seq<MountConfig>, mode: ProjectionMode)
    ensures
        providing::ids_in(mounts, mode).len() == 0 <==> forall|i: int|
            0 <= i < mounts.len() ==> (#[trigger] mounts[i]).projection != mode,
    decreases mounts.len(),
{
    reveal(Seq::filter);
    if mounts.len() > 0 {
        let front = mounts.drop_last();
        lemma_ids_in(front, mode);
        if providing::ids_in(mounts, mode).len() == 0 {
            assert forall|i: int| 0 <= i < mounts.len() implies (#[trigger] mounts[i]).projection
                != mode by {
                if i < front.len() {
                    assert(front[i] == mounts[i]);
                }
            }
        }
        if forall|i: int| 0 <= i < mounts.len() ==> (#[trigger] mounts[i]).projection != mode {
            assert forall|i: int| 0 <= i < front.len() implies (#[trigger] front[i]).projection
                != mode by {
                assert(front[i] == mounts[i]);
            }
            assert(mounts[mounts.len() - 1].projection != mode);
        }
    }
}

/// Whether unregistering what a state means takes a program from no other mount: no other mount is
/// shown at the same root by it and, where no mount is meant, none is shown by it at all.
pub open spec fn harms_nobody(style: PathStyle, state: TargetState, mode: ProjectionMode) -> bool {
    match (state.resolved, state.mounts) {
        (Ok(mount), Ok(list)) => mount.projection == mode && forall|i: int|
            0 <= i < list@.len() ==> {
                ||| (#[trigger] list@[i]).mount_id@ == mount.mount_id@
                ||| list@[i].projection != mode
                ||| !paths::same(style, list@[i].projection_root@, mount.projection_root@)
            },
        (Err(_), Ok(list)) => forall|i: int|
            0 <= i < list@.len() ==> (#[trigger] list@[i]).projection != mode,
        _ => false,
    }
}

/// Where the mounts could be read, a program is unregistered exactly where that takes it from no
/// other mount.
pub proof fn law_unregistering_harms_nobody(
    style: PathStyle,
    state: TargetState,
    mode: ProjectionMode,
    strict: bool,
)
    requires
        state.mounts is Ok,
    ensures
        providing::unregister_refusal(style, state, mode, strict) is None ==> harms_nobody(
            style,
            state,
            mode,
        ),
        state.resolved is Err && harms_nobody(style, state, mode) ==> providing::unregister_refusal(
            style,
            state,
            mode,
            strict,
        ) is None,
        state.resolved matches Ok(m) && m.projection != mode ==> providing::unregister_refusal(
            style,
            state,
            mode,
            strict,
        ) is Some,
{
    let list = state.mounts->Ok_0;
    lemma_ids_in(list@, mode);
    if let Ok(mount) = state.resolved {
        if providing::unregister_refusal(style, state, mode, strict) is None {
            assert forall|i: int| 0 <= i < list@.len() implies ({
                ||| (#[trigger] list@[i]).mount_id@ == mount.mount_id@
                ||| list@[i].projection != mode
                ||| !paths::same(style, list@[i].projection_root@, mount.projection_root@)
            }) by {
                providing::law_unregistering_stops_no_sibling(style, list@, mount, mode, i);
            }
        }
    }
}

/// Where the mounts cannot be read, nothing is unregistered that is known to be a mount; and on
/// Windows nothing at all.
pub proof fn law_unreadable_mounts_are_left_alone(
    style: PathStyle,
    state: TargetState,
    mode: ProjectionMode,
    strict: bool,
)
    requires
        state.mounts is Err,
        strict || state.resolved is Ok,
    ensures
        providing::unregister_refusal(style, state, mode, strict) is Some,
{
}

/// What is unregistered is what was meant: on Linux and Windows by the program of the operating
/// system, and elsewhere by the helper, under the identifier of the mount.
pub proof fn law_what_was_meant_is_unregistered(
    style: PathStyle,
    target: Seq<char>,
    state: Option<TargetState>,
    target_os: Seq<char>,
    domain: MacosDomain,
    step: ProviderStep,
)
    requires
        providing::is_unregister(style, target, state, target_os, domain, Ok(step)),
    ensures
        target_os == "linux"@ ==> (step matches ProviderStep::LinuxUnregister(u) && u.target@
            == target && (state is Some && state->0.resolved is Ok ==> u.mount == Some(
            state->0.resolved->Ok_0,
        )) && (state is None || state->0.resolved is Err ==> u.mount is None)),
        target_os == "windows"@ ==> (step matches ProviderStep::WindowsUnregister(id) && id@ == (
        if state is Some && state->0.resolved is Ok {
            state->0.resolved->Ok_0.mount_id@
        } else {
            target
        })),
        target_os != "linux"@ && target_os != "windows"@ ==> (
        step matches ProviderStep::MacosHelper(c) && c.action@ == "unregister"@ && (state is None
            || state->0.resolved is Err ==> c.mount_id@ == target) && (state is Some
            && state->0.resolved is Ok && !(state->0.resolved->Ok_0.projection
            is MacosFileProvider) ==> c.mount_id@ == state->0.resolved->Ok_0.mount_id@) && (state
            is Some && state->0.resolved is Ok && state->0.resolved->Ok_0.projection
            is MacosFileProvider ==> c.mount_id@ == domain.id@)),
{
    lemma_systems();
}

/// What is done with a mount is what was asked for, by the program that shows it.
pub proof fn law_steps_are_taken_by_the_right_program(
    step: ProviderStep,
    registration: VirtualProjectionRegistration,
    action: ProviderAction,
    mount: MountConfig,
    domain: MacosDomain,
)
    requires
        providing::is_step(step, registration, action, mount, domain),
    ensures
        registration is MacosFileProvider ==> (step matches ProviderStep::MacosHelper(c)
            && c.mount_id@ == mount.mount_id@ && (action is Register <==> c.action@
            == "register"@) && (action is Open <==> c.action@ == "open"@) && c.args@.len() >= 2
            && c.args@[0]@ == "--mount-id"@ && c.args@[1]@ == domain.id@),
        registration is LinuxFuse ==> {
            &&& action is Register <==> step is LinuxRegister
            &&& action is Open <==> step is LinuxOpen
            &&& action is Lifecycle <==> step is LinuxLifecycle
            &&& step matches ProviderStep::LinuxRegister(m) ==> m == mount
            &&& step matches ProviderStep::LinuxOpen(m) ==> m == mount
            &&& step matches ProviderStep::LinuxLifecycle(c) ==> c.mount == mount && action
                == ProviderAction::Lifecycle(c.action)
        },
        registration is WindowsCloudFiles ==> {
            &&& action is Register <==> step is WindowsRegister
            &&& action is Open <==> step is WindowsOpen
            &&& action is Run <==> step is WindowsRun
            &&& action is Lifecycle <==> step is WindowsLifecycle
            &&& step matches ProviderStep::WindowsRegister(m) ==> m == mount
            &&& step matches ProviderStep::WindowsOpen(m) ==> m == mount
            &&& step matches ProviderStep::WindowsRun(m) ==> m == mount
            &&& step matches ProviderStep::WindowsLifecycle(c) ==> c.mount == mount && action
                == ProviderAction::Lifecycle(c.action)
        },
{
    reveal_strlit("register");
    reveal_strlit("open");
    assert("register"@.len() == 8);
    assert("open"@.len() == 4);
    if let ProviderStep::MacosHelper(c) = step {
        let a = text::texts(c.args@);
        assert(a.len() == c.args@.len());
        if registration is MacosFileProvider {
            assert(a[0] == c.args@[0]@);
            assert(a[1] == c.args@[1]@);
        }
    }
}

/// What cannot be done is refused: running in the foreground but on Windows, and starting or
/// stopping what macOS starts and stops itself.
pub proof fn law_what_cannot_be_done_is_refused(
    registration: VirtualProjectionRegistration,
    action: ProviderAction,
)
    ensures
        providing::unsupported(registration, action) is Some <==> {
            ||| action is Run && !(registration is WindowsCloudFiles)
            ||| action is Lifecycle && registration is MacosFileProvider
        },
{
}

/// The unit that is removed is that of the root of the mount, where a mount is meant.
pub proof fn law_units_are_removed_by_their_root(unregister: LinuxUnregister)
    ensures
        unregister.mount matches Some(m) ==> providing::unit_id(unregister)
            == file_provider::fuse_root_id(m.projection_root@),
        unregister.mount is None ==> providing::unit_id(unregister) == unregister.target@,
{
}

} // verus!
