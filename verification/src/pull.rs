//! Pulling: when it goes without the daemon, and what it signals and reports.
use vstd::prelude::*;

use crate::daemon_report::{DaemonReport, DaemonUnavailableReason};
use crate::diff::EntityKind;
use crate::failures;
use crate::failures::{ConnectorResolveError, PullErrorKind, Told};
use crate::model;
use crate::model::{
    CommandError, EntityRecord, Failure, MountConfig, ProjectionMode, StoreError,
};
use crate::paths;
use crate::paths::PathStyle;
use crate::text;
use crate::undo::IndexedEntity;

verus! {

/// A file that a pull left with conflict markers.
#[derive(Debug, PartialEq, Eq)]
pub struct PullConflict {
    pub path: String,
}

/// What came of a pull.
#[derive(Debug, PartialEq, Eq)]
pub struct PullReport {
    pub ok: bool,
    pub command: &'static str,
    pub via: String,
    pub target: String,
    pub mount_id: String,
    pub enumerated: usize,
    pub hydrated: usize,
    pub stubbed: usize,
    pub skipped_dirty: usize,
    pub conflicts: Vec<PullConflict>,
}

/// The exit code of a pull.
pub fn pull_report_exit_code(report: &PullReport) -> (r: i32)
    ensures
        r == (if report.ok {
            0i32
        } else {
            3i32
        }),
{
    if report.ok {
        0
    } else {
        3
    }
}

/// Whether an error refuses to pull without the daemon.
pub open spec fn refuses_direct_pull(
    error: CommandError,
    reason: DaemonUnavailableReason,
    mount: Option<MountConfig>,
    timeout_ms: u64,
) -> bool {
    match (reason, mount) {
        (DaemonUnavailableReason::TimedOut, _) => model::is_suggesting_error(
            error,
            "pull"@,
            "daemon_timeout"@,
            "localityd did not respond within "@ + text::decimal(timeout_ms as nat)
                + "ms after the pull request was submitted; refusing direct fallback to avoid racing daemon hydration"@,
            "loc daemon restart"@,
        ),
        (DaemonUnavailableReason::NotAvailable, Some(m)) => model::is_suggesting_error(
            error,
            "pull"@,
            "daemon_required"@,
            "mount `"@ + m.mount_id@ + "` uses projection `"@ + m.projection.name()
                + "`; pull for virtual projections must run through localityd so the provider cache stays serialized"@,
            "loc daemon restart"@,
        ),
        _ => false,
    }
}

/// Whether a pull may go without the daemon: not where the daemon may still be
/// at it, and not into a virtual filesystem, unless requests are switched off.
pub open spec fn may_pull_directly(
    reason: DaemonUnavailableReason,
    mount: Option<MountConfig>,
) -> bool {
    match reason {
        DaemonUnavailableReason::TimedOut => false,
        DaemonUnavailableReason::NotAvailable => match mount {
            Some(m) => !m.projection.uses_virtual_filesystem(),
            None => true,
        },
        DaemonUnavailableReason::Disabled => true,
    }
}

/// Why a pull may not go without the daemon.
pub fn pull_direct_fallback_error(
    reason: DaemonUnavailableReason,
    mount: &Option<MountConfig>,
    timeout_ms: u64,
) -> (r: Option<CommandError>)
    ensures
        match r {
            None => may_pull_directly(reason, *mount),
            Some(error) => !may_pull_directly(reason, *mount) && refuses_direct_pull(
                error,
                reason,
                *mount,
                timeout_ms,
            ),
        },
{
    match reason {
        DaemonUnavailableReason::TimedOut => Some(
            CommandError::new(
                "pull",
                "daemon_timeout",
                text::concat3(
                    "localityd did not respond within ",
                    text::decimal_text(timeout_ms as u128).as_str(),
                    "ms after the pull request was submitted; refusing direct fallback to avoid racing daemon hydration",
                ),
            ).with_suggested_command("loc daemon restart".to_string()),
        ),
        DaemonUnavailableReason::NotAvailable => match mount {
            Some(mount) => {
                if !mount.projection.uses_virtual_filesystem() {
                    return None;
                }
                let mut message = text::concat3("mount `", &mount.mount_id, "` uses projection `");
                message.append(mount.projection.as_str());
                message.append(
                    "`; pull for virtual projections must run through localityd so the provider cache stays serialized",
                );
                Some(
                    CommandError::new("pull", "daemon_required", message).with_suggested_command(
                        "loc daemon restart".to_string(),
                    ),
                )
            },
            None => None,
        },
        DaemonUnavailableReason::Disabled => None,
    }
}

/// What a pull does next.
#[derive(Debug, PartialEq, Eq)]
pub enum PullStep {
    Report(PullReport),
    Fail(Failure),
    /// Find the mount and, where nothing speaks against it, pull without the
    /// daemon.
    PullDirectly(DaemonUnavailableReason),
}

/// What follows on the answer of the daemon to a pull.
pub fn after_pull_request(reply: DaemonReport<PullReport>, timeout_ms: u64) -> (r: PullStep)
    ensures
        match reply {
            DaemonReport::Report(report) => r == PullStep::Report(report),
            DaemonReport::Error(e) => r matches PullStep::Fail(f) && model::is_failure(
                f,
                "pull"@,
                e.code@,
                e.message@,
                e.exit_code,
            ),
            DaemonReport::Unavailable(reason) => if may_pull_directly(reason, None) {
                r == PullStep::PullDirectly(reason)
            } else {
                r matches PullStep::Fail(f) && refuses_direct_pull(
                    f.error,
                    reason,
                    None,
                    timeout_ms,
                ) && f.exit_code == 1
            },
        },
{
    match reply {
        DaemonReport::Report(report) => PullStep::Report(report),
        DaemonReport::Error(e) => PullStep::Fail(
            Failure::new("pull", &e.code, e.message, e.exit_code),
        ),
        DaemonReport::Unavailable(reason) => match pull_direct_fallback_error(
            reason,
            &None,
            timeout_ms,
        ) {
            Some(error) => PullStep::Fail(Failure { error, exit_code: 1 }),
            None => PullStep::PullDirectly(reason),
        },
    }
}

/// What a pull without the daemon came to.
#[derive(Debug, PartialEq, Eq)]
pub enum DirectPull {
    NoSource(ConnectorResolveError),
    Failed(PullErrorKind, Told),
    Pulled(PullReport),
}

/// What follows once the mount of the pulled path has been looked up.
pub fn after_mount_lookup(
    reason: DaemonUnavailableReason,
    mount: &Option<MountConfig>,
    timeout_ms: u64,
) -> (r: PullStep)
    ensures
        if may_pull_directly(reason, *mount) {
            r == PullStep::PullDirectly(reason)
        } else {
            r matches PullStep::Fail(f) && refuses_direct_pull(
                f.error,
                reason,
                *mount,
                timeout_ms,
            ) && f.exit_code == 1
        },
{
    match pull_direct_fallback_error(reason, mount, timeout_ms) {
        Some(error) => PullStep::Fail(Failure { error, exit_code: 1 }),
        None => PullStep::PullDirectly(reason),
    }
}

/// What follows on a pull without the daemon.
pub fn after_direct_pull(outcome: DirectPull) -> (r: PullStep)
    ensures
        match outcome {
            DirectPull::NoSource(e) => r matches PullStep::Fail(f)
                && failures::tells_connector_error(f, "pull"@, e),
            DirectPull::Failed(kind, told) => r matches PullStep::Fail(f) && failures::tells(
                f,
                "pull"@,
                told,
                failures::pull_exit_code(kind),
            ),
            DirectPull::Pulled(report) => r == PullStep::Report(report),
        },
{
    match outcome {
        DirectPull::NoSource(e) => PullStep::Fail(failures::connector_failure("pull", &e)),
        DirectPull::Failed(kind, told) => PullStep::Fail(failures::pull_failure(kind, &told)),
        DirectPull::Pulled(report) => PullStep::Report(report),
    }
}

/// Where the daemon may still be at work, nothing is pulled beside it, whatever
/// the mount; and a virtual projection is left to the daemon unless it is
/// switched off.
pub proof fn law_direct_pull_does_not_race_the_daemon(
    reason: DaemonUnavailableReason,
    mount: Option<MountConfig>,
)
    ensures
        reason is TimedOut ==> !may_pull_directly(reason, mount),
        mount matches Some(m) && m.projection != ProjectionMode::PlainFiles && reason is NotAvailable
            ==> !may_pull_directly(reason, mount),
{
}

/// Whether a pull changed what a virtual filesystem lists.
pub fn changes_listing(report: &PullReport) -> (r: bool)
    ensures
        r == (report.enumerated > 0 || report.stubbed > 0),
{
    report.enumerated > 0 || report.stubbed > 0
}

/// Whether a page keeps its children at a path.
pub open spec fn contains_children_at(
    style: PathStyle,
    page: IndexedEntity,
    relative: Seq<char>,
) -> bool {
    page.record.kind is Page && paths::same(style, page.container@, relative)
}

/// The first page that keeps its children at a path.
pub open spec fn first_container(
    style: PathStyle,
    pages: Seq<IndexedEntity>,
    relative: Seq<char>,
) -> Option<
    IndexedEntity,
>
    decreases pages.len(),
{
    if pages.len() == 0 {
        None
    } else if contains_children_at(style, pages[0], relative) {
        Some(pages[0])
    } else {
        first_container(style, pages.skip(1), relative)
    }
}

/// What a virtual filesystem calls the place that a pull was for: the root, an
/// entity, the children of a page, or the mount itself.
pub open spec fn signal_target(
    style: PathStyle,
    relative: Seq<char>,
    entity: Option<EntityRecord>,
    pages: Seq<IndexedEntity>,
    root_identifier: Seq<char>,
    mount_point_identifier: Seq<char>,
) -> Seq<char> {
    if relative.len() == 0 {
        root_identifier
    } else {
        match entity {
            Some(e) => match e.kind {
                EntityKind::Database | EntityKind::Page => e.remote_id@,
                _ => "path:"@ + e.path@,
            },
            None => match first_container(style, pages, relative) {
                Some(page) => "children:"@ + page.record.remote_id@,
                None => mount_point_identifier,
            },
        }
    }
}

/// What is told to refresh after a pull, if anything. `relative` is where the
/// pulled path lies in the mount, `entity` what the store has there, `pages`
/// every entity of the mount.
pub fn pull_virtual_projection_signal_target(
    style: PathStyle,
    mount: &Result<Option<MountConfig>, StoreError>,
    relative: &Option<String>,
    entity: &Option<EntityRecord>,
    pages: &Vec<IndexedEntity>,
    root_identifier: &str,
    mount_point_identifier: &str,
) -> (r: Option<String>)
    ensures
        match (*mount, *relative) {
            (Ok(Some(m)), Some(path)) => if m.projection == ProjectionMode::MacosFileProvider {
                r matches Some(identifier) && identifier@ == signal_target(
                    style,
                    path@,
                    *entity,
                    pages@,
                    root_identifier@,
                    mount_point_identifier@,
                )
            } else {
                r is None
            },
            _ => r is None,
        },
{
    let mount = match mount {
        Ok(Some(mount)) => mount,
        _ => {
            return None;
        },
    };
    if mount.projection != ProjectionMode::MacosFileProvider {
        return None;
    }
    let relative = match relative {
        Some(relative) => relative,
        None => {
            return None;
        },
    };
    if relative.as_str().is_empty() {
        return Some(root_identifier.to_string());
    }
    if let Some(entity) = entity {
        return match entity.kind {
            EntityKind::Database | EntityKind::Page => Some(entity.remote_id.clone()),
            _ => {
                let mut identifier = "path:".to_string();
                identifier.append(&entity.path);
                Some(identifier)
            },
        };
    }
    let mut i: usize = 0;
    assert(pages@.skip(0) == pages@);
    while i < pages.len()
        invariant
            i <= pages.len(),
            first_container(style, pages@, relative@) == first_container(
                style,
                pages@.skip(i as int),
                relative@,
            ),
        ensures
            i == pages.len() ==> first_container(style, pages@, relative@) is None,
            i < pages.len() ==> first_container(style, pages@, relative@) == Some(pages@[i as int]),
        decreases pages.len() - i,
    {
        assert(pages@.skip(i as int)[0] == pages@[i as int]);
        assert(pages@.skip(i as int).skip(1) == pages@.skip(i + 1));
        let is_page = match pages[i].record.kind {
            EntityKind::Page => true,
            _ => false,
        };
        if is_page && paths::same_path(style, &pages[i].container, relative) {
            break;
        }
        i += 1;
    }
    if i < pages.len() {
        let mut identifier = "children:".to_string();
        identifier.append(&pages[i].record.remote_id);
        return Some(identifier);
    }
    Some(mount_point_identifier.to_string())
}

/// A path as it is given to the daemon: absolute, unless the current directory
/// is not known.
pub fn absolute_command_path(
    style: PathStyle,
    path: &str,
    current_dir: &Option<String>,
) -> (r: String)
    ensures
        r@ == (match *current_dir {
            Some(dir) => if paths::absolute(style, path@) {
                path@
            } else {
                paths::joined(style, dir@, path@)
            },
            None => path@,
        }),
{
    if paths::is_absolute(style, path) {
        return path.to_string();
    }
    match current_dir {
        Some(dir) => paths::join(style, dir, path),
        None => path.to_string(),
    }
}

} // verus!
