//! How commands fail.
use crate::create::CreateError;
use crate::diff::DiffError;
use crate::failures;
use crate::failures::{
    ConnectorResolveError, InfoErrorKind, InspectErrorKind, MountErrorKind, OkfExportErrorKind,
    PullErrorKind, RestoreErrorKind, SearchErrorKind, StatusErrorKind, TemplatePackErrorKind, Told,
};
use crate::history::HistoryError;
use crate::model::{Failure, LocalityError, LocalityErrorKind, StoreErrorKind};
use crate::text;
use vstd::prelude::*;

verus! {

/// A failure tells what it was told, of the command that failed.
pub proof fn law_failures_tell_what_they_were_told(
    failure: Failure,
    command: Seq<char>,
    told: Told,
    exit_code: i32,
)
    requires
        failures::tells(failure, command, told, exit_code),
    ensures
        !failure.error.ok,
        failure.error.command@ == command,
        failure.error.code@ == told.code@,
        failure.error.message@ == told.message@,
        failure.error.suggested_command is None,
        failure.exit_code == exit_code,
{
}

/// A source that could not be reached fails a command as it says, with what it suggests; only that
/// the mount is not there ends with a code of its own.
pub proof fn law_unreachable_sources_are_told(
    failure: Failure,
    command: Seq<char>,
    cause: ConnectorResolveError,
)
    requires
        failures::tells_connector_error(failure, command, cause),
    ensures
        !failure.error.ok,
        failure.error.command@ == command,
        failure.error.code@ == cause.code@,
        failure.error.message@ == cause.message@,
        text::opt_text(failure.error.suggested_command) == text::opt_text(
            cause.suggested_command,
        ),
        failure.exit_code == 2 <==> cause.code@ == "mount_not_found"@,
        failure.exit_code == 1 <==> cause.code@ != "mount_not_found"@,
{
}

/// An error of the core fails a command under the name of its kind, with its message; what is not
/// valid ends with a code of its own, and so does what is not there, at the source or at all.
pub proof fn law_errors_of_the_core_are_told(
    failure: Failure,
    command: Seq<char>,
    error: LocalityError,
)
    requires
        failures::tells_locality_error(failure, command, error),
    ensures
        !failure.error.ok,
        failure.error.command@ == command,
        failure.error.message@ == error.message@,
        failure.exit_code == 3 <==> error.kind is Validation,
        failure.exit_code == 5 <==> error.kind is RemoteNotFound || error.kind is NotImplemented,
        failure.exit_code == 1 <==> !(error.kind is Validation || error.kind is RemoteNotFound
            || error.kind is NotImplemented),
        failure.error.code@ == (match error.kind {
            LocalityErrorKind::Validation => "validation_failed"@,
            LocalityErrorKind::Conflict => "conflict"@,
            LocalityErrorKind::Guardrail => "guardrail"@,
            LocalityErrorKind::RemoteNotFound => "remote_not_found"@,
            LocalityErrorKind::RateLimited => "rate_limited"@,
            LocalityErrorKind::InvalidState => "invalid_state"@,
            LocalityErrorKind::UpdateRequired => "update_required"@,
            LocalityErrorKind::Unsupported => "unsupported"@,
            LocalityErrorKind::NotImplemented => "not_implemented"@,
            LocalityErrorKind::Io => "io_error"@,
        }),
{
}

/// A preview that failed is told with its code and message; only that no mount holds the path ends
/// with a code of its own.
pub proof fn law_failed_previews_are_told(failure: Failure, command: Seq<char>, error: DiffError)
    requires
        failures::tells_diff_error(failure, command, error),
    ensures
        !failure.error.ok,
        failure.error.command@ == command,
        failure.error.code@ == error.code_text(),
        failure.error.message@ == error.message_text(),
        failure.exit_code == 2 <==> error is MountNotFound,
        failure.exit_code == 1 <==> !(error is MountNotFound),
{
}

/// What was named and is not there ends every command with the same code, and what failed otherwise
/// with another.
pub proof fn law_what_is_not_there_has_a_code_of_its_own(
    history: HistoryError,
    pull: PullErrorKind,
    inspect: InspectErrorKind,
    restore: RestoreErrorKind,
    status: StatusErrorKind,
    info: InfoErrorKind,
)
    ensures
        failures::history_exit_code(history) == 2 <==> history is MountNotFound || history
            is JournalNotFound || (history is Store && history->Store_0.kind is EntityPathMissing),
        failures::history_exit_code(history) == 1 || failures::history_exit_code(history) == 2,
        failures::pull_exit_code(pull) == 2 <==> pull is MountNotFound || pull
            == PullErrorKind::Store(StoreErrorKind::EntityPathMissing),
        failures::pull_exit_code(pull) == 1 || failures::pull_exit_code(pull) == 2,
        failures::inspect_exit_code(inspect) == 2 <==> inspect is MountNotFound || inspect
            is UnsupportedEntity || inspect == InspectErrorKind::Store(
            StoreErrorKind::EntityPathMissing,
        ),
        failures::inspect_exit_code(inspect) == 1 || failures::inspect_exit_code(inspect) == 2,
        failures::restore_exit_code(restore) == 2 <==> restore is MountNotFound || restore
            == RestoreErrorKind::Store(StoreErrorKind::EntityPathMissing),
        failures::restore_exit_code(restore) == 4 <==> restore is ConflictedRequiresForce,
        failures::restore_exit_code(restore) == 1 || failures::restore_exit_code(restore) == 2
            || failures::restore_exit_code(restore) == 4,
        failures::status_exit_code(status) == 2 <==> status is MountNotFound || status
            is MountIdNotFound || status == StatusErrorKind::Store(
            StoreErrorKind::EntityPathMissing,
        ),
        failures::status_exit_code(status) == 1 || failures::status_exit_code(status) == 2,
        failures::info_exit_code(info) == 2 <==> info is MountNotFound || info
            == InfoErrorKind::Store(StoreErrorKind::EntityPathMissing),
        failures::info_exit_code(info) == 1 || failures::info_exit_code(info) == 2,
{
}

/// What was asked for wrongly ends a command with one code, and what failed in doing it with
/// another.
pub proof fn law_wrong_requests_have_a_code_of_their_own(
    create: CreateError,
    export: OkfExportErrorKind,
    mount: MountErrorKind,
    search: SearchErrorKind,
    template: TemplatePackErrorKind,
)
    ensures
        failures::create_exit_code(create) == 1 <==> create is Store || create is WriteFile
            || create is VirtualStateRootRequired,
        failures::create_exit_code(create) == 1 || failures::create_exit_code(create) == 2,
        failures::okf_export_exit_code(export) == 1 <==> export is WalkDirectory || export
            is WriteFile || export is YamlSerialize,
        failures::okf_export_exit_code(export) == 1 || failures::okf_export_exit_code(export)
            == 2,
        failures::mount_exit_code(mount) == 2 <==> mount is MountPointConflict,
        failures::mount_exit_code(mount) == 1 <==> mount is Other,
        failures::search_exit_code(search) == 1 <==> search is Store,
        failures::search_exit_code(search) == 2 <==> search is EmptyQuery || search
            is InvalidLimit,
        failures::template_exit_code(template) == 1 <==> template is Io,
        failures::template_exit_code(template) == 1 || failures::template_exit_code(template)
            == 2,
{
}

} // verus!
