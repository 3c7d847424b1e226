//! How failures are told: their code, their words and the exit code.
use vstd::prelude::*;

use crate::connect::ConnectError;
use crate::create::CreateError;
use crate::daemon::DaemonControlError;
use crate::diff::{DiffError, DiffReport};
use crate::history::HistoryError;
use crate::model;
use crate::model::{
    CommandError, Failure, LocalityError, LocalityErrorKind, StoreErrorKind,
};
use crate::quoting;
use crate::text;

verus! {

/// The words of a failure that another part of the program reports.
#[derive(Debug, PartialEq, Eq)]
pub struct Told {
    pub code: String,
    pub message: String,
}

/// Whether a failure tells these words under a command and leaves with an exit
/// code.
pub open spec fn tells(failure: Failure, command: Seq<char>, told: Told, exit_code: i32) -> bool {
    model::is_failure(failure, command, told.code@, told.message@, exit_code)
}

fn telling(command: &'static str, told: &Told, exit_code: i32) -> (r: Failure)
    ensures
        tells(r, command@, *told, exit_code),
{
    Failure::new(command, &told.code, told.message.clone(), exit_code)
}

/// Why the source of a mount could not be had.
#[derive(Debug, PartialEq, Eq)]
pub struct ConnectorResolveError {
    pub code: String,
    pub message: String,
    pub suggested_command: Option<String>,
}

/// Whether an error tells why a source could not be had, with what helps.
pub open spec fn is_connector_error(
    error: CommandError,
    command: Seq<char>,
    cause: ConnectorResolveError,
) -> bool {
    &&& !error.ok
    &&& error.command@ == command
    &&& error.code@ == cause.code@
    &&& error.message@ == cause.message@
    &&& text::opt_text(error.suggested_command) == text::opt_text(cause.suggested_command)
}

/// Whether a failure tells why a source could not be had: the exit code is 2
/// where no mount was found, else 1.
pub open spec fn tells_connector_error(
    failure: Failure,
    command: Seq<char>,
    cause: ConnectorResolveError,
) -> bool {
    &&& is_connector_error(failure.error, command, cause)
    &&& failure.exit_code == (if cause.code@ == "mount_not_found"@ {
        2i32
    } else {
        1i32
    })
}

/// The error of a command whose source could not be had.
pub fn connector_resolve_command_error(
    command: &'static str,
    error: &ConnectorResolveError,
) -> (r: CommandError)
    ensures
        is_connector_error(r, command@, *error),
{
    CommandError::new(
        command,
        &error.code,
        error.message.clone(),
    ).with_optional_suggested_command(text::as_str_option(&error.suggested_command))
}

/// The failure of a command whose source could not be had.
pub fn connector_failure(command: &'static str, error: &ConnectorResolveError) -> (r: Failure)
    ensures
        tells_connector_error(r, command@, *error),
{
    let exit_code: i32 = if text::same_text(&error.code, "mount_not_found") {
        2
    } else {
        1
    };
    Failure { error: connector_resolve_command_error(command, error), exit_code }
}

/// The code of a failure of the core.
pub open spec fn locality_code(kind: LocalityErrorKind) -> Seq<char> {
    match kind {
        LocalityErrorKind::Validation => "validation_failed"@,
        LocalityErrorKind::Conflict => "conflict"@,
        LocalityErrorKind::Guardrail => "guardrail"@,
        LocalityErrorKind::RemoteNotFound => "remote_not_found"@,
        LocalityErrorKind::RateLimited => "rate_limited"@,
        LocalityErrorKind::InvalidState => "invalid_state"@,
        LocalityErrorKind::UpdateRequired => "update_required"@,
        LocalityErrorKind::Unsupported => "unsupported"@,
        LocalityErrorKind::NotImplemented => "not_implemented"@,
        LocalityErrorKind::Io => "io_error"@,
    }
}

/// The code of a failure of the core.
pub fn locality_error_code(error: &LocalityError) -> (r: &'static str)
    ensures
        r@ == locality_code(error.kind),
{
    match error.kind {
        LocalityErrorKind::Validation => "validation_failed",
        LocalityErrorKind::Conflict => "conflict",
        LocalityErrorKind::Guardrail => "guardrail",
        LocalityErrorKind::RemoteNotFound => "remote_not_found",
        LocalityErrorKind::RateLimited => "rate_limited",
        LocalityErrorKind::InvalidState => "invalid_state",
        LocalityErrorKind::UpdateRequired => "update_required",
        LocalityErrorKind::Unsupported => "unsupported",
        LocalityErrorKind::NotImplemented => "not_implemented",
        LocalityErrorKind::Io => "io_error",
    }
}

/// The exit code for a failure of the core.
pub open spec fn locality_exit_code(kind: LocalityErrorKind) -> i32 {
    match kind {
        LocalityErrorKind::Validation => 3,
        LocalityErrorKind::RemoteNotFound | LocalityErrorKind::NotImplemented => 5,
        _ => 1,
    }
}

/// The exit code for a failure of the core.
pub fn locality_error_exit_code(error: &LocalityError) -> (r: i32)
    ensures
        r == locality_exit_code(error.kind),
{
    match error.kind {
        LocalityErrorKind::Validation => 3,
        LocalityErrorKind::RemoteNotFound | LocalityErrorKind::NotImplemented => 5,
        _ => 1,
    }
}

/// Whether a failure tells what went wrong in the core.
pub open spec fn tells_locality_error(
    failure: Failure,
    command: Seq<char>,
    error: LocalityError,
) -> bool {
    model::is_failure(
        failure,
        command,
        locality_code(error.kind),
        error.message@,
        locality_exit_code(error.kind),
    )
}

/// The failure of a command where something went wrong in the core.
pub fn locality_failure(command: &'static str, error: &LocalityError) -> (r: Failure)
    ensures
        tells_locality_error(r, command@, *error),
{
    Failure::new(
        command,
        locality_error_code(error),
        error.message.clone(),
        locality_error_exit_code(error),
    )
}

/// The exit code where there is no preview.
pub fn diff_error_exit_code(error: &DiffError) -> (r: i32)
    ensures
        r == (if error is MountNotFound {
            2i32
        } else {
            1i32
        }),
{
    match error {
        DiffError::MountNotFound(_) => 2,
        _ => 1,
    }
}

/// Whether a failure tells why there is no preview.
pub open spec fn tells_diff_error(failure: Failure, command: Seq<char>, error: DiffError) -> bool {
    model::is_failure(
        failure,
        command,
        error.code_text(),
        error.message_text(),
        if error is MountNotFound {
            2
        } else {
            1
        },
    )
}

/// The failure of a command that needs a preview and has none.
pub fn diff_failure(command: &'static str, error: &DiffError) -> (r: Failure)
    ensures
        tells_diff_error(r, command@, *error),
{
    Failure::new(command, error.code(), error.message(), diff_error_exit_code(error))
}

/// The exit code for a failure of the journal: 2 where a mount, an entry or a
/// file is not there, else 1.
pub open spec fn history_exit_code(error: HistoryError) -> i32 {
    match error {
        HistoryError::MountNotFound(_) | HistoryError::JournalNotFound(_) => 2,
        HistoryError::Store(e) => if e.kind == StoreErrorKind::EntityPathMissing {
            2
        } else {
            1
        },
        _ => 1,
    }
}

/// The exit code for a failure of the journal.
pub fn history_error_exit_code(error: &HistoryError) -> (r: i32)
    ensures
        r == history_exit_code(*error),
{
    match error {
        HistoryError::MountNotFound(_) | HistoryError::JournalNotFound(_) => 2,
        HistoryError::Store(e) => match e.kind {
            StoreErrorKind::EntityPathMissing => 2,
            _ => 1,
        },
        _ => 1,
    }
}

/// The failure of a command on the journal.
pub fn history_failure(command: &'static str, error: &HistoryError) -> (r: Failure)
    ensures
        model::is_failure(
            r,
            command@,
            error.code_text(),
            error.message_text(),
            history_exit_code(*error),
        ),
{
    Failure::new(command, error.code(), error.message(), history_error_exit_code(error))
}

/// The failure of a command on connections: the exit code is 2 where a name for
/// the connection is missing, else 1.
pub fn connect_failure(command: &'static str, error: &ConnectError) -> (r: Failure)
    ensures
        !r.error.ok,
        r.error.command@ == command@,
        r.error.code@ == error.code_text(),
        r.error.message@ == error.message_text(),
        text::opt_text(r.error.suggested_command) == error.suggestion(),
        r.exit_code == (if error is ConnectionNameRequired {
            2i32
        } else {
            1i32
        }),
{
    let exit_code: i32 = match error {
        ConnectError::ConnectionNameRequired(_) => 2,
        _ => 1,
    };
    Failure {
        error: CommandError::new(
            command,
            error.code(),
            error.message(),
        ).with_optional_suggested_command(error.suggested_command()),
        exit_code,
    }
}

/// The exit code where nothing was created: 2 where the request was wrong, 1
/// where it could not be carried out.
pub open spec fn create_exit_code(error: CreateError) -> i32 {
    match error {
        CreateError::Store(_) | CreateError::WriteFile { .. }
        | CreateError::VirtualStateRootRequired => 1,
        _ => 2,
    }
}

/// The failure to create a page.
pub fn create_failure(error: &CreateError) -> (r: Failure)
    ensures
        model::is_failure(
            r,
            "create_page"@,
            error.code_text(),
            error.message_text(),
            create_exit_code(*error),
        ),
{
    let exit_code: i32 = match error {
        CreateError::Store(_) | CreateError::WriteFile { .. }
        | CreateError::VirtualStateRootRequired => 1,
        _ => 2,
    };
    Failure::new("create_page", error.code(), error.message(), exit_code)
}

/// The failure of the daemon command.
pub fn daemon_failure(error: &DaemonControlError) -> (r: Failure)
    ensures
        model::is_failure(
            r,
            "daemon"@,
            error.code@,
            error.message@,
            if error.code@ == "usage"@ {
                2
            } else {
                1
            },
        ),
{
    let exit_code: i32 = if text::same_text(error.code(), "usage") {
        2
    } else {
        1
    };
    Failure::new("daemon", error.code(), error.message(), exit_code)
}

/// Why nothing was exported.
#[derive(Clone, Copy, Debug, PartialEq, Eq, Structural)]
pub enum OkfExportErrorKind {
    CurrentDir,
    OutputInsideSource,
    OutputNotDirectory,
    OutputNotEmpty,
    OutputPathConflict,
    SourceMissing,
    SourceNotDirectory,
    WalkDirectory,
    WriteFile,
    YamlSerialize,
}

/// The exit code for such a failure.
pub open spec fn okf_export_exit_code(kind: OkfExportErrorKind) -> i32 {
    match kind {
        OkfExportErrorKind::CurrentDir
        | OkfExportErrorKind::OutputInsideSource
        | OkfExportErrorKind::OutputNotDirectory
        | OkfExportErrorKind::OutputNotEmpty
        | OkfExportErrorKind::OutputPathConflict
        | OkfExportErrorKind::SourceMissing
        | OkfExportErrorKind::SourceNotDirectory => 2,
        _ => 1,
    }
}

/// The failure to export.
pub fn okf_export_failure(kind: OkfExportErrorKind, told: &Told) -> (r: Failure)
    ensures
        tells(r, "okf_export"@, *told, okf_export_exit_code(kind)),
{
    let exit_code: i32 = match kind {
        OkfExportErrorKind::CurrentDir
        | OkfExportErrorKind::OutputInsideSource
        | OkfExportErrorKind::OutputNotDirectory
        | OkfExportErrorKind::OutputNotEmpty
        | OkfExportErrorKind::OutputPathConflict
        | OkfExportErrorKind::SourceMissing
        | OkfExportErrorKind::SourceNotDirectory => 2,
        _ => 1,
    };
    telling("okf_export", told, exit_code)
}

/// Why nothing was mounted.
#[derive(Clone, Copy, Debug, PartialEq, Eq, Structural)]
pub enum MountErrorKind {
    MountPointConflict,
    Other,
}

/// The exit code for such a failure.
pub open spec fn mount_exit_code(kind: MountErrorKind) -> i32 {
    match kind {
        MountErrorKind::MountPointConflict => 2,
        _ => 1,
    }
}

/// The failure to mount.
pub fn mount_failure(kind: MountErrorKind, told: &Told) -> (r: Failure)
    ensures
        tells(r, "mount"@, *told, mount_exit_code(kind)),
{
    let exit_code: i32 = match kind {
        MountErrorKind::MountPointConflict => 2,
        _ => 1,
    };
    telling("mount", told, exit_code)
}

/// Why nothing was pulled.
#[derive(Clone, Copy, Debug, PartialEq, Eq, Structural)]
pub enum PullErrorKind {
    MountNotFound,
    ReadFile,
    WriteFile,
    Store(StoreErrorKind),
    Connector,
    CurrentDir,
    Projection,
}

/// The exit code for such a failure.
pub open spec fn pull_exit_code(kind: PullErrorKind) -> i32 {
    match kind {
        PullErrorKind::MountNotFound
        | PullErrorKind::Store(StoreErrorKind::EntityPathMissing) => 2,
        _ => 1,
    }
}

/// The failure to pull.
pub fn pull_failure(kind: PullErrorKind, told: &Told) -> (r: Failure)
    ensures
        tells(r, "pull"@, *told, pull_exit_code(kind)),
{
    let exit_code: i32 = match kind {
        PullErrorKind::MountNotFound
        | PullErrorKind::Store(StoreErrorKind::EntityPathMissing) => 2,
        _ => 1,
    };
    telling("pull", told, exit_code)
}

/// Why there is no search result.
#[derive(Clone, Copy, Debug, PartialEq, Eq, Structural)]
pub enum SearchErrorKind {
    EmptyQuery,
    InvalidLimit,
    Store,
}

/// The exit code for such a failure.
pub open spec fn search_exit_code(kind: SearchErrorKind) -> i32 {
    match kind {
        SearchErrorKind::EmptyQuery
        | SearchErrorKind::InvalidLimit => 2,
        _ => 1,
    }
}

/// The failure to search.
pub fn search_failure(kind: SearchErrorKind, told: &Told) -> (r: Failure)
    ensures
        tells(r, "search"@, *told, search_exit_code(kind)),
{
    let exit_code: i32 = match kind {
        SearchErrorKind::EmptyQuery
        | SearchErrorKind::InvalidLimit => 2,
        _ => 1,
    };
    telling("search", told, exit_code)
}

/// Why a template pack could not be used.
#[derive(Clone, Copy, Debug, PartialEq, Eq, Structural)]
pub enum TemplatePackErrorKind {
    PackNotFound,
    TemplateNotFound,
    ManifestMissing,
    ManifestInvalid,
    InvalidPackId,
    InvalidRelativePath,
    TargetNotDirectory,
    TargetNotEmpty,
    FileExists,
    SymlinkUnsupported,
    Io,
}

/// The exit code for such a failure.
pub open spec fn template_exit_code(kind: TemplatePackErrorKind) -> i32 {
    match kind {
        TemplatePackErrorKind::PackNotFound
        | TemplatePackErrorKind::TemplateNotFound
        | TemplatePackErrorKind::ManifestMissing
        | TemplatePackErrorKind::ManifestInvalid
        | TemplatePackErrorKind::InvalidPackId
        | TemplatePackErrorKind::InvalidRelativePath
        | TemplatePackErrorKind::TargetNotDirectory
        | TemplatePackErrorKind::TargetNotEmpty
        | TemplatePackErrorKind::FileExists
        | TemplatePackErrorKind::SymlinkUnsupported => 2,
        _ => 1,
    }
}

/// The failure of a command on template packs.
pub fn template_failure(kind: TemplatePackErrorKind, told: &Told) -> (r: Failure)
    ensures
        tells(r, "templates"@, *told, template_exit_code(kind)),
{
    let exit_code: i32 = match kind {
        TemplatePackErrorKind::PackNotFound
        | TemplatePackErrorKind::TemplateNotFound
        | TemplatePackErrorKind::ManifestMissing
        | TemplatePackErrorKind::ManifestInvalid
        | TemplatePackErrorKind::InvalidPackId
        | TemplatePackErrorKind::InvalidRelativePath
        | TemplatePackErrorKind::TargetNotDirectory
        | TemplatePackErrorKind::TargetNotEmpty
        | TemplatePackErrorKind::FileExists
        | TemplatePackErrorKind::SymlinkUnsupported => 2,
        _ => 1,
    };
    telling("templates", told, exit_code)
}

/// Why a file could not be inspected.
#[derive(Clone, Copy, Debug, PartialEq, Eq, Structural)]
pub enum InspectErrorKind {
    MountNotFound,
    Store(StoreErrorKind),
    UnsupportedEntity,
    CurrentDir,
    ProjectionReadPath,
    ReadFile,
    RemoteFetch,
}

/// The exit code for such a failure.
pub open spec fn inspect_exit_code(kind: InspectErrorKind) -> i32 {
    match kind {
        InspectErrorKind::MountNotFound
        | InspectErrorKind::UnsupportedEntity
        | InspectErrorKind::Store(StoreErrorKind::EntityPathMissing) => 2,
        _ => 1,
    }
}

/// The failure to inspect a file.
pub fn inspect_failure(kind: InspectErrorKind, told: &Told) -> (r: Failure)
    ensures
        tells(r, "inspect"@, *told, inspect_exit_code(kind)),
{
    let exit_code: i32 = match kind {
        InspectErrorKind::MountNotFound
        | InspectErrorKind::UnsupportedEntity
        | InspectErrorKind::Store(StoreErrorKind::EntityPathMissing) => 2,
        _ => 1,
    };
    telling("inspect", told, exit_code)
}

/// Why a file could not be restored.
#[derive(Clone, Copy, Debug, PartialEq, Eq, Structural)]
pub enum RestoreErrorKind {
    MountNotFound,
    Store(StoreErrorKind),
    ConflictedRequiresForce,
    CurrentDir,
    UnsupportedEntity,
    WriteFile,
}

/// The exit code for such a failure.
pub open spec fn restore_exit_code(kind: RestoreErrorKind) -> i32 {
    match kind {
        RestoreErrorKind::MountNotFound
        | RestoreErrorKind::Store(StoreErrorKind::EntityPathMissing) => 2,
        RestoreErrorKind::ConflictedRequiresForce => 4,
        _ => 1,
    }
}

/// The failure to restore a file.
pub fn restore_failure(kind: RestoreErrorKind, told: &Told) -> (r: Failure)
    ensures
        tells(r, "restore"@, *told, restore_exit_code(kind)),
{
    let exit_code: i32 = match kind {
        RestoreErrorKind::MountNotFound
        | RestoreErrorKind::Store(StoreErrorKind::EntityPathMissing) => 2,
        RestoreErrorKind::ConflictedRequiresForce => 4,
        _ => 1,
    };
    telling("restore", told, exit_code)
}

/// Why there is no status.
#[derive(Clone, Copy, Debug, PartialEq, Eq, Structural)]
pub enum StatusErrorKind {
    MountNotFound,
    MountIdNotFound,
    CurrentDir,
    Store(StoreErrorKind),
}

/// The exit code for such a failure.
pub open spec fn status_exit_code(kind: StatusErrorKind) -> i32 {
    match kind {
        StatusErrorKind::MountNotFound
        | StatusErrorKind::MountIdNotFound
        | StatusErrorKind::Store(StoreErrorKind::EntityPathMissing) => 2,
        _ => 1,
    }
}

fn status_error_exit_code(kind: StatusErrorKind) -> (r: i32)
    ensures
        r == status_exit_code(kind),
{
    match kind {
        StatusErrorKind::MountNotFound
        | StatusErrorKind::MountIdNotFound
        | StatusErrorKind::Store(StoreErrorKind::EntityPathMissing) => 2,
        _ => 1,
    }
}

/// The failure to find what a push is for.
pub fn push_target_failure(kind: StatusErrorKind, told: &Told) -> (r: Failure)
    ensures
        tells(r, "push"@, *told, status_exit_code(kind)),
{
    telling("push", told, status_error_exit_code(kind))
}

/// The words of a failure to find a mount, with where it was looked for.
pub open spec fn looked_for(message: Seq<char>, state_root: Seq<char>) -> Seq<char> {
    message + " in state dir `"@ + state_root + "`"@
}

/// The failure to tell the status. Where no mount was found it says where it
/// was looked for.
pub fn status_failure(kind: StatusErrorKind, told: &Told, state_root: &str) -> (r: Failure)
    ensures
        model::is_failure(
            r,
            "status"@,
            told.code@,
            if kind == StatusErrorKind::MountNotFound || kind == StatusErrorKind::MountIdNotFound {
                looked_for(told.message@, state_root@)
            } else {
                told.message@
            },
            status_exit_code(kind),
        ),
{
    let message = match kind {
        StatusErrorKind::MountNotFound | StatusErrorKind::MountIdNotFound => {
            let mut message = text::concat3(&told.message, " in state dir `", state_root);
            message.append("`");
            message
        },
        _ => told.message.clone(),
    };
    Failure::new("status", &told.code, message, status_error_exit_code(kind))
}

/// Why there is no information on a path.
#[derive(Clone, Copy, Debug, PartialEq, Eq, Structural)]
pub enum InfoErrorKind {
    MountNotFound,
    CurrentDir,
    Store(StoreErrorKind),
}

/// The exit code for such a failure.
pub open spec fn info_exit_code(kind: InfoErrorKind) -> i32 {
    match kind {
        InfoErrorKind::MountNotFound
        | InfoErrorKind::Store(StoreErrorKind::EntityPathMissing) => 2,
        _ => 1,
    }
}

/// The failure to tell about a path. Where no mount was found it says where it
/// was looked for.
pub fn info_failure(kind: InfoErrorKind, told: &Told, state_root: &str) -> (r: Failure)
    ensures
        model::is_failure(
            r,
            "info"@,
            told.code@,
            if kind == InfoErrorKind::MountNotFound {
                looked_for(told.message@, state_root@)
            } else {
                told.message@
            },
            info_exit_code(kind),
        ),
{
    let message = match kind {
        InfoErrorKind::MountNotFound => {
            let mut message = text::concat3(&told.message, " in state dir `", state_root);
            message.append("`");
            message
        },
        _ => told.message.clone(),
    };
    let exit_code: i32 = match kind {
        InfoErrorKind::MountNotFound
        | InfoErrorKind::Store(StoreErrorKind::EntityPathMissing) => 2,
        _ => 1,
    };
    Failure::new("info", &told.code, message, exit_code)
}

/// The failure of a command whose state could not be opened.
pub fn store_open_failure(command: &'static str, message: &str) -> (r: Failure)
    ensures
        model::is_failure(r, command@, "store_open_failed"@, message@, 1),
{
    Failure::new(command, "store_open_failed", message.to_string(), 1)
}

/// The exit code of a preview: 3 where the file is not fit to be pushed.
pub fn diff_report_exit_code(report: &DiffReport) -> (r: i32)
    ensures
        r == (if report.ok {
            0i32
        } else {
            3i32
        }),
{
    if report.ok {
        0
    } else {
        3
    }
}

/// What is said of a failure to a person.
pub fn command_error_lines(error: &CommandError) -> (r: Vec<String>)
    ensures
        match error.suggested_command {
            None => text::texts(r@) == seq!["loc "@ + error.command@ + ": "@ + error.message@],
            Some(hint) => text::texts(r@) == seq![
                "loc "@ + error.command@ + ": "@ + error.message@,
                "hint: "@ + hint@,
            ],
        },
{
    let mut line = text::concat3("loc ", error.command, ": ");
    line.append(&error.message);
    let mut lines: Vec<String> = Vec::new();
    lines.push(line);
    assert(text::texts(lines@) =~= seq!["loc "@ + error.command@ + ": "@ + error.message@]);
    if let Some(hint) = &error.suggested_command {
        let mut line = "hint: ".to_string();
        line.append(hint);
        let ghost before = text::texts(lines@);
        lines.push(line);
        assert(text::texts(lines@) =~= before.push("hint: "@ + hint@));
    }
    lines
}

/// What is printed where a report cannot be written as JSON.
pub fn json_encode_failure(message: &str) -> (r: String)
    ensures
        r@ == "{\"ok\":false,\"command\":\"internal\",\"code\":\"json_encode_failed\",\"message\":\""@
            + quoting::Expansion::Quotes.expand(message@) + "\"}"@,
{
    let escaped = quoting::escape_json_string(message);
    text::concat3(
        "{\"ok\":false,\"command\":\"internal\",\"code\":\"json_encode_failed\",\"message\":\"",
        &escaped,
        "\"}",
    )
}

/// What a command that does nothing yet prints.
pub fn stub_line(command: &str, json: bool) -> (r: String)
    ensures
        r@ == (if json {
            "{\"ok\":false,\"command\":\""@ + command@ + "\",\"error\":\"not_implemented\"}"@
        } else {
            "loc "@ + command@ + ": not implemented yet"@
        }),
{
    if json {
        text::concat3(
            "{\"ok\":false,\"command\":\"",
            command,
            "\",\"error\":\"not_implemented\"}",
        )
    } else {
        text::concat3("loc ", command, ": not implemented yet")
    }
}

} // verus!
