//! The state of an installation: what is wrong with the daemon, the state
//! store, the connections, the mounts and their providers, and what would help.
use vstd::prelude::*;

use crate::connect::ConnectionRecord;
use crate::daemon::{DaemonControlReport, DaemonManager, DaemonRunState};
use crate::json;
use crate::json::{Json, JsonField};
use crate::model::ProjectionMode;
use crate::projection;
use crate::text;

verus! {

/// What is looked at.
#[derive(Debug, PartialEq, Eq)]
pub struct DoctorOptions {
    pub state_root: Option<String>,
}

/// The state of an installation.
#[derive(Debug, PartialEq, Eq)]
pub struct DoctorReport {
    pub ok: bool,
    pub command: &'static str,
    pub status: DoctorStatus,
    pub platform: String,
    pub state_root: String,
    pub daemon: Option<DoctorDaemon>,
    pub state_store: DoctorStateStore,
    pub connections: Vec<DoctorConnection>,
    pub mounts: Vec<DoctorMount>,
    pub findings: Vec<DoctorFinding>,
    pub suggested_commands: Vec<String>,
}

/// How bad it is.
#[derive(Clone, Copy, Debug, PartialEq, Eq, Structural)]
pub enum DoctorStatus {
    Good,
    Warning,
    Error,
}

impl DoctorStatus {
    /// The name of the status.
    pub open spec fn name(self) -> Seq<char> {
        match self {
            DoctorStatus::Good => "ok"@,
            DoctorStatus::Warning => "warning"@,
            DoctorStatus::Error => "error"@,
        }
    }

    /// The name of the status.
    pub fn as_str(self) -> (r: &'static str)
        ensures
            r@ == self.name(),
    {
        match self {
            DoctorStatus::Good => "ok",
            DoctorStatus::Warning => "warning",
            DoctorStatus::Error => "error",
        }
    }
}

/// The daemon.
#[derive(Debug, PartialEq, Eq)]
pub struct DoctorDaemon {
    pub state: &'static str,
    pub manager: &'static str,
    pub socket: String,
    pub tcp_addr: String,
    pub pid_file: Option<String>,
    pub stdout_log: Option<String>,
    pub stderr_log: Option<String>,
    pub message: String,
}

/// The state store.
#[derive(Debug, PartialEq, Eq)]
pub struct DoctorStateStore {
    pub path: String,
    pub exists: bool,
    pub readable: bool,
    pub schema_version: Option<i64>,
    pub supported_schema_version: i64,
    pub compatibility_status: String,
}

/// A connection.
#[derive(Debug, PartialEq, Eq)]
pub struct DoctorConnection {
    pub connection_id: String,
    pub connector: String,
    pub status: String,
    pub auth_kind: String,
    pub profile_id: Option<String>,
    pub profile_status: DoctorCheckState,
    pub credential_status: DoctorCheckState,
}

/// What became of a check.
#[derive(Clone, Copy, Debug, PartialEq, Eq, Structural)]
pub enum DoctorCheckState {
    Good,
    Missing,
    Unavailable,
    NotChecked,
}

impl DoctorCheckState {
    /// The name of the state.
    pub open spec fn name(self) -> Seq<char> {
        match self {
            DoctorCheckState::Good => "ok"@,
            DoctorCheckState::Missing => "missing"@,
            DoctorCheckState::Unavailable => "unavailable"@,
            DoctorCheckState::NotChecked => "not_checked"@,
        }
    }

    /// The name of the state.
    pub fn as_str(self) -> (r: &'static str)
        ensures
            r@ == self.name(),
    {
        match self {
            DoctorCheckState::Good => "ok",
            DoctorCheckState::Missing => "missing",
            DoctorCheckState::Unavailable => "unavailable",
            DoctorCheckState::NotChecked => "not_checked",
        }
    }
}

/// A mount.
#[derive(Debug, PartialEq, Eq)]
pub struct DoctorMount {
    pub mount_id: String,
    pub connector: String,
    pub root: String,
    pub root_exists: bool,
    pub projection: &'static str,
    pub read_only: bool,
    pub connection_id: Option<String>,
    pub provider: Option<DoctorProvider>,
}

/// The provider of a virtual mount.
#[derive(Debug, PartialEq, Eq)]
pub struct DoctorProvider {
    pub kind: &'static str,
    pub state: String,
    pub registered: Option<bool>,
    pub helper: Option<String>,
    pub helper_present: bool,
    pub message: String,
    pub details: Json,
}

/// Something that was found.
#[derive(Debug, PartialEq, Eq)]
pub struct DoctorFinding {
    pub severity: DoctorSeverity,
    pub code: &'static str,
    pub message: String,
    pub mount_id: Option<String>,
    pub connection_id: Option<String>,
    pub suggested_command: Option<String>,
}

/// How bad a finding is.
#[derive(Clone, Copy, Debug, PartialEq, Eq, Structural)]
pub enum DoctorSeverity {
    Error,
    Warning,
    Info,
}

impl DoctorSeverity {
    /// The name of the severity.
    pub open spec fn name(self) -> Seq<char> {
        match self {
            DoctorSeverity::Error => "error"@,
            DoctorSeverity::Warning => "warning"@,
            DoctorSeverity::Info => "info"@,
        }
    }

    /// The name of the severity.
    pub fn as_str(self) -> (r: &'static str)
        ensures
            r@ == self.name(),
    {
        match self {
            DoctorSeverity::Error => "error",
            DoctorSeverity::Warning => "warning",
            DoctorSeverity::Info => "info",
        }
    }
}

/// What a finding says.
pub struct Finding {
    pub severity: DoctorSeverity,
    pub code: Seq<char>,
    pub message: Seq<char>,
    pub mount_id: Option<Seq<char>>,
    pub connection_id: Option<Seq<char>>,
    pub command: Option<Seq<char>>,
}

impl View for DoctorFinding {
    type V = Finding;

    open spec fn view(&self) -> Finding {
        Finding {
            severity: self.severity,
            code: self.code@,
            message: self.message@,
            mount_id: text::opt_text(self.mount_id),
            connection_id: text::opt_text(self.connection_id),
            command: text::opt_text(self.suggested_command),
        }
    }
}

/// What findings say.
pub open spec fn found(findings: Seq<DoctorFinding>) -> Seq<Finding> {
    findings.map_values(|f: DoctorFinding| f@)
}

/// A finding about the installation.
pub open spec fn about_all(
    severity: DoctorSeverity,
    code: Seq<char>,
    message: Seq<char>,
    command: Option<Seq<char>>,
) -> Finding {
    Finding { severity, code, message, mount_id: None, connection_id: None, command }
}

/// A finding about a mount.
pub open spec fn about_mount(
    severity: DoctorSeverity,
    code: Seq<char>,
    message: Seq<char>,
    mount_id: Seq<char>,
    command: Option<Seq<char>>,
) -> Finding {
    Finding {
        severity,
        code,
        message,
        mount_id: Some(mount_id),
        connection_id: None,
        command,
    }
}

/// A finding about a connection.
pub open spec fn about_connection(
    severity: DoctorSeverity,
    code: Seq<char>,
    message: Seq<char>,
    connection_id: Seq<char>,
    command: Option<Seq<char>>,
) -> Finding {
    Finding {
        severity,
        code,
        message,
        mount_id: None,
        connection_id: Some(connection_id),
        command,
    }
}

fn push_finding(
    findings: &mut Vec<DoctorFinding>,
    severity: DoctorSeverity,
    code: &'static str,
    message: String,
    mount_id: Option<&str>,
    connection_id: Option<&str>,
    command: Option<String>,
)
    ensures
        found(final(findings)@) == found(old(findings)@).push(
            Finding {
                severity,
                code: code@,
                message: message@,
                mount_id: text::opt_str(mount_id),
                connection_id: text::opt_str(connection_id),
                command: text::opt_text(command),
            },
        ),
{
    let ghost before = findings@;
    findings.push(
        DoctorFinding {
            severity,
            code,
            message,
            mount_id: match mount_id {
                Some(id) => Some(id.to_string()),
                None => None,
            },
            connection_id: match connection_id {
                Some(id) => Some(id.to_string()),
                None => None,
            },
            suggested_command: command,
        },
    );
    assert(found(findings@) =~= found(before).push(findings@.last()@));
}

/// How bad it is: an error where there is one, else a warning where there is
/// one.
pub open spec fn status_of(findings: Seq<Finding>) -> DoctorStatus {
    if exists|i: int|
        0 <= i < findings.len() && (#[trigger] findings[i]).severity == DoctorSeverity::Error {
        DoctorStatus::Error
    } else if exists|i: int|
        0 <= i < findings.len() && (#[trigger] findings[i]).severity == DoctorSeverity::Warning {
        DoctorStatus::Warning
    } else {
        DoctorStatus::Good
    }
}

/// How bad it is.
pub fn report_status(findings: &Vec<DoctorFinding>) -> (r: DoctorStatus)
    ensures
        r == status_of(found(findings@)),
{
    let ghost all = found(findings@);
    let mut warned = false;
    let mut i: usize = 0;
    while i < findings.len()
        invariant
            i <= findings.len(),
            all == found(findings@),
            forall|k: int|
                0 <= k < i ==> (#[trigger] all[k]).severity != DoctorSeverity::Error,
            warned == exists|k: int|
                0 <= k < i && (#[trigger] all[k]).severity == DoctorSeverity::Warning,
        decreases findings.len() - i,
    {
        assert(all[i as int].severity == findings@[i as int].severity);
        match findings[i].severity {
            DoctorSeverity::Error => {
                return DoctorStatus::Error;
            },
            DoctorSeverity::Warning => {
                warned = true;
            },
            DoctorSeverity::Info => {},
        }
        i += 1;
    }
    if warned {
        DoctorStatus::Warning
    } else {
        DoctorStatus::Good
    }
}

/// The commands that findings suggest, each once, in the order in which they
/// first come.
pub open spec fn commands_of(findings: Seq<Finding>) -> Seq<Seq<char>>
    decreases findings.len(),
{
    if findings.len() == 0 {
        Seq::empty()
    } else {
        let before = commands_of(findings.drop_last());
        match findings.last().command {
            Some(command) if !before.contains(command) => before.push(command),
            _ => before,
        }
    }
}

/// The commands that findings suggest.
pub fn suggested_commands(findings: &Vec<DoctorFinding>) -> (r: Vec<String>)
    ensures
        text::texts(r@) == commands_of(found(findings@)),
{
    let ghost all = found(findings@);
    let mut commands: Vec<String> = Vec::new();
    let mut i: usize = 0;
    assert(all.take(0) == Seq::<Finding>::empty());
    assert(text::texts(commands@) =~= Seq::<Seq<char>>::empty());
    while i < findings.len()
        invariant
            i <= findings.len(),
            all == found(findings@),
            text::texts(commands@) == commands_of(all.take(i as int)),
        decreases findings.len() - i,
    {
        assert(all.take(i + 1).drop_last() == all.take(i as int));
        assert(all.take(i + 1).last() == findings@[i as int]@);
        if let Some(command) = &findings[i].suggested_command {
            if !text::holds_text(&commands, command) {
                text::push_text(&mut commands, command);
            }
        }
        i += 1;
    }
    assert(all.take(i as int) == all);
    commands
}

/// No command is suggested twice, and every one that a finding suggests is
/// there.
pub proof fn law_commands_are_suggested_once(findings: Seq<Finding>)
    ensures
        commands_of(findings).no_duplicates(),
        forall|i: int|
            #![trigger findings[i]]
            0 <= i < findings.len() && findings[i].command is Some ==> commands_of(
                findings,
            ).contains(findings[i].command->0),
    decreases findings.len(),
{
    if findings.len() > 0 {
        let front = findings.drop_last();
        law_commands_are_suggested_once(front);
        let before = commands_of(front);
        let all = commands_of(findings);
        assert forall|i: int|
            #![trigger findings[i]]
            0 <= i < findings.len() && findings[i].command is Some implies all.contains(
            findings[i].command->0,
        ) by {
            if i < findings.len() - 1 {
                assert(front[i] == findings[i]);
                let k = choose|k: int|
                    0 <= k < before.len() && before[k] == findings[i].command->0;
                assert(all[k] == before[k]);
            } else if !before.contains(findings[i].command->0) {
                assert(all[all.len() - 1] == findings[i].command->0);
            }
        }
    }
}

/// The exit code of a report: 3 for an error, else 0.
pub fn doctor_exit_code(report: &DoctorReport) -> (r: i32)
    ensures
        r == (if report.status == DoctorStatus::Error {
            3i32
        } else {
            0i32
        }),
{
    if report.status == DoctorStatus::Error {
        3
    } else {
        0
    }
}

/// The name of what runs the daemon.
pub open spec fn manager_text(manager: DaemonManager) -> Seq<char> {
    match manager {
        DaemonManager::Launchd => "Launchd"@,
        DaemonManager::Session => "Session"@,
        DaemonManager::Unknown => "Unknown"@,
    }
}

fn manager_name(manager: DaemonManager) -> (r: &'static str)
    ensures
        r@ == manager_text(manager),
{
    match manager {
        DaemonManager::Launchd => "Launchd",
        DaemonManager::Session => "Session",
        DaemonManager::Unknown => "Unknown",
    }
}

/// Whether the daemon is shown as it was reported.
pub open spec fn shows_daemon(shown: DoctorDaemon, report: DaemonControlReport) -> bool {
    &&& shown.state@ == report.state.name()
    &&& shown.manager@ == manager_text(report.manager)
    &&& shown.socket == report.socket
    &&& shown.tcp_addr == report.tcp_addr
    &&& shown.pid_file == report.pid_file
    &&& shown.stdout_log == report.stdout_log
    &&& shown.stderr_log == report.stderr_log
    &&& shown.message == report.message
}

/// The daemon as it was reported; where there is no report, that is found.
pub fn daemon_status(
    reported: Result<DaemonControlReport, String>,
    findings: &mut Vec<DoctorFinding>,
) -> (r: Option<DoctorDaemon>)
    ensures
        match reported {
            Ok(report) => r matches Some(shown) && shows_daemon(shown, report) && found(
                final(findings)@,
            ) == found(old(findings)@),
            Err(why) => r is None && found(final(findings)@) == found(old(findings)@).push(
                about_all(
                    DoctorSeverity::Error,
                    "daemon_status_failed"@,
                    "Could not inspect daemon status: "@ + why@,
                    Some("loc daemon status"@),
                ),
            ),
        },
{
    match reported {
        Ok(report) => Some(
            DoctorDaemon {
                state: report.state.as_str(),
                manager: manager_name(report.manager),
                socket: report.socket,
                tcp_addr: report.tcp_addr,
                pid_file: report.pid_file,
                stdout_log: report.stdout_log,
                stderr_log: report.stderr_log,
                message: report.message,
            },
        ),
        Err(why) => {
            let mut message = "Could not inspect daemon status: ".to_string();
            message.append(&why);
            push_finding(
                findings,
                DoctorSeverity::Error,
                "daemon_status_failed",
                message,
                None,
                None,
                Some("loc daemon status".to_string()),
            );
            None
        },
    }
}

/// What the store says of itself.
#[derive(Debug, PartialEq, Eq)]
pub struct StateCompatibility {
    pub db_path: String,
    pub db_exists: bool,
    pub schema_version: Option<i64>,
    pub current_schema_version: i64,
    /// Whether it can be read as it is or after a migration.
    pub readable: bool,
    /// The name of the status, in lower case.
    pub status: String,
    /// What is wrong, written out.
    pub issues: String,
}

/// What is known where the store cannot be looked at.
#[derive(Debug, PartialEq, Eq)]
pub struct UnreadableStore {
    pub path: String,
    pub exists: bool,
    pub supported_schema_version: i64,
    pub why: String,
}

/// What is found about the store.
pub open spec fn store_findings(
    inspected: Result<StateCompatibility, UnreadableStore>,
) -> Seq<Finding> {
    match inspected {
        Err(u) => seq![
            about_all(
                DoctorSeverity::Error,
                "state_store_unreadable"@,
                "Could not inspect Locality state store: "@ + u.why@,
                None,
            ),
        ],
        Ok(c) => if !c.db_exists {
            seq![
                about_all(
                    DoctorSeverity::Info,
                    "state_store_missing"@,
                    "No Locality state store exists yet; connect and mount a workspace to initialize Locality."@,
                    Some("loc connect notion"@),
                ),
            ]
        } else if !c.readable {
            seq![
                about_all(
                    DoctorSeverity::Error,
                    "state_store_incompatible"@,
                    "Locality state store is not readable by this binary: "@ + c.issues@,
                    None,
                ),
            ]
        } else {
            Seq::empty()
        },
    }
}

/// Whether the store is shown as it was looked at.
pub open spec fn shows_store(
    shown: DoctorStateStore,
    inspected: Result<StateCompatibility, UnreadableStore>,
) -> bool {
    match inspected {
        Err(u) => {
            &&& shown.path == u.path
            &&& shown.exists == u.exists
            &&& !shown.readable
            &&& shown.schema_version is None
            &&& shown.supported_schema_version == u.supported_schema_version
            &&& shown.compatibility_status@ == "error"@
        },
        Ok(c) => {
            &&& shown.path == c.db_path
            &&& shown.exists == c.db_exists
            &&& shown.readable == c.readable
            &&& shown.schema_version == c.schema_version
            &&& shown.supported_schema_version == c.current_schema_version
            &&& shown.compatibility_status == c.status
        },
    }
}

/// The state store, and what is found about it.
pub fn state_store_status(
    inspected: Result<StateCompatibility, UnreadableStore>,
    findings: &mut Vec<DoctorFinding>,
) -> (r: DoctorStateStore)
    ensures
        shows_store(r, inspected),
        found(final(findings)@) == found(old(findings)@) + store_findings(inspected),
{
    let ghost before = found(findings@);
    match inspected {
        Err(u) => {
            let mut message = "Could not inspect Locality state store: ".to_string();
            message.append(&u.why);
            push_finding(
                findings,
                DoctorSeverity::Error,
                "state_store_unreadable",
                message,
                None,
                None,
                None,
            );
            assert(found(findings@) =~= before + store_findings(inspected));
            DoctorStateStore {
                path: u.path,
                exists: u.exists,
                readable: false,
                schema_version: None,
                supported_schema_version: u.supported_schema_version,
                compatibility_status: "error".to_string(),
            }
        },
        Ok(c) => {
            if !c.db_exists {
                push_finding(
                    findings,
                    DoctorSeverity::Info,
                    "state_store_missing",
                    "No Locality state store exists yet; connect and mount a workspace to initialize Locality.".to_string(),
                    None,
                    None,
                    Some("loc connect notion".to_string()),
                );
            } else if !c.readable {
                let mut message = "Locality state store is not readable by this binary: ".to_string();
                message.append(&c.issues);
                push_finding(
                    findings,
                    DoctorSeverity::Error,
                    "state_store_incompatible",
                    message,
                    None,
                    None,
                    None,
                );
            }
            assert(found(findings@) =~= before + store_findings(inspected));
            DoctorStateStore {
                path: c.db_path,
                exists: c.db_exists,
                readable: c.readable,
                schema_version: c.schema_version,
                supported_schema_version: c.current_schema_version,
                compatibility_status: c.status,
            }
        },
    }
}

/// What came of asking for the profile of a connection: it, nothing, or why that
/// is not known.
#[derive(Debug, PartialEq, Eq)]
pub enum ProfileLookup {
    Found { profile_id: String, status: String },
    Absent,
    Failed(String),
}

/// What came of asking for the credential of a connection.
#[derive(Debug, PartialEq, Eq)]
pub enum CredentialLookup {
    Present,
    Absent,
    Failed(String),
}

/// A connection with what was asked about it.
#[derive(Debug, PartialEq, Eq)]
pub struct ConnectionCheck {
    pub connection: ConnectionRecord,
    pub profile: ProfileLookup,
    pub credential: CredentialLookup,
}

/// What becomes of the check of a profile.
pub open spec fn profile_state(c: ConnectionRecord, profile: ProfileLookup) -> DoctorCheckState {
    match c.profile_id {
        None => DoctorCheckState::Missing,
        Some(_) => match profile {
            ProfileLookup::Found { status, .. } => if status@ == "active"@ {
                DoctorCheckState::Good
            } else {
                DoctorCheckState::Unavailable
            },
            ProfileLookup::Absent => DoctorCheckState::Missing,
            ProfileLookup::Failed(_) => DoctorCheckState::Unavailable,
        },
    }
}

/// What is found about the profile of a connection.
pub open spec fn profile_findings(c: ConnectionRecord, profile: ProfileLookup) -> Seq<Finding> {
    let id = c.connection_id@;
    match c.profile_id {
        None => seq![
            about_connection(
                DoctorSeverity::Warning,
                "connection_profile_missing"@,
                "Connection `"@ + id + "` does not reference a connector profile."@,
                id,
                Some("loc connect notion"@),
            ),
        ],
        Some(wanted) => match profile {
            ProfileLookup::Found { profile_id, status } => if status@ == "active"@ {
                Seq::empty()
            } else {
                seq![
                    about_connection(
                        DoctorSeverity::Warning,
                        "connection_profile_not_active"@,
                        "Connector profile `"@ + profile_id@ + "` for connection `"@ + id
                            + "` is `"@ + status@ + "`."@,
                        id,
                        Some("loc connect notion"@),
                    ),
                ]
            },
            ProfileLookup::Absent => seq![
                about_connection(
                    DoctorSeverity::Error,
                    "connection_profile_missing"@,
                    "Connector profile `"@ + wanted@ + "` for connection `"@ + id
                        + "` is missing."@,
                    id,
                    Some("loc connect notion"@),
                ),
            ],
            ProfileLookup::Failed(why) => seq![
                about_connection(
                    DoctorSeverity::Error,
                    "connection_profile_unreadable"@,
                    "Could not inspect connector profile `"@ + wanted@ + "` for connection `"@ + id
                        + "`: "@ + why@,
                    id,
                    None,
                ),
            ],
        },
    }
}

/// The check of the profile of a connection.
pub fn connection_profile_status(
    connection: &ConnectionRecord,
    profile: &ProfileLookup,
    findings: &mut Vec<DoctorFinding>,
) -> (r: DoctorCheckState)
    ensures
        r == profile_state(*connection, *profile),
        found(final(findings)@) == found(old(findings)@) + profile_findings(
            *connection,
            *profile,
        ),
{
    let ghost before = found(findings@);
    let id = connection.connection_id.as_str();
    let mut state = DoctorCheckState::Good;
    match &connection.profile_id {
        None => {
            push_finding(
                findings,
                DoctorSeverity::Warning,
                "connection_profile_missing",
                text::concat3("Connection `", id, "` does not reference a connector profile."),
                None,
                Some(id),
                Some("loc connect notion".to_string()),
            );
            state = DoctorCheckState::Missing;
        },
        Some(wanted) => match profile {
            ProfileLookup::Found { profile_id, status } => if !text::same_text(status, "active") {
                let mut message = text::concat3(
                    "Connector profile `",
                    profile_id,
                    "` for connection `",
                );
                message.append(id);
                message.append("` is `");
                message.append(status);
                message.append("`.");
                push_finding(
                    findings,
                    DoctorSeverity::Warning,
                    "connection_profile_not_active",
                    message,
                    None,
                    Some(id),
                    Some("loc connect notion".to_string()),
                );
                state = DoctorCheckState::Unavailable;
            },
            ProfileLookup::Absent => {
                let mut message = text::concat3(
                    "Connector profile `",
                    wanted,
                    "` for connection `",
                );
                message.append(id);
                message.append("` is missing.");
                push_finding(
                    findings,
                    DoctorSeverity::Error,
                    "connection_profile_missing",
                    message,
                    None,
                    Some(id),
                    Some("loc connect notion".to_string()),
                );
                state = DoctorCheckState::Missing;
            },
            ProfileLookup::Failed(why) => {
                let mut message = text::concat3(
                    "Could not inspect connector profile `",
                    wanted,
                    "` for connection `",
                );
                message.append(id);
                message.append("`: ");
                message.append(why);
                push_finding(
                    findings,
                    DoctorSeverity::Error,
                    "connection_profile_unreadable",
                    message,
                    None,
                    Some(id),
                    None,
                );
                state = DoctorCheckState::Unavailable;
            },
        },
    }
    assert(found(findings@) =~= before + profile_findings(*connection, *profile));
    state
}

/// What becomes of the check of a credential.
pub open spec fn credential_state(
    c: ConnectionRecord,
    credential: CredentialLookup,
) -> DoctorCheckState {
    if c.secret_ref@.len() == 0 {
        DoctorCheckState::Missing
    } else {
        match credential {
            CredentialLookup::Present => DoctorCheckState::Good,
            CredentialLookup::Absent => DoctorCheckState::Missing,
            CredentialLookup::Failed(_) => DoctorCheckState::Unavailable,
        }
    }
}

/// What is found about the credential of a connection.
pub open spec fn credential_findings(
    c: ConnectionRecord,
    credential: CredentialLookup,
) -> Seq<Finding> {
    let id = c.connection_id@;
    if c.secret_ref@.len() == 0 {
        seq![
            about_connection(
                DoctorSeverity::Error,
                "connection_credential_missing"@,
                "Connection `"@ + id + "` does not reference a credential."@,
                id,
                Some("loc connect notion"@),
            ),
        ]
    } else {
        match credential {
            CredentialLookup::Present => Seq::empty(),
            CredentialLookup::Absent => seq![
                about_connection(
                    DoctorSeverity::Error,
                    "connection_credential_missing"@,
                    "Credential for connection `"@ + id + "` is missing."@,
                    id,
                    Some("loc connect notion"@),
                ),
            ],
            CredentialLookup::Failed(why) => seq![
                about_connection(
                    DoctorSeverity::Error,
                    "connection_credential_unavailable"@,
                    "Could not read credential for connection `"@ + id + "`: "@ + why@,
                    id,
                    None,
                ),
            ],
        }
    }
}

/// The check of the credential of a connection.
pub fn connection_credential_status(
    connection: &ConnectionRecord,
    credential: &CredentialLookup,
    findings: &mut Vec<DoctorFinding>,
) -> (r: DoctorCheckState)
    ensures
        r == credential_state(*connection, *credential),
        found(final(findings)@) == found(old(findings)@) + credential_findings(
            *connection,
            *credential,
        ),
{
    let ghost before = found(findings@);
    let id = connection.connection_id.as_str();
    let mut state = DoctorCheckState::Good;
    if connection.secret_ref.as_str().is_empty() {
        push_finding(
            findings,
            DoctorSeverity::Error,
            "connection_credential_missing",
            text::concat3("Connection `", id, "` does not reference a credential."),
            None,
            Some(id),
            Some("loc connect notion".to_string()),
        );
        state = DoctorCheckState::Missing;
    } else {
        match credential {
            CredentialLookup::Present => {},
            CredentialLookup::Absent => {
                push_finding(
                    findings,
                    DoctorSeverity::Error,
                    "connection_credential_missing",
                    text::concat3("Credential for connection `", id, "` is missing."),
                    None,
                    Some(id),
                    Some("loc connect notion".to_string()),
                );
                state = DoctorCheckState::Missing;
            },
            CredentialLookup::Failed(why) => {
                let mut message = text::concat3(
                    "Could not read credential for connection `",
                    id,
                    "`: ",
                );
                message.append(why);
                push_finding(
                    findings,
                    DoctorSeverity::Error,
                    "connection_credential_unavailable",
                    message,
                    None,
                    Some(id),
                    None,
                );
                state = DoctorCheckState::Unavailable;
            },
        }
    }
    assert(found(findings@) =~= before + credential_findings(*connection, *credential));
    state
}

/// What is found about a connection: its profile, its credential, and that it is
/// not active.
pub open spec fn connection_findings(check: ConnectionCheck) -> Seq<Finding> {
    let c = check.connection;
    profile_findings(c, check.profile) + credential_findings(c, check.credential) + (if c.status@
        != "active"@ {
        seq![
            about_connection(
                DoctorSeverity::Error,
                "connection_not_active"@,
                "Connection `"@ + c.connection_id@ + "` is `"@ + c.status@ + "`."@,
                c.connection_id@,
                Some("loc connect notion"@),
            ),
        ]
    } else {
        Seq::empty()
    })
}

/// What is found about all connections, in their order.
pub open spec fn all_connection_findings(checks: Seq<ConnectionCheck>) -> Seq<Finding>
    decreases checks.len(),
{
    if checks.len() == 0 {
        Seq::empty()
    } else {
        all_connection_findings(checks.drop_last()) + connection_findings(checks.last())
    }
}

/// Whether a connection is shown as it was checked.
pub open spec fn shows_connection(shown: DoctorConnection, check: ConnectionCheck) -> bool {
    let c = check.connection;
    shown == (DoctorConnection {
        connection_id: c.connection_id,
        connector: c.connector,
        status: c.status,
        auth_kind: c.auth_kind,
        profile_id: c.profile_id,
        profile_status: profile_state(c, check.profile),
        credential_status: credential_state(c, check.credential),
    })
}

/// Whether connections are shown as they were checked; none where they could
/// not be read.
pub open spec fn shows_connections(
    shown: Seq<DoctorConnection>,
    checks: Result<Vec<ConnectionCheck>, String>,
) -> bool {
    match checks {
        Err(_) => shown.len() == 0,
        Ok(list) => shown.len() == list.len() && forall|k: int|
            0 <= k < shown.len() ==> shows_connection(#[trigger] shown[k], list[k]),
    }
}

/// What is found about the connections.
pub open spec fn connections_findings(
    checks: Result<Vec<ConnectionCheck>, String>,
) -> Seq<Finding> {
    match checks {
        Err(why) => seq![
            about_all(
                DoctorSeverity::Error,
                "connections_unreadable"@,
                "Could not load connections: "@ + why@,
                None,
            ),
        ],
        Ok(list) => all_connection_findings(list@),
    }
}

fn connection_status(check: ConnectionCheck, findings: &mut Vec<DoctorFinding>) -> (r:
    DoctorConnection)
    ensures
        shows_connection(r, check),
        found(final(findings)@) == found(old(findings)@) + connection_findings(check),
{
    let ghost before = found(findings@);
    let c = check.connection;
    let profile_status = connection_profile_status(&c, &check.profile, findings);
    let credential_status = connection_credential_status(&c, &check.credential, findings);
    if !text::same_text(&c.status, "active") {
        let mut message = text::concat3("Connection `", &c.connection_id, "` is `");
        message.append(&c.status);
        message.append("`.");
        push_finding(
            findings,
            DoctorSeverity::Error,
            "connection_not_active",
            message,
            None,
            Some(c.connection_id.as_str()),
            Some("loc connect notion".to_string()),
        );
    }
    assert(found(findings@) =~= before + connection_findings(check));
    DoctorConnection {
        connection_id: c.connection_id,
        connector: c.connector,
        status: c.status,
        auth_kind: c.auth_kind,
        profile_id: c.profile_id,
        profile_status,
        credential_status,
    }
}

/// The connections, and what is found about them.
pub fn connection_statuses(
    checks: Result<Vec<ConnectionCheck>, String>,
    findings: &mut Vec<DoctorFinding>,
) -> (r: Vec<DoctorConnection>)
    ensures
        shows_connections(r@, checks),
        found(final(findings)@) == found(old(findings)@) + connections_findings(checks),
{
    let ghost before = found(findings@);
    let mut shown: Vec<DoctorConnection> = Vec::new();
    match checks {
        Err(why) => {
            let mut message = "Could not load connections: ".to_string();
            message.append(&why);
            push_finding(
                findings,
                DoctorSeverity::Error,
                "connections_unreadable",
                message,
                None,
                None,
                None,
            );
            assert(found(findings@) =~= before + connections_findings(checks));
        },
        Ok(list) => {
            assert(list@.take(0) == Seq::<ConnectionCheck>::empty());
            assert(found(findings@) =~= before + all_connection_findings(list@.take(0)));
            for check in it: list
                invariant
                    it.seq() == list@,
                    shown.len() == it.index(),
                    forall|k: int|
                        0 <= k < shown.len() ==> shows_connection(#[trigger] shown[k], list[k]),
                    found(findings@) == before + all_connection_findings(
                        list@.take(it.index() as int),
                    ),
            {
                let ghost n = it.index() as int;
                assert(list@.take(n + 1).drop_last() == list@.take(n));
                assert(list@.take(n + 1).last() == check);
                let c = connection_status(check, findings);
                shown.push(c);
                assert(found(findings@) =~= before + all_connection_findings(list@.take(n + 1)));
            }
            assert(list@.take(list@.len() as int) == list@);
        },
    }
    shown
}

/// Whether a provider is not a provider at all on this system.
pub open spec fn is_unsupported(provider: DoctorProvider) -> bool {
    provider.state@ == "unsupported"@
}

/// What is found about the provider of a mount: that its helper is missing, that
/// it does not work here, is not registered or does not run, and that its
/// process left its mark behind.
pub open spec fn provider_findings(
    mount_id: Seq<char>,
    provider: DoctorProvider,
    start_command: Seq<char>,
) -> Seq<Finding> {
    let command = start_command + " "@ + mount_id;
    (if !provider.helper_present && !is_unsupported(provider) {
        seq![
            about_mount(
                DoctorSeverity::Error,
                "provider_helper_missing"@,
                "Provider helper for mount `"@ + mount_id + "` is missing."@,
                mount_id,
                None,
            ),
        ]
    } else {
        Seq::empty()
    }) + (if is_unsupported(provider) {
        seq![
            about_mount(
                DoctorSeverity::Error,
                "provider_unsupported_on_platform"@,
                "Mount `"@ + mount_id + "`: "@ + provider.message@,
                mount_id,
                None,
            ),
        ]
    } else if provider.registered == Some(false) {
        seq![
            about_mount(
                DoctorSeverity::Error,
                "provider_unregistered"@,
                "Provider for mount `"@ + mount_id + "` is not registered."@,
                mount_id,
                Some(command),
            ),
        ]
    } else if provider.state@ == "stopped"@ || provider.state@ == "unregistered"@
        || provider.state@ == "error"@ {
        seq![
            about_mount(
                DoctorSeverity::Error,
                "provider_not_running"@,
                "Provider for mount `"@ + mount_id + "` is `"@ + provider.state@ + "`: "@
                    + provider.message@,
                mount_id,
                Some(command),
            ),
        ]
    } else {
        Seq::empty()
    }) + (if provider.details.bool_at("stale_pid_file"@) == Some(true) {
        seq![
            about_mount(
                DoctorSeverity::Warning,
                "provider_stale_pid_file"@,
                "Provider for mount `"@ + mount_id + "` has stale PID metadata."@,
                mount_id,
                Some(command),
            ),
        ]
    } else {
        Seq::empty()
    })
}

/// Notes what is found about the provider of a mount.
pub fn add_provider_findings(
    mount_id: &str,
    provider: &DoctorProvider,
    findings: &mut Vec<DoctorFinding>,
    start_command: &str,
)
    ensures
        found(final(findings)@) == found(old(findings)@) + provider_findings(
            mount_id@,
            *provider,
            start_command@,
        ),
{
    let ghost before = found(findings@);
    let unsupported = text::same_text(&provider.state, "unsupported");
    let command = text::concat3(start_command, " ", mount_id);
    if !provider.helper_present && !unsupported {
        push_finding(
            findings,
            DoctorSeverity::Error,
            "provider_helper_missing",
            text::concat3("Provider helper for mount `", mount_id, "` is missing."),
            Some(mount_id),
            None,
            None,
        );
    }
    let unregistered = match provider.registered {
        Some(registered) => !registered,
        None => false,
    };
    if unsupported {
        let mut message = text::concat3("Mount `", mount_id, "`: ");
        message.append(&provider.message);
        push_finding(
            findings,
            DoctorSeverity::Error,
            "provider_unsupported_on_platform",
            message,
            Some(mount_id),
            None,
            None,
        );
    } else if unregistered {
        push_finding(
            findings,
            DoctorSeverity::Error,
            "provider_unregistered",
            text::concat3("Provider for mount `", mount_id, "` is not registered."),
            Some(mount_id),
            None,
            Some(command.clone()),
        );
    } else if text::same_text(&provider.state, "stopped") || text::same_text(
        &provider.state,
        "unregistered",
    ) || text::same_text(&provider.state, "error") {
        let mut message = text::concat3("Provider for mount `", mount_id, "` is `");
        message.append(&provider.state);
        message.append("`: ");
        message.append(&provider.message);
        push_finding(
            findings,
            DoctorSeverity::Error,
            "provider_not_running",
            message,
            Some(mount_id),
            None,
            Some(command.clone()),
        );
    }
    let stale = match provider.details.get_bool("stale_pid_file") {
        Some(stale) => stale,
        None => false,
    };
    if stale {
        push_finding(
            findings,
            DoctorSeverity::Warning,
            "provider_stale_pid_file",
            text::concat3("Provider for mount `", mount_id, "` has stale PID metadata."),
            Some(mount_id),
            None,
            Some(command),
        );
    }
    assert(found(findings@) =~= before + provider_findings(
        mount_id@,
        *provider,
        start_command@,
    ));
}

/// A mount with what was looked up about it.
#[derive(Debug, PartialEq, Eq)]
pub struct MountCheck {
    pub mount_id: String,
    pub connector: String,
    pub root: String,
    pub root_exists: bool,
    pub projection: ProjectionMode,
    pub read_only: bool,
    pub connection_id: Option<String>,
    /// The provider; none for plain files.
    pub provider: Option<DoctorProvider>,
}

/// The command that brings the provider of a projection up.
pub open spec fn start_command(projection: ProjectionMode) -> Seq<char> {
    match projection {
        ProjectionMode::WindowsCloudFiles => "loc file-provider start"@,
        _ => "loc file-provider register"@,
    }
}

fn start_command_for(projection: ProjectionMode) -> (r: &'static str)
    ensures
        r@ == start_command(projection),
{
    match projection {
        ProjectionMode::WindowsCloudFiles => "loc file-provider start",
        _ => "loc file-provider register",
    }
}

/// What is found about a mount: that its root is missing, that its projection
/// does not work here, that it needs the daemon, and what is found about its
/// provider.
pub open spec fn mount_findings(
    check: MountCheck,
    daemon_running: bool,
    target_os: Seq<char>,
) -> Seq<Finding> {
    let id = check.mount_id@;
    (if !check.root_exists {
        seq![
            about_mount(
                DoctorSeverity::Warning,
                "mount_root_missing"@,
                "Mount `"@ + id + "` root does not exist: `"@ + check.root@ + "`."@,
                id,
                None,
            ),
        ]
    } else {
        Seq::empty()
    }) + (if !projection::is_supported(check.projection, target_os) {
        seq![
            about_mount(
                DoctorSeverity::Error,
                "projection_unsupported_on_platform"@,
                "Mount `"@ + id + "` uses `"@ + projection::cli_value(check.projection)
                    + "`, which is not supported on "@ + target_os + "."@,
                id,
                None,
            ),
        ]
    } else {
        Seq::empty()
    }) + (if check.projection.uses_virtual_filesystem() && !daemon_running {
        seq![
            about_mount(
                DoctorSeverity::Error,
                "daemon_stopped_for_virtual_mount"@,
                "Virtual mount `"@ + id + "` needs localityd running."@,
                id,
                Some("loc daemon start"@),
            ),
        ]
    } else {
        Seq::empty()
    }) + (match check.provider {
        Some(provider) => provider_findings(id, provider, start_command(check.projection)),
        None => Seq::empty(),
    })
}

/// What is found about all mounts, in their order.
pub open spec fn all_mount_findings(
    checks: Seq<MountCheck>,
    daemon_running: bool,
    target_os: Seq<char>,
) -> Seq<Finding>
    decreases checks.len(),
{
    if checks.len() == 0 {
        Seq::empty()
    } else {
        all_mount_findings(checks.drop_last(), daemon_running, target_os) + mount_findings(
            checks.last(),
            daemon_running,
            target_os,
        )
    }
}

/// What is found about the mounts.
pub open spec fn mounts_findings(
    checks: Result<Vec<MountCheck>, String>,
    daemon_running: bool,
    target_os: Seq<char>,
) -> Seq<Finding> {
    match checks {
        Err(why) => seq![
            about_all(
                DoctorSeverity::Error,
                "mounts_unreadable"@,
                "Could not load mounts: "@ + why@,
                None,
            ),
        ],
        Ok(list) => all_mount_findings(list@, daemon_running, target_os),
    }
}

/// Whether a mount is shown as it was checked.
pub open spec fn shows_mount(shown: DoctorMount, check: MountCheck) -> bool {
    &&& shown.mount_id == check.mount_id
    &&& shown.connector == check.connector
    &&& shown.root == check.root
    &&& shown.root_exists == check.root_exists
    &&& shown.projection@ == projection::cli_value(check.projection)
    &&& shown.read_only == check.read_only
    &&& shown.connection_id == check.connection_id
    &&& shown.provider == check.provider
}

/// Whether mounts are shown as they were checked; none where they could not be
/// read.
pub open spec fn shows_mounts(
    shown: Seq<DoctorMount>,
    checks: Result<Vec<MountCheck>, String>,
) -> bool {
    match checks {
        Err(_) => shown.len() == 0,
        Ok(list) => shown.len() == list.len() && forall|k: int|
            0 <= k < shown.len() ==> shows_mount(#[trigger] shown[k], list[k]),
    }
}

fn mount_status(
    check: MountCheck,
    daemon_running: bool,
    target_os: &str,
    findings: &mut Vec<DoctorFinding>,
) -> (r: DoctorMount)
    ensures
        shows_mount(r, check),
        found(final(findings)@) == found(old(findings)@) + mount_findings(
            check,
            daemon_running,
            target_os@,
        ),
{
    let ghost before = found(findings@);
    let id = check.mount_id.as_str();
    if !check.root_exists {
        let mut message = text::concat3("Mount `", id, "` root does not exist: `");
        message.append(&check.root);
        message.append("`.");
        push_finding(
            findings,
            DoctorSeverity::Warning,
            "mount_root_missing",
            message,
            Some(id),
            None,
            None,
        );
    }
    if !projection::supports(check.projection, target_os) {
        let mut message = text::concat3("Mount `", id, "` uses `");
        message.append(projection::projection_cli_value(check.projection));
        message.append("`, which is not supported on ");
        message.append(target_os);
        message.append(".");
        push_finding(
            findings,
            DoctorSeverity::Error,
            "projection_unsupported_on_platform",
            message,
            Some(id),
            None,
            None,
        );
    }
    if check.projection.uses_virtual_filesystem() && !daemon_running {
        push_finding(
            findings,
            DoctorSeverity::Error,
            "daemon_stopped_for_virtual_mount",
            text::concat3("Virtual mount `", id, "` needs localityd running."),
            Some(id),
            None,
            Some("loc daemon start".to_string()),
        );
    }
    if let Some(provider) = &check.provider {
        add_provider_findings(id, provider, findings, start_command_for(check.projection));
    }
    assert(found(findings@) =~= before + mount_findings(check, daemon_running, target_os@));
    DoctorMount {
        mount_id: check.mount_id,
        connector: check.connector,
        root: check.root,
        root_exists: check.root_exists,
        projection: projection::projection_cli_value(check.projection),
        read_only: check.read_only,
        connection_id: check.connection_id,
        provider: check.provider,
    }
}

/// The mounts, and what is found about them.
pub fn mount_statuses(
    checks: Result<Vec<MountCheck>, String>,
    daemon_running: bool,
    target_os: &str,
    findings: &mut Vec<DoctorFinding>,
) -> (r: Vec<DoctorMount>)
    ensures
        shows_mounts(r@, checks),
        found(final(findings)@) == found(old(findings)@) + mounts_findings(
            checks,
            daemon_running,
            target_os@,
        ),
{
    let ghost before = found(findings@);
    let mut shown: Vec<DoctorMount> = Vec::new();
    match checks {
        Err(why) => {
            let mut message = "Could not load mounts: ".to_string();
            message.append(&why);
            push_finding(
                findings,
                DoctorSeverity::Error,
                "mounts_unreadable",
                message,
                None,
                None,
                None,
            );
            assert(found(findings@) =~= before + mounts_findings(
                checks,
                daemon_running,
                target_os@,
            ));
        },
        Ok(list) => {
            assert(list@.take(0) == Seq::<MountCheck>::empty());
            assert(found(findings@) =~= before + all_mount_findings(
                list@.take(0),
                daemon_running,
                target_os@,
            ));
            for check in it: list
                invariant
                    it.seq() == list@,
                    shown.len() == it.index(),
                    forall|k: int|
                        0 <= k < shown.len() ==> shows_mount(#[trigger] shown[k], list[k]),
                    found(findings@) == before + all_mount_findings(
                        list@.take(it.index() as int),
                        daemon_running,
                        target_os@,
                    ),
            {
                let ghost n = it.index() as int;
                assert(list@.take(n + 1).drop_last() == list@.take(n));
                assert(list@.take(n + 1).last() == check);
                let m = mount_status(check, daemon_running, target_os, findings);
                shown.push(m);
                assert(found(findings@) =~= before + all_mount_findings(
                    list@.take(n + 1),
                    daemon_running,
                    target_os@,
                ));
            }
            assert(list@.take(list@.len() as int) == list@);
        },
    }
    shown
}

/// What was looked at in a store that could be opened.
#[derive(Debug, PartialEq, Eq)]
pub struct StoreContents {
    pub connections: Result<Vec<ConnectionCheck>, String>,
    pub mounts: Result<Vec<MountCheck>, String>,
}

/// What was looked at.
#[derive(Debug, PartialEq, Eq)]
pub struct DoctorInspection {
    pub platform: String,
    pub state_root: String,
    pub daemon: Result<DaemonControlReport, String>,
    pub store: Result<StateCompatibility, UnreadableStore>,
    /// What is in the store, or why it could not be opened; counts only where
    /// the store is there and can be read.
    pub contents: Result<StoreContents, String>,
}

/// Whether the store is there and can be read.
pub open spec fn has_readable_store(
    store: Result<StateCompatibility, UnreadableStore>,
) -> bool {
    store matches Ok(c) && c.db_exists && c.readable
}

/// What is found about the daemon.
pub open spec fn daemon_findings(daemon: Result<DaemonControlReport, String>) -> Seq<Finding> {
    match daemon {
        Ok(_) => Seq::empty(),
        Err(why) => seq![
            about_all(
                DoctorSeverity::Error,
                "daemon_status_failed"@,
                "Could not inspect daemon status: "@ + why@,
                Some("loc daemon status"@),
            ),
        ],
    }
}

/// Whether the daemon of an inspection runs.
pub open spec fn inspected_running(daemon: Result<DaemonControlReport, String>) -> bool {
    daemon matches Ok(report) && report.state == DaemonRunState::Running
}

/// All that is found: about the daemon, the store, the connections and the
/// mounts, in this order.
pub open spec fn all_findings(inspection: DoctorInspection) -> Seq<Finding> {
    daemon_findings(inspection.daemon) + store_findings(inspection.store) + (
    if has_readable_store(inspection.store) {
        match inspection.contents {
            Err(why) => seq![
                about_all(
                    DoctorSeverity::Error,
                    "state_store_open_failed"@,
                    "Could not open Locality state: "@ + why@,
                    None,
                ),
            ],
            Ok(contents) => connections_findings(contents.connections) + mounts_findings(
                contents.mounts,
                inspected_running(inspection.daemon),
                inspection.platform@,
            ),
        }
    } else {
        Seq::empty()
    })
}

/// Whether a report is of an inspection.
pub open spec fn is_doctor_report(report: DoctorReport, inspection: DoctorInspection) -> bool {
    let findings = all_findings(inspection);
    &&& report.command@ == "doctor"@
    &&& report.status == status_of(findings)
    &&& report.ok == (report.status != DoctorStatus::Error)
    &&& report.platform@ == inspection.platform@
    &&& report.state_root@ == inspection.state_root@
    &&& match inspection.daemon {
        Ok(d) => report.daemon matches Some(shown) && shows_daemon(shown, d),
        Err(_) => report.daemon is None,
    }
    &&& shows_store(report.state_store, inspection.store)
    &&& match inspection.contents {
        Ok(contents) if has_readable_store(inspection.store) => shows_connections(
            report.connections@,
            contents.connections,
        ) && shows_mounts(report.mounts@, contents.mounts),
        _ => report.connections@.len() == 0 && report.mounts@.len() == 0,
    }
    &&& found(report.findings@) == findings
    &&& text::texts(report.suggested_commands@) == commands_of(findings)
}

/// The report of an inspection.
pub fn run_doctor(inspection: DoctorInspection) -> (r: DoctorReport)
    ensures
        is_doctor_report(r, inspection),
{
    let ghost all = inspection;
    let running = match &inspection.daemon {
        Ok(report) => report.state == DaemonRunState::Running,
        Err(_) => false,
    };
    let mut findings: Vec<DoctorFinding> = Vec::new();
    assert(found(findings@) =~= Seq::<Finding>::empty());
    let daemon = daemon_status(inspection.daemon, &mut findings);
    assert(found(findings@) =~= daemon_findings(all.daemon));
    let readable = match &inspection.store {
        Ok(c) => c.db_exists && c.readable,
        Err(_) => false,
    };
    let state_store = state_store_status(inspection.store, &mut findings);
    let mut connections: Vec<DoctorConnection> = Vec::new();
    let mut mounts: Vec<DoctorMount> = Vec::new();
    if readable {
        match inspection.contents {
            Ok(contents) => {
                connections = connection_statuses(contents.connections, &mut findings);
                mounts = mount_statuses(
                    contents.mounts,
                    running,
                    &inspection.platform,
                    &mut findings,
                );
            },
            Err(why) => {
                let mut message = "Could not open Locality state: ".to_string();
                message.append(&why);
                push_finding(
                    &mut findings,
                    DoctorSeverity::Error,
                    "state_store_open_failed",
                    message,
                    None,
                    None,
                    None,
                );
            },
        }
    }
    assert(found(findings@) =~= all_findings(all));
    let status = report_status(&findings);
    let suggested_commands = suggested_commands(&findings);
    DoctorReport {
        ok: status != DoctorStatus::Error,
        command: "doctor",
        status,
        platform: inspection.platform,
        state_root: inspection.state_root,
        daemon,
        state_store,
        connections,
        mounts,
        findings,
        suggested_commands,
    }
}

/// A report is good exactly where nothing that was found is an error, and only
/// then does the command succeed.
pub proof fn law_report_fails_on_errors_alone(report: DoctorReport, inspection: DoctorInspection)
    requires
        is_doctor_report(report, inspection),
    ensures
        report.ok <==> forall|i: int|
            0 <= i < report.findings@.len() ==> (#[trigger] report.findings@[i]).severity
                != DoctorSeverity::Error,
{
    let views = found(report.findings@);
    assert forall|i: int| 0 <= i < views.len() implies #[trigger] views[i].severity
        == report.findings@[i].severity by {
        assert(views[i] == report.findings@[i]@);
    }
    if !report.ok {
        let i = choose|i: int|
            0 <= i < views.len() && (#[trigger] views[i]).severity == DoctorSeverity::Error;
        assert(report.findings@[i].severity == DoctorSeverity::Error);
    } else {
        assert forall|i: int| 0 <= i < report.findings@.len() implies (#[trigger]
        report.findings@[i]).severity != DoctorSeverity::Error by {
            assert(views[i].severity == report.findings@[i].severity);
        }
    }
}

/// The provider of macOS, or that there is none elsewhere. `listed` is what the
/// helper says of the registered domains; a mount is registered under its own
/// identifier or the one that mounts share.
pub fn macos_provider_status(
    on_macos: bool,
    mount_id: &str,
    shared_domain_id: &str,
    helper: Option<String>,
    listed: Result<Json, String>,
) -> (r: DoctorProvider)
    ensures
        r.kind@ == "macos_file_provider"@,
        if on_macos {
            &&& r.helper == helper
            &&& r.helper_present == (helper is Some)
            &&& match listed {
                Err(why) => r.state@ == "error"@ && r.registered is None && r.message@ == why@
                    && r.details is Null,
                Ok(report) => {
                    let domain = registered_domain(report, mount_id@, shared_domain_id@);
                    &&& r.registered == Some(domain is Some)
                    &&& r.state@ == (if domain is Some {
                        "registered"@
                    } else {
                        "unregistered"@
                    })
                    &&& r.message@ == (match report.text_at("message"@) {
                        Some(m) => m,
                        None => "macOS File Provider status inspected."@,
                    })
                    &&& match domain {
                        None => r.details == report,
                        Some(id) => {
                            &&& r.details.text_at("registered_domain_id"@) == Some(id)
                            &&& forall|key: Seq<char>|
                                key != "registered_domain_id"@ ==> #[trigger] r.details.at(key)
                                    == report.at(key)
                        },
                    }
                },
            }
        } else {
            is_unsupported_provider(r, "macOS File Provider can only run on macOS."@)
        },
{
    if !on_macos {
        return unsupported(
            "macos_file_provider",
            "macOS File Provider can only run on macOS.",
        );
    }
    let mut provider = from_helper_path(
        "macos_file_provider",
        helper,
        "macOS File Provider status is unavailable.",
    );
    match listed {
        Err(why) => {
            provider.state = "error".to_string();
            provider.message = why;
        },
        Ok(report) => {
            let domain = find_domain(&report, mount_id, shared_domain_id);
            provider.registered = Some(domain.is_some());
            provider.state = if domain.is_some() {
                "registered".to_string()
            } else {
                "unregistered".to_string()
            };
            provider.message = match report.get_text("message") {
                Some(m) => m.to_string(),
                None => "macOS File Provider status inspected.".to_string(),
            };
            provider.details = match domain {
                None => report,
                Some(id) => match report {
                    Json::Object(fields) => {
                        let mut fields = fields;
                        let ghost before = fields@;
                        let key = "registered_domain_id".to_string();
                        let value = Json::Text(id);
                        proof {
                            assert forall|other: Seq<char>| #[trigger]
                                json::field(json::with_field(before, key, value), other) == (
                                if other == key@ {
                                    Some(value)
                                } else {
                                    json::field(before, other)
                                }) by {
                                json::law_set_field_reads_back(before, key, value, other);
                            }
                        }
                        json::set_field(&mut fields, key, value);
                        Json::Object(fields)
                    },
                    other => other,
                },
            };
        },
    }
    provider
}

/// Whether a provider does not work on this system, in these words.
pub open spec fn is_unsupported_provider(provider: DoctorProvider, message: Seq<char>) -> bool {
    &&& provider.state@ == "unsupported"@
    &&& provider.registered is None
    &&& provider.helper is None
    &&& !provider.helper_present
    &&& provider.message@ == message
    &&& provider.details is Null
}

fn unsupported(kind: &'static str, message: &str) -> (r: DoctorProvider)
    ensures
        r.kind@ == kind@,
        is_unsupported_provider(r, message@),
{
    DoctorProvider {
        kind,
        state: "unsupported".to_string(),
        registered: None,
        helper: None,
        helper_present: false,
        message: message.to_string(),
        details: Json::Null,
    }
}

fn from_helper_path(kind: &'static str, helper: Option<String>, message: &str) -> (r:
    DoctorProvider)
    ensures
        r.kind@ == kind@,
        r.state@ == "unknown"@,
        r.registered is None,
        r.helper == helper,
        r.helper_present == (helper is Some),
        r.message@ == message@,
        r.details is Null,
{
    DoctorProvider {
        kind,
        state: "unknown".to_string(),
        registered: None,
        helper_present: helper.is_some(),
        helper,
        message: message.to_string(),
        details: Json::Null,
    }
}

/// The first domain of a list that a mount is registered under.
pub open spec fn first_domain(
    domains: Seq<Json>,
    mount_id: Seq<char>,
    shared: Seq<char>,
) -> Option<Seq<char>>
    decreases domains.len(),
{
    if domains.len() == 0 {
        None
    } else {
        match domains[0].text_at("identifier"@) {
            Some(id) if id == mount_id || id == shared => Some(id),
            _ => first_domain(domains.skip(1), mount_id, shared),
        }
    }
}

/// The domain that a mount is registered under, as a helper lists them.
pub open spec fn registered_domain(
    report: Json,
    mount_id: Seq<char>,
    shared: Seq<char>,
) -> Option<Seq<char>> {
    match report.items_at("domains"@) {
        Some(domains) => first_domain(domains, mount_id, shared),
        None => None,
    }
}

fn find_domain(report: &Json, mount_id: &str, shared: &str) -> (r: Option<String>)
    ensures
        text::opt_text(r) == registered_domain(*report, mount_id@, shared@),
{
    let domains = match report.get_items("domains") {
        Some(domains) => domains,
        None => {
            return None;
        },
    };
    let mut i: usize = 0;
    assert(domains@.skip(0) == domains@);
    while i < domains.len()
        invariant
            i <= domains.len(),
            first_domain(domains@, mount_id@, shared@) == first_domain(
                domains@.skip(i as int),
                mount_id@,
                shared@,
            ),
            report.items_at("domains"@) == Some(domains@),
        decreases domains.len() - i,
    {
        assert(domains@.skip(i as int)[0] == domains@[i as int]);
        assert(domains@.skip(i as int).skip(1) == domains@.skip(i + 1));
        if let Some(id) = domains[i].get_text("identifier") {
            if text::same_text(id, mount_id) || text::same_text(id, shared) {
                return Some(id.to_string());
            }
        }
        i += 1;
    }
    None
}

/// The state of a FUSE service.
pub open spec fn fuse_state(active: Option<Seq<char>>, registered: bool) -> Seq<char> {
    if active == Some("active"@) {
        "running"@
    } else if registered {
        "stopped"@
    } else {
        "unregistered"@
    }
}

fn text_or_null(value: &Option<String>) -> (r: Json)
    ensures
        match *value {
            Some(s) => r matches Json::Text(t) && t@ == s@,
            None => r is Null,
        },
{
    match value {
        Some(s) => Json::Text(s.clone()),
        None => Json::Null,
    }
}

/// Whether a JSON value is a text, or null for none.
pub open spec fn is_text_or_null(value: Option<Json>, expected: Option<Seq<char>>) -> bool {
    match expected {
        Some(s) => value matches Some(Json::Text(t)) && t@ == s,
        None => value matches Some(Json::Null),
    }
}

/// The provider of Linux, or that there is none elsewhere. `unit_exists` says
/// whether there is a unit file, `active` and `enabled` are what the service
/// manager says.
pub fn linux_provider_status(
    on_linux: bool,
    service: String,
    helper: Option<String>,
    unit_path: Option<String>,
    unit_exists: bool,
    active: Option<String>,
    enabled: Option<String>,
) -> (r: DoctorProvider)
    ensures
        r.kind@ == "linux_fuse"@,
        if on_linux {
            let registered = unit_path is Some && unit_exists;
            let state = fuse_state(text::opt_text(active), registered);
            &&& r.state@ == state
            &&& r.registered == Some(registered)
            &&& r.helper == helper
            &&& r.helper_present == (helper is Some)
            &&& r.message@ == "Linux FUSE systemd user service `"@ + service@ + "` is `"@ + state
                + "`."@
            &&& r.details.text_at("service"@) == Some(service@)
            &&& is_text_or_null(r.details.at("unit_path"@), text::opt_text(unit_path))
            &&& is_text_or_null(r.details.at("active"@), text::opt_text(active))
            &&& is_text_or_null(r.details.at("enabled"@), text::opt_text(enabled))
            &&& r.details.bool_at("registered"@) == Some(registered)
        } else {
            is_unsupported_provider(r, "Linux FUSE can only run on Linux."@)
        },
{
    if !on_linux {
        return unsupported("linux_fuse", "Linux FUSE can only run on Linux.");
    }
    let registered = unit_path.is_some() && unit_exists;
    let state = if text::option_is(&active, "active") {
        "running"
    } else if registered {
        "stopped"
    } else {
        "unregistered"
    };
    let mut message = text::concat3("Linux FUSE systemd user service `", &service, "` is `");
    message.append(state);
    message.append("`.");
    let f0 = JsonField { key: "service".to_string(), value: Json::Text(service) };
    let f1 = JsonField { key: "unit_path".to_string(), value: text_or_null(&unit_path) };
    let f2 = JsonField { key: "active".to_string(), value: text_or_null(&active) };
    let f3 = JsonField { key: "enabled".to_string(), value: text_or_null(&enabled) };
    let f4 = JsonField { key: "registered".to_string(), value: Json::Bool(registered) };
    let fields = vec![f0, f1, f2, f3, f4];
    proof {
        let s0 = fields@;
        let s1 = s0.skip(1);
        let s2 = s1.skip(1);
        let s3 = s2.skip(1);
        let s4 = s3.skip(1);
        reveal_strlit("service");
        reveal_strlit("unit_path");
        reveal_strlit("active");
        reveal_strlit("enabled");
        reveal_strlit("registered");
        assert("service"@.len() == 7);
        assert("unit_path"@.len() == 9);
        assert("active"@.len() == 6);
        assert("enabled"@.len() == 7 && "enabled"@[0] == 'e' && "service"@[0] == 's');
        assert("registered"@.len() == 10);
        assert(s0 == seq![f0, f1, f2, f3, f4]);
        assert(json::field(s4, "registered"@) == Some(f4.value));
        assert(json::field(s3, "registered"@) == Some(f4.value));
        assert(json::field(s2, "registered"@) == Some(f4.value));
        assert(json::field(s1, "registered"@) == Some(f4.value));
        assert(json::field(s3, "enabled"@) == Some(f3.value));
        assert(json::field(s2, "enabled"@) == Some(f3.value));
        assert(json::field(s1, "enabled"@) == Some(f3.value));
        assert(json::field(s2, "active"@) == Some(f2.value));
        assert(json::field(s1, "active"@) == Some(f2.value));
        assert(json::field(s1, "unit_path"@) == Some(f1.value));
    }
    DoctorProvider {
        kind: "linux_fuse",
        state: state.to_string(),
        registered: Some(registered),
        helper_present: helper.is_some(),
        helper,
        message,
        details: Json::Object(fields),
    }
}

/// The provider of Windows. `reported` is what the helper says of its process.
pub fn windows_provider_status(helper: Option<String>, reported: Result<Json, String>) -> (r:
    DoctorProvider)
    ensures
        r.kind@ == "windows_cloud_files"@,
        r.helper == helper,
        r.helper_present == (helper is Some),
        match reported {
            Err(why) => r.state@ == "error"@ && r.registered is None && r.message@ == why@
                && r.details is Null,
            Ok(report) => {
                &&& r.state@ == (match report.text_at("state"@) {
                    Some(state) => state,
                    None => "unknown"@,
                })
                &&& r.registered == report.bool_at("registered"@)
                &&& r.message@ == (match report.text_at("message"@) {
                    Some(m) => m,
                    None => "Windows Cloud Files status inspected."@,
                })
                &&& r.details == report
            },
        },
{
    let mut provider = from_helper_path(
        "windows_cloud_files",
        helper,
        "Windows Cloud Files status is unavailable.",
    );
    match reported {
        Err(why) => {
            provider.state = "error".to_string();
            provider.message = why;
        },
        Ok(report) => {
            provider.state = match report.get_text("state") {
                Some(state) => state.to_string(),
                None => "unknown".to_string(),
            };
            provider.registered = report.get_bool("registered");
            provider.message = match report.get_text("message") {
                Some(m) => m.to_string(),
                None => "Windows Cloud Files status inspected.".to_string(),
            };
            provider.details = report;
        },
    }
    provider
}

/// The line of a connection.
pub open spec fn connection_line(c: DoctorConnection) -> Seq<char> {
    "  "@ + c.connection_id@ + ": "@ + c.connector@ + " "@ + c.status@ + " profile="@
        + c.profile_status.name() + " credential="@ + c.credential_status.name()
}

/// The lines of a mount.
pub open spec fn mount_lines(m: DoctorMount) -> Seq<Seq<char>> {
    seq![
        "  "@ + m.mount_id@ + ": "@ + m.connector@ + " "@ + m.projection@ + " at "@ + m.root@,
    ] + (match m.provider {
        Some(p) => seq![
            "    provider: "@ + p.kind@ + " state="@ + p.state@ + " registered="@ + (
            match p.registered {
                Some(true) => "true"@,
                Some(false) => "false"@,
                None => "unknown"@,
            }) + " helper="@ + (if p.helper_present {
                "present"@
            } else {
                "missing"@
            }),
        ],
        None => Seq::empty(),
    })
}

/// The lines of a finding.
pub open spec fn finding_lines(f: DoctorFinding) -> Seq<Seq<char>> {
    seq!["  ["@ + f.severity.name() + "] "@ + f.code@ + ": "@ + f.message@] + (
    match f.suggested_command {
        Some(command) => seq!["        suggested: "@ + command@],
        None => Seq::empty(),
    })
}

/// The lines of all connections.
pub open spec fn connections_lines(s: Seq<DoctorConnection>) -> Seq<Seq<char>> {
    s.map_values(|c: DoctorConnection| connection_line(c))
}

/// The lines of all mounts.
pub open spec fn mounts_lines(s: Seq<DoctorMount>) -> Seq<Seq<char>>
    decreases s.len(),
{
    if s.len() == 0 {
        Seq::empty()
    } else {
        mounts_lines(s.drop_last()) + mount_lines(s.last())
    }
}

/// The lines of all findings.
pub open spec fn findings_lines(s: Seq<DoctorFinding>) -> Seq<Seq<char>>
    decreases s.len(),
{
    if s.len() == 0 {
        Seq::empty()
    } else {
        findings_lines(s.drop_last()) + finding_lines(s.last())
    }
}

/// The lines of a report.
pub open spec fn report_lines(report: DoctorReport) -> Seq<Seq<char>> {
    seq![
        "Locality doctor: "@ + report.status.name(),
        "platform: "@ + report.platform@,
        "state: "@ + report.state_root@,
        "state store: "@ + (if report.state_store.exists {
            "present"@
        } else {
            "missing"@
        }) + " ("@ + report.state_store.compatibility_status@ + ")"@,
        match report.daemon {
            Some(d) => "daemon: "@ + d.state@ + " ("@ + d.message@ + ")"@,
            None => "daemon: unavailable"@,
        },
        "connections: "@ + text::decimal(report.connections@.len()),
    ] + connections_lines(report.connections@) + seq![
        "mounts: "@ + text::decimal(report.mounts@.len()),
    ] + mounts_lines(report.mounts@) + (if report.findings@.len() == 0 {
        seq!["findings: none"@]
    } else {
        seq!["findings:"@] + findings_lines(report.findings@)
    })
}

fn push_pair(out: &mut Vec<String>, a: &str, b: &str)
    ensures
        text::texts(final(out)@) == text::texts(old(out)@).push(a@ + b@),
{
    let mut line = a.to_string();
    line.append(b);
    text::push_text(out, &line);
}

fn push_connections(out: &mut Vec<String>, connections: &Vec<DoctorConnection>)
    ensures
        text::texts(final(out)@) == text::texts(old(out)@) + connections_lines(connections@),
{
    let ghost before = text::texts(out@);
    let mut i: usize = 0;
    assert(text::texts(out@) =~= before + connections_lines(connections@.take(0)));
    while i < connections.len()
        invariant
            i <= connections.len(),
            text::texts(out@) == before + connections_lines(connections@.take(i as int)),
        decreases connections.len() - i,
    {
        let c = &connections[i];
        let mut line = text::concat3("  ", &c.connection_id, ": ");
        line.append(&c.connector);
        line.append(" ");
        line.append(&c.status);
        line.append(" profile=");
        line.append(c.profile_status.as_str());
        line.append(" credential=");
        line.append(c.credential_status.as_str());
        text::push_text(out, &line);
        assert(connections_lines(connections@.take(i + 1)) =~= connections_lines(
            connections@.take(i as int),
        ).push(connection_line(*c)));
        assert(text::texts(out@) =~= before + connections_lines(connections@.take(i + 1)));
        i += 1;
    }
    assert(connections@.take(i as int) == connections@);
}

fn push_mounts(out: &mut Vec<String>, mounts: &Vec<DoctorMount>)
    ensures
        text::texts(final(out)@) == text::texts(old(out)@) + mounts_lines(mounts@),
{
    let ghost before = text::texts(out@);
    let mut i: usize = 0;
    assert(mounts@.take(0) == Seq::<DoctorMount>::empty());
    assert(text::texts(out@) =~= before + mounts_lines(mounts@.take(0)));
    while i < mounts.len()
        invariant
            i <= mounts.len(),
            text::texts(out@) == before + mounts_lines(mounts@.take(i as int)),
        decreases mounts.len() - i,
    {
        assert(mounts@.take(i + 1).drop_last() == mounts@.take(i as int));
        let m = &mounts[i];
        let mut line = text::concat3("  ", &m.mount_id, ": ");
        line.append(&m.connector);
        line.append(" ");
        line.append(m.projection);
        line.append(" at ");
        line.append(&m.root);
        text::push_text(out, &line);
        if let Some(p) = &m.provider {
            let mut line = text::concat3("    provider: ", p.kind, " state=");
            line.append(&p.state);
            line.append(" registered=");
            line.append(
                match p.registered {
                    Some(true) => "true",
                    Some(false) => "false",
                    None => "unknown",
                },
            );
            line.append(" helper=");
            line.append(
                if p.helper_present {
                    "present"
                } else {
                    "missing"
                },
            );
            text::push_text(out, &line);
        }
        assert(text::texts(out@) =~= before + mounts_lines(mounts@.take(i + 1)));
        i += 1;
    }
    assert(mounts@.take(i as int) == mounts@);
}

fn push_findings(out: &mut Vec<String>, findings: &Vec<DoctorFinding>)
    ensures
        text::texts(final(out)@) == text::texts(old(out)@) + findings_lines(findings@),
{
    let ghost before = text::texts(out@);
    let mut i: usize = 0;
    assert(findings@.take(0) == Seq::<DoctorFinding>::empty());
    assert(text::texts(out@) =~= before + findings_lines(findings@.take(0)));
    while i < findings.len()
        invariant
            i <= findings.len(),
            text::texts(out@) == before + findings_lines(findings@.take(i as int)),
        decreases findings.len() - i,
    {
        assert(findings@.take(i + 1).drop_last() == findings@.take(i as int));
        let f = &findings[i];
        let mut line = text::concat3("  [", f.severity.as_str(), "] ");
        line.append(f.code);
        line.append(": ");
        line.append(&f.message);
        text::push_text(out, &line);
        if let Some(command) = &f.suggested_command {
            push_pair(out, "        suggested: ", command);
        }
        assert(text::texts(out@) =~= before + findings_lines(findings@.take(i + 1)));
        i += 1;
    }
    assert(findings@.take(i as int) == findings@);
}

/// The lines of a report.
pub fn doctor_report_lines(report: &DoctorReport) -> (r: Vec<String>)
    ensures
        text::texts(r@) == report_lines(*report),
{
    let mut out: Vec<String> = Vec::new();
    push_pair(&mut out, "Locality doctor: ", report.status.as_str());
    push_pair(&mut out, "platform: ", &report.platform);
    push_pair(&mut out, "state: ", &report.state_root);
    let mut store = "state store: ".to_string();
    store.append(
        if report.state_store.exists {
            "present"
        } else {
            "missing"
        },
    );
    store.append(" (");
    store.append(&report.state_store.compatibility_status);
    store.append(")");
    text::push_text(&mut out, &store);
    match &report.daemon {
        Some(d) => {
            let mut line = text::concat3("daemon: ", d.state, " (");
            line.append(&d.message);
            line.append(")");
            text::push_text(&mut out, &line);
        },
        None => text::push_text(&mut out, "daemon: unavailable"),
    }
    push_pair(
        &mut out,
        "connections: ",
        &text::decimal_text(report.connections.len() as u128),
    );
    push_connections(&mut out, &report.connections);
    push_pair(&mut out, "mounts: ", &text::decimal_text(report.mounts.len() as u128));
    push_mounts(&mut out, &report.mounts);
    if report.findings.len() == 0 {
        text::push_text(&mut out, "findings: none");
    } else {
        text::push_text(&mut out, "findings:");
        push_findings(&mut out, &report.findings);
    }
    assert(text::texts(out@) =~= report_lines(*report));
    out
}

} // verus!
