//! What comes back from a request to the daemon.
use vstd::prelude::*;

use crate::text;

verus! {

/// Why a request was not answered.
#[derive(Clone, Copy, Debug, PartialEq, Eq, Structural)]
pub enum DaemonUnavailableReason {
    /// Requests to the daemon are switched off.
    Disabled,
    NotAvailable,
    TimedOut,
}

/// A request that the daemon refused, or whose answer makes no sense.
#[derive(Debug, PartialEq, Eq)]
pub struct DaemonCommandError {
    pub code: String,
    pub message: String,
    pub exit_code: i32,
}

/// What came of a request.
#[derive(Debug, PartialEq, Eq)]
pub enum DaemonReport<T> {
    Report(T),
    Unavailable(DaemonUnavailableReason),
    Error(DaemonCommandError),
}

/// The answer of the daemon. A payload is decoded, or says why it cannot be.
#[derive(Debug, PartialEq, Eq)]
pub struct DaemonResponse<T> {
    pub error: Option<DaemonResponseError>,
    pub payload: Option<Result<T, String>>,
}

/// A refusal by the daemon.
#[derive(Debug, PartialEq, Eq)]
pub struct DaemonResponseError {
    pub code: String,
    pub message: String,
}

/// Why the daemon could not be asked.
#[derive(Debug, PartialEq, Eq)]
pub enum DaemonClientError {
    NotAvailable,
    TimedOut,
    Other(String),
}

/// The exit code for a refusal by the daemon.
pub open spec fn error_exit_code(code: Seq<char>) -> i32 {
    if code == "mount_not_found"@ || code == "entity_path_missing"@ {
        2
    } else if code == "validation_failed"@ {
        3
    } else if code == "not_implemented"@ {
        5
    } else {
        1
    }
}

/// The exit code for a refusal by the daemon.
pub fn daemon_error_exit_code(code: &str) -> (r: i32)
    ensures
        r == error_exit_code(code@),
{
    if text::same_text(code, "mount_not_found") || text::same_text(code, "entity_path_missing") {
        2
    } else if text::same_text(code, "validation_failed") {
        3
    } else if text::same_text(code, "not_implemented") {
        5
    } else {
        1
    }
}

/// Whether a failed request says this.
pub open spec fn is_daemon_error<T>(
    r: DaemonReport<T>,
    code: Seq<char>,
    message: Seq<char>,
    exit_code: i32,
) -> bool {
    r matches DaemonReport::Error(e) && e.code@ == code && e.message@ == message && e.exit_code
        == exit_code
}

/// Whether `r` is what a request came to. `sent` is nothing where requests are
/// switched off. A refusal goes before a payload.
pub open spec fn tells<T>(
    sent: Option<Result<DaemonResponse<T>, DaemonClientError>>,
    r: DaemonReport<T>,
) -> bool {
    match sent {
        None => r == DaemonReport::<T>::Unavailable(DaemonUnavailableReason::Disabled),
        Some(Err(DaemonClientError::NotAvailable)) => r == DaemonReport::<T>::Unavailable(
            DaemonUnavailableReason::NotAvailable,
        ),
        Some(Err(DaemonClientError::TimedOut)) => r == DaemonReport::<T>::Unavailable(
            DaemonUnavailableReason::TimedOut,
        ),
        Some(Err(DaemonClientError::Other(why))) => is_daemon_error(r, "daemon_error"@, why@, 1),
        Some(Ok(response)) => match response.error {
            Some(e) => is_daemon_error(r, e.code@, e.message@, error_exit_code(e.code@)),
            None => match response.payload {
                None => is_daemon_error(
                    r,
                    "daemon_protocol_error"@,
                    "daemon returned no payload"@,
                    1,
                ),
                Some(Err(why)) => is_daemon_error(r, "daemon_protocol_error"@, why@, 1),
                Some(Ok(report)) => r == DaemonReport::Report(report),
            },
        },
    }
}

/// What a request came to. `sent` is nothing where requests are switched off.
pub fn daemon_report<T>(sent: Option<Result<DaemonResponse<T>, DaemonClientError>>) -> (r:
    DaemonReport<T>)
    ensures
        tells(sent, r),
{
    let response = match sent {
        None => {
            return DaemonReport::Unavailable(DaemonUnavailableReason::Disabled);
        },
        Some(Err(DaemonClientError::NotAvailable)) => {
            return DaemonReport::Unavailable(DaemonUnavailableReason::NotAvailable);
        },
        Some(Err(DaemonClientError::TimedOut)) => {
            return DaemonReport::Unavailable(DaemonUnavailableReason::TimedOut);
        },
        Some(Err(DaemonClientError::Other(message))) => {
            return DaemonReport::Error(
                DaemonCommandError { code: "daemon_error".to_string(), message, exit_code: 1 },
            );
        },
        Some(Ok(response)) => response,
    };
    if let Some(error) = response.error {
        let exit_code: i32 = daemon_error_exit_code(&error.code);
        return DaemonReport::Error(
            DaemonCommandError { code: error.code, message: error.message, exit_code },
        );
    }
    match response.payload {
        None => DaemonReport::Error(
            DaemonCommandError {
                code: "daemon_protocol_error".to_string(),
                message: "daemon returned no payload".to_string(),
                exit_code: 1,
            },
        ),
        Some(Err(message)) => DaemonReport::Error(
            DaemonCommandError { code: "daemon_protocol_error".to_string(), message, exit_code: 1 },
        ),
        Some(Ok(report)) => DaemonReport::Report(report),
    }
}

/// How many milliseconds a request may take: what the environment says, where
/// that is a positive number, else the default.
pub open spec fn timeout_ms(variable: Option<Seq<char>>, default_ms: u64) -> u64 {
    match variable {
        None => default_ms,
        Some(value) => match text::parsed_u64(value) {
            Some(n) => if n > 0 {
                n
            } else {
                default_ms
            },
            None => default_ms,
        },
    }
}

/// How many milliseconds a request may take.
pub fn daemon_request_timeout(variable: &Option<String>, default_ms: u64) -> (r: u64)
    ensures
        r == timeout_ms(text::opt_text(*variable), default_ms),
{
    match variable {
        None => default_ms,
        Some(value) => match text::parse_u64(value) {
            Some(n) => if n > 0 {
                n
            } else {
                default_ms
            },
            None => default_ms,
        },
    }
}

/// What is asked of the daemon.
#[derive(Clone, Copy, Debug, PartialEq, Eq, Structural)]
pub enum DaemonRequestKind {
    Pull,
    Push,
    ReloadMounts,
    FileProviderChildren,
}

/// How many milliseconds a request may take: pulls and pushes have a default of
/// their own.
pub fn daemon_request_timeout_for(
    request: DaemonRequestKind,
    variable: &Option<String>,
    control_ms: u64,
    mutating_ms: u64,
) -> (r: u64)
    ensures
        r == timeout_ms(
            text::opt_text(*variable),
            if request == DaemonRequestKind::Pull || request == DaemonRequestKind::Push {
                mutating_ms
            } else {
                control_ms
            },
        ),
{
    match request {
        DaemonRequestKind::Pull | DaemonRequestKind::Push => daemon_request_timeout(
            variable,
            mutating_ms,
        ),
        _ => daemon_request_timeout(variable, control_ms),
    }
}

/// The warning that a command runs without the daemon.
pub open spec fn fallback_warning(
    command: Seq<char>,
    reason: DaemonUnavailableReason,
    timeout_ms: u64,
) -> Option<Seq<char>> {
    match reason {
        DaemonUnavailableReason::TimedOut => Some(
            "localityd did not respond within "@ + text::decimal(timeout_ms as nat)
                + "ms; executing "@ + command + " directly"@,
        ),
        DaemonUnavailableReason::NotAvailable => Some(
            "localityd not running; executing "@ + command
                + " directly (start localityd for background hydration)"@,
        ),
        DaemonUnavailableReason::Disabled => None,
    }
}

/// The warning that a command runs without the daemon, unless requests are
/// switched off.
pub fn warn_daemon_fallback(
    command: &str,
    reason: DaemonUnavailableReason,
    timeout_ms: u64,
    disabled: bool,
) -> (r: Option<String>)
    ensures
        text::opt_text(r) == (if disabled {
            None
        } else {
            fallback_warning(command@, reason, timeout_ms)
        }),
{
    if disabled {
        return None;
    }
    match reason {
        DaemonUnavailableReason::TimedOut => {
            let mut warning = text::concat3(
                "localityd did not respond within ",
                text::decimal_text(timeout_ms as u128).as_str(),
                "ms; executing ",
            );
            warning.append(command);
            warning.append(" directly");
            Some(warning)
        },
        DaemonUnavailableReason::NotAvailable => Some(
            text::concat3(
                "localityd not running; executing ",
                command,
                " directly (start localityd for background hydration)",
            ),
        ),
        DaemonUnavailableReason::Disabled => None,
    }
}

/// The answer of the daemon to a request without a payload.
#[derive(Debug, PartialEq, Eq)]
pub struct DaemonAcknowledgement {
    pub ok: bool,
    pub error: Option<DaemonResponseError>,
}

/// What is said where the daemon did not take over the mounts; nothing where
/// it did or cannot be reached.
pub open spec fn reload_warning(
    sent: Option<Result<DaemonAcknowledgement, DaemonClientError>>,
) -> Option<Seq<char>> {
    match sent {
        Some(Ok(answer)) => if answer.ok {
            None
        } else {
            match answer.error {
                Some(e) => Some(
                    "loc mount: daemon mount reload failed: "@ + e.code@ + ": "@ + e.message@,
                ),
                None => None,
            }
        },
        Some(Err(DaemonClientError::Other(why))) => Some(
            "loc mount: daemon mount reload failed: "@ + why@,
        ),
        _ => None,
    }
}

/// What is said where the daemon did not take over the mounts. `sent` is
/// nothing where requests are switched off.
pub fn mounts_changed_warning(sent: &Option<Result<DaemonAcknowledgement, DaemonClientError>>) -> (r:
    Option<String>)
    ensures
        text::opt_text(r) == reload_warning(*sent),
{
    match sent {
        Some(Ok(answer)) => {
            if answer.ok {
                return None;
            }
            match &answer.error {
                Some(e) => {
                    let mut warning = text::concat3(
                        "loc mount: daemon mount reload failed: ",
                        &e.code,
                        ": ",
                    );
                    warning.append(&e.message);
                    Some(warning)
                },
                None => None,
            }
        },
        Some(Err(DaemonClientError::Other(why))) => {
            let mut warning = "loc mount: daemon mount reload failed: ".to_string();
            warning.append(why);
            Some(warning)
        },
        _ => None,
    }
}

} // verus!
