//! Control of the background daemon: its options, where it is reached, and how
//! it is started and stopped.
use vstd::prelude::*;

use crate::args;
use crate::file_provider;
use crate::file_provider::{Candidate, HelperSearch};
use crate::text;

verus! {

/// How long a started daemon has to answer, in milliseconds.
pub const START_TIMEOUT_MS: u64 = 5000;

/// How long a stopped daemon has to fall silent, in milliseconds.
pub const STOP_TIMEOUT_MS: u64 = 3000;

/// How long a daemon that nothing was done to has to fall silent, in
/// milliseconds.
pub const SETTLE_TIMEOUT_MS: u64 = 250;

/// Why the daemon could not be controlled.
#[derive(Debug, PartialEq, Eq)]
pub struct DaemonControlError {
    pub code: &'static str,
    pub message: String,
}

/// Whether an error says just this.
pub open spec fn is_control_error(
    error: DaemonControlError,
    code: Seq<char>,
    message: Seq<char>,
) -> bool {
    error.code@ == code && error.message@ == message
}

impl DaemonControlError {
    /// An error with a code and words.
    pub fn new(code: &'static str, message: &str) -> (r: Self)
        ensures
            is_control_error(r, code@, message@),
    {
        DaemonControlError { code, message: message.to_string() }
    }

    /// The code that names the failure.
    pub fn code(&self) -> (r: &'static str)
        ensures
            r == self.code,
    {
        self.code
    }

    /// What the failure is, in words.
    pub fn message(&self) -> (r: String)
        ensures
            r == self.message,
    {
        self.message.clone()
    }
}

/// Whether the daemon answers.
#[derive(Clone, Copy, Debug, PartialEq, Eq, Structural)]
pub enum DaemonRunState {
    Running,
    Stopped,
}

impl DaemonRunState {
    /// The name of the state.
    pub open spec fn name(self) -> Seq<char> {
        match self {
            DaemonRunState::Running => "running"@,
            DaemonRunState::Stopped => "stopped"@,
        }
    }

    /// The name of the state.
    pub fn as_str(self) -> (r: &'static str)
        ensures
            r@ == self.name(),
    {
        match self {
            DaemonRunState::Running => "running",
            DaemonRunState::Stopped => "stopped",
        }
    }
}

/// What is done with the daemon.
#[derive(Clone, Copy, Debug, PartialEq, Eq, Structural)]
pub enum DaemonAction {
    Start,
    Stop,
    Status,
    Reload,
    Restart,
}

impl DaemonAction {
    /// The name of the action.
    pub open spec fn name(self) -> Seq<char> {
        match self {
            DaemonAction::Start => "start"@,
            DaemonAction::Stop => "stop"@,
            DaemonAction::Status => "status"@,
            DaemonAction::Reload => "reload"@,
            DaemonAction::Restart => "restart"@,
        }
    }

    /// The action with a name.
    pub open spec fn named(value: Seq<char>) -> Option<DaemonAction> {
        if value == "start"@ {
            Some(DaemonAction::Start)
        } else if value == "stop"@ {
            Some(DaemonAction::Stop)
        } else if value == "status"@ {
            Some(DaemonAction::Status)
        } else if value == "reload"@ {
            Some(DaemonAction::Reload)
        } else if value == "restart"@ {
            Some(DaemonAction::Restart)
        } else {
            None
        }
    }

    /// The action with a name.
    pub fn parse(value: &str) -> (r: Option<DaemonAction>)
        ensures
            r == DaemonAction::named(value@),
    {
        if text::same_text(value, "start") {
            Some(DaemonAction::Start)
        } else if text::same_text(value, "stop") {
            Some(DaemonAction::Stop)
        } else if text::same_text(value, "status") {
            Some(DaemonAction::Status)
        } else if text::same_text(value, "reload") {
            Some(DaemonAction::Reload)
        } else if text::same_text(value, "restart") {
            Some(DaemonAction::Restart)
        } else {
            None
        }
    }

    /// The name of the action.
    pub fn as_str(self) -> (r: &'static str)
        ensures
            r@ == self.name(),
    {
        match self {
            DaemonAction::Start => "start",
            DaemonAction::Stop => "stop",
            DaemonAction::Status => "status",
            DaemonAction::Reload => "reload",
            DaemonAction::Restart => "restart",
        }
    }
}

/// Every action is read back from its name.
pub proof fn law_action_names_read_back(action: DaemonAction)
    ensures
        DaemonAction::named(action.name()) == Some(action),
{
    reveal_strlit("start");
    reveal_strlit("stop");
    reveal_strlit("status");
    reveal_strlit("reload");
    reveal_strlit("restart");
    assert("start"@.len() == 5);
    assert("stop"@.len() == 4);
    assert("status"@.len() == 6);
    assert("reload"@.len() == 6);
    assert("restart"@.len() == 7);
    assert("status"@[0] == 's');
    assert("reload"@[0] == 'r');
}

/// How the daemon is started.
#[derive(Clone, Copy, Debug, PartialEq, Eq, Structural)]
pub enum DaemonStartMode {
    /// With launchd where there is one.
    Auto,
    Session,
    Launchd,
}

impl DaemonStartMode {
    /// Whether launchd runs the daemon on an operating system; only macOS has
    /// it.
    pub fn should_use_launchd_for_target(self, target_os: &str) -> (r: bool)
        ensures
            r == (self != DaemonStartMode::Session && target_os@ == "macos"@),
    {
        self != DaemonStartMode::Session && text::same_text(target_os, "macos")
    }
}

/// What runs the daemon.
#[derive(Clone, Copy, Debug, PartialEq, Eq, Structural)]
pub enum DaemonManager {
    Launchd,
    Session,
    Unknown,
}

impl DaemonManager {
    /// The name of the manager.
    pub open spec fn name(self) -> Seq<char> {
        match self {
            DaemonManager::Launchd => "launchd"@,
            DaemonManager::Session => "session"@,
            DaemonManager::Unknown => "unknown"@,
        }
    }

    /// The name of the manager.
    pub fn as_str(self) -> (r: &'static str)
        ensures
            r@ == self.name(),
    {
        match self {
            DaemonManager::Launchd => "launchd",
            DaemonManager::Session => "session",
            DaemonManager::Unknown => "unknown",
        }
    }
}

/// What was asked for.
#[derive(Debug, PartialEq, Eq)]
pub struct DaemonOptions {
    pub action: DaemonAction,
    pub mode: DaemonStartMode,
    pub state_root: String,
    pub localityd_bin: Option<String>,
    pub tcp_addr: Option<String>,
    pub include_env: Vec<String>,
}

/// Whether an option of the daemon command takes the next argument as its
/// value.
pub open spec fn is_daemon_option(arg: Seq<char>) -> bool {
    ||| arg == "--localityd-bin"@
    ||| arg == "--state-dir"@
    ||| arg == "--tcp-addr"@
    ||| arg == "--include-env"@
}

/// The first argument that is neither an option nor the value of one.
pub open spec fn daemon_word(args: Seq<Seq<char>>) -> Option<Seq<char>>
    decreases args.len(),
{
    if args.len() == 0 {
        None
    } else if is_daemon_option(args[0]) {
        if args.len() == 1 {
            None
        } else {
            daemon_word(args.skip(2))
        }
    } else if text::begins_with_char(args[0], '-') {
        daemon_word(args.skip(1))
    } else {
        Some(args[0])
    }
}

fn takes_value(arg: &str) -> (r: bool)
    ensures
        r == is_daemon_option(arg@),
{
    text::same_text(arg, "--localityd-bin") || text::same_text(arg, "--state-dir")
        || text::same_text(arg, "--tcp-addr") || text::same_text(arg, "--include-env")
}

fn first_positional(args: &[String]) -> (r: Option<&str>)
    ensures
        text::opt_str(r) == daemon_word(text::texts(args@)),
{
    let ghost all = text::texts(args@);
    let mut i: usize = 0;
    assert(all.skip(0) == all);
    while i < args.len()
        invariant
            i <= args.len(),
            all == text::texts(args@),
            daemon_word(all) == daemon_word(all.skip(i as int)),
        decreases args.len() - i,
    {
        let arg = args[i].as_str();
        assert(all.skip(i as int)[0] == arg@);
        if takes_value(arg) {
            if i + 1 >= args.len() {
                return None;
            }
            assert(all.skip(i as int).skip(2) == all.skip(i + 2));
            i += 2;
            continue;
        }
        if text::starts_with_char(arg, '-') {
            assert(all.skip(i as int).skip(1) == all.skip(i + 1));
            i += 1;
            continue;
        }
        return Some(arg);
    }
    None
}

/// How to use the daemon command.
pub open spec fn usage_text() -> Seq<char> {
    "usage: loc daemon start|stop|status|reload|restart [--session|--launchd] [--localityd-bin <path>] [--state-dir <path>] [--tcp-addr <host:port|off>] [--include-env <KEY>]"@
}

/// Whether options are those of the arguments. The state directory and the
/// address fall back to the given ones.
pub open spec fn are_options(
    options: DaemonOptions,
    args: Seq<Seq<char>>,
    action: DaemonAction,
    default_state_root: Seq<char>,
    environment_tcp_addr: Option<Seq<char>>,
) -> bool {
    &&& options.action == action
    &&& options.mode == (if args.contains("--session"@) {
        DaemonStartMode::Session
    } else if args.contains("--launchd"@) {
        DaemonStartMode::Launchd
    } else {
        DaemonStartMode::Auto
    })
    &&& options.state_root@ == (match args::value_of(args, "--state-dir"@) {
        Some(path) => path,
        None => default_state_root,
    })
    &&& text::opt_text(options.localityd_bin) == args::value_of(args, "--localityd-bin"@)
    &&& text::opt_text(options.tcp_addr) == (match args::value_of(args, "--tcp-addr"@) {
        Some(addr) => Some(addr),
        None => environment_tcp_addr,
    })
    &&& text::texts(options.include_env@) == args::values_of(args, "--include-env"@)
}

/// The options of the arguments. An action has to be named, and at most one way
/// to start.
pub fn parse_options(
    args: &[String],
    default_state_root: &str,
    environment_tcp_addr: &Option<String>,
) -> (r: Result<DaemonOptions, DaemonControlError>)
    ensures
        ({
            let all = text::texts(args@);
            let action = match daemon_word(all) {
                Some(word) => DaemonAction::named(word),
                None => None,
            };
            match action {
                None => r matches Err(e) && is_control_error(e, "usage"@, usage_text()),
                Some(a) => if all.contains("--session"@) && all.contains("--launchd"@) {
                    r matches Err(e) && is_control_error(
                        e,
                        "usage"@,
                        "--session and --launchd are mutually exclusive"@,
                    )
                } else {
                    r matches Ok(o) && are_options(
                        o,
                        all,
                        a,
                        default_state_root@,
                        text::opt_text(*environment_tcp_addr),
                    )
                },
            }
        }),
{
    let action = match first_positional(args) {
        Some(word) => DaemonAction::parse(word),
        None => None,
    };
    let action = match action {
        Some(action) => action,
        None => {
            return Err(
                DaemonControlError::new(
                    "usage",
                    "usage: loc daemon start|stop|status|reload|restart [--session|--launchd] [--localityd-bin <path>] [--state-dir <path>] [--tcp-addr <host:port|off>] [--include-env <KEY>]",
                ),
            );
        },
    };
    let session = args::has_flag(args, "--session");
    let launchd = args::has_flag(args, "--launchd");
    if session && launchd {
        return Err(
            DaemonControlError::new("usage", "--session and --launchd are mutually exclusive"),
        );
    }
    let mode = if session {
        DaemonStartMode::Session
    } else if launchd {
        DaemonStartMode::Launchd
    } else {
        DaemonStartMode::Auto
    };
    let state_root = match args::flag_value(args, "--state-dir") {
        Some(path) => path.to_string(),
        None => default_state_root.to_string(),
    };
    let localityd_bin = match args::flag_value(args, "--localityd-bin") {
        Some(path) => Some(path.to_string()),
        None => None,
    };
    let tcp_addr = match args::flag_value(args, "--tcp-addr") {
        Some(addr) => Some(addr.to_string()),
        None => text::clone_option(environment_tcp_addr),
    };
    Ok(
        DaemonOptions {
            action,
            mode,
            state_root,
            localityd_bin,
            tcp_addr,
            include_env: args::flag_values(args, "--include-env"),
        },
    )
}

/// Whether the process that runs the daemon is stopped too: where the daemon
/// did not shut down by itself, and always where launchd would start it again.
pub fn should_stop_managed_process(
    mode: DaemonStartMode,
    stopped_by_shutdown: bool,
    target_os: &str,
) -> (r: bool)
    ensures
        r == (!stopped_by_shutdown || (mode != DaemonStartMode::Session && target_os@
            == "macos"@)),
{
    !stopped_by_shutdown || mode.should_use_launchd_for_target(target_os)
}

/// What is known while the daemon is being stopped; nothing at first.
#[derive(Clone, Copy, Debug, PartialEq, Eq, Structural)]
pub struct StopProgress {
    /// Whether the daemon answered.
    pub was_running: Option<bool>,
    /// Whether it accepted to shut down.
    pub shutdown_accepted: Option<bool>,
    /// Whether it then fell silent in time.
    pub silent_after_shutdown: Option<bool>,
    /// Whether a process was stopped.
    pub process_stopped: Option<bool>,
    /// Whether it fell silent though no process was stopped.
    pub settled: Option<bool>,
    /// Whether it was silent in the end.
    pub silent: Option<bool>,
}

/// What is done next to stop the daemon.
#[derive(Debug, PartialEq, Eq)]
pub enum StopAction {
    Probe,
    RequestShutdown,
    AwaitSilenceAfterShutdown,
    StopProcess,
    AwaitSettled,
    AwaitSilence,
    /// The files of the process are removed and these words reported.
    Report(&'static str),
    Fail(DaemonControlError),
}

impl StopProgress {
    /// Whether the daemon fell silent after it had accepted to shut down.
    pub open spec fn by_shutdown(self) -> bool {
        self.was_running == Some(true) && self.shutdown_accepted == Some(true)
            && self.silent_after_shutdown == Some(true)
    }
}

/// The steps of stopping the daemon, in the order in which they can come.
#[derive(Debug, PartialEq, Eq)]
pub enum StopStep {
    Probe,
    RequestShutdown,
    AwaitSilenceAfterShutdown,
    StopProcess,
    AwaitSettled,
    AwaitSilence,
    Fail,
    Stopped,
    WasNotRunning,
}

/// The step that comes next: the daemon is asked to shut down, then its process
/// is stopped where that is called for, and in the end it has to be silent.
pub open spec fn stop_step(
    p: StopProgress,
    mode: DaemonStartMode,
    target_os: Seq<char>,
) -> StopStep {
    let stops_process = !p.by_shutdown() || (mode != DaemonStartMode::Session && target_os
        == "macos"@);
    if p.was_running is None {
        StopStep::Probe
    } else if p.was_running == Some(true) && p.shutdown_accepted is None {
        StopStep::RequestShutdown
    } else if p.was_running == Some(true) && p.shutdown_accepted == Some(true)
        && p.silent_after_shutdown is None {
        StopStep::AwaitSilenceAfterShutdown
    } else if stops_process && p.process_stopped is None {
        StopStep::StopProcess
    } else if p.was_running == Some(true) && !(stops_process && p.process_stopped == Some(true))
        && p.settled is None {
        StopStep::AwaitSettled
    } else if p.silent is None {
        StopStep::AwaitSilence
    } else if p.silent == Some(false) {
        StopStep::Fail
    } else if p.was_running == Some(true) || stops_process && p.process_stopped == Some(true) {
        StopStep::Stopped
    } else {
        StopStep::WasNotRunning
    }
}

/// What is known once a step has been answered.
pub open spec fn answered(p: StopProgress, step: StopStep, answer: bool) -> StopProgress {
    match step {
        StopStep::Probe => StopProgress { was_running: Some(answer), ..p },
        StopStep::RequestShutdown => StopProgress { shutdown_accepted: Some(answer), ..p },
        StopStep::AwaitSilenceAfterShutdown => StopProgress {
            silent_after_shutdown: Some(answer),
            ..p
        },
        StopStep::StopProcess => StopProgress { process_stopped: Some(answer), ..p },
        StopStep::AwaitSettled => StopProgress { settled: Some(answer), ..p },
        StopStep::AwaitSilence => StopProgress { silent: Some(answer), ..p },
        _ => p,
    }
}

/// How far a step is from the end.
pub open spec fn steps_left(step: StopStep) -> nat {
    match step {
        StopStep::Probe => 6,
        StopStep::RequestShutdown => 5,
        StopStep::AwaitSilenceAfterShutdown => 4,
        StopStep::StopProcess => 3,
        StopStep::AwaitSettled => 2,
        StopStep::AwaitSilence => 1,
        _ => 0,
    }
}

/// Stopping ends: whatever a step is answered, a later one comes next.
pub proof fn law_stopping_goes_forward(
    p: StopProgress,
    mode: DaemonStartMode,
    target_os: Seq<char>,
    answer: bool,
)
    requires
        steps_left(stop_step(p, mode, target_os)) > 0,
    ensures
        steps_left(
            stop_step(answered(p, stop_step(p, mode, target_os), answer), mode, target_os),
        ) < steps_left(stop_step(p, mode, target_os)),
{
}

/// A stop is reported only of a daemon that is silent.
pub proof fn law_stop_is_reported_of_silence_alone(
    p: StopProgress,
    mode: DaemonStartMode,
    target_os: Seq<char>,
)
    ensures
        stop_step(p, mode, target_os) is Stopped || stop_step(p, mode, target_os) is WasNotRunning
            ==> p.silent == Some(true),
{
}

/// What is done next to stop the daemon.
pub fn next_stop_action(progress: StopProgress, mode: DaemonStartMode, target_os: &str) -> (r:
    StopAction)
    ensures
        match stop_step(progress, mode, target_os@) {
            StopStep::Probe => r == StopAction::Probe,
            StopStep::RequestShutdown => r == StopAction::RequestShutdown,
            StopStep::AwaitSilenceAfterShutdown => r == StopAction::AwaitSilenceAfterShutdown,
            StopStep::StopProcess => r == StopAction::StopProcess,
            StopStep::AwaitSettled => r == StopAction::AwaitSettled,
            StopStep::AwaitSilence => r == StopAction::AwaitSilence,
            StopStep::Fail => r matches StopAction::Fail(e) && is_control_error(
                e,
                "stop_failed"@,
                "daemon is still responding; if it was started manually, stop the localityd process directly"@,
            ),
            StopStep::Stopped => r matches StopAction::Report(m) && m@ == "daemon stopped"@,
            StopStep::WasNotRunning => r matches StopAction::Report(m) && m@
                == "daemon was not running"@,
        },
{
    let was_running = match progress.was_running {
        Some(was_running) => was_running,
        None => {
            return StopAction::Probe;
        },
    };
    let mut by_shutdown = false;
    if was_running {
        match progress.shutdown_accepted {
            None => {
                return StopAction::RequestShutdown;
            },
            Some(true) => match progress.silent_after_shutdown {
                None => {
                    return StopAction::AwaitSilenceAfterShutdown;
                },
                Some(silent) => {
                    by_shutdown = silent;
                },
            },
            Some(false) => {},
        }
    }
    let mut process_stopped = false;
    if should_stop_managed_process(mode, by_shutdown, target_os) {
        match progress.process_stopped {
            None => {
                return StopAction::StopProcess;
            },
            Some(stopped) => {
                process_stopped = stopped;
            },
        }
    }
    if was_running && !process_stopped && progress.settled.is_none() {
        return StopAction::AwaitSettled;
    }
    match progress.silent {
        None => StopAction::AwaitSilence,
        Some(false) => StopAction::Fail(
            DaemonControlError::new(
                "stop_failed",
                "daemon is still responding; if it was started manually, stop the localityd process directly",
            ),
        ),
        Some(true) => if was_running || process_stopped {
            StopAction::Report("daemon stopped")
        } else {
            StopAction::Report("daemon was not running")
        },
    }
}

/// The binary of the daemon: where it is said to be, else where the environment
/// says, at the usual places or on the search path.
pub fn find_localityd_binary(explicit: &Option<Candidate>, search: &HelperSearch) -> (r: Result<
    String,
    DaemonControlError,
>)
    ensures
        match *explicit {
            Some(place) => if place.exists {
                r matches Ok(path) && path@ == place.path@
            } else {
                r matches Err(e) && is_control_error(
                    e,
                    "binary_missing"@,
                    "localityd binary not found at `"@ + place.path@ + "`"@,
                )
            },
            None => match file_provider::found_helper(*search) {
                Some(path) => r == Ok::<_, DaemonControlError>(path),
                None => r matches Err(e) && is_control_error(
                    e,
                    "binary_missing"@,
                    "localityd binary was not found; build/install localityd or pass --localityd-bin <path>"@,
                ),
            },
        },
{
    if let Some(place) = explicit {
        if place.exists {
            return Ok(place.path.clone());
        }
        return Err(
            DaemonControlError {
                code: "binary_missing",
                message: text::concat3("localityd binary not found at `", &place.path, "`"),
            },
        );
    }
    match file_provider::find_helper(search) {
        Some(path) => Ok(path),
        None => Err(
            DaemonControlError::new(
                "binary_missing",
                "localityd binary was not found; build/install localityd or pass --localityd-bin <path>",
            ),
        ),
    }
}

/// The name of a binary on an operating system.
pub fn binary_name(name: &str, on_windows: bool) -> (r: String)
    ensures
        r@ == (if on_windows {
            name@ + ".exe"@
        } else {
            name@
        }),
{
    let mut out = name.to_string();
    if on_windows {
        out.append(".exe");
    }
    out
}

/// Whether an address says that there is no TCP endpoint.
pub open spec fn is_disabled(addr: Seq<char>) -> bool {
    ||| addr == "0"@
    ||| addr == "off"@
    ||| addr == "none"@
    ||| addr == "disabled"@
}

/// Whether an address says that there is no TCP endpoint.
pub fn tcp_addr_disabled(value: &str) -> (r: bool)
    ensures
        r == is_disabled(value@),
{
    text::same_text(value, "0") || text::same_text(value, "off") || text::same_text(value, "none")
        || text::same_text(value, "disabled")
}

/// The address to use: the one asked for, else the default one.
pub open spec fn start_addr(tcp_addr: Option<Seq<char>>, default_addr: Seq<char>) -> Seq<char> {
    match tcp_addr {
        Some(addr) => addr,
        None => default_addr,
    }
}

/// Whether the daemon can be started with an address. Windows has no other
/// endpoint than TCP; `malformed` says why the address is none.
pub fn validate_start_endpoint(
    on_windows: bool,
    tcp_addr: &Option<String>,
    default_addr: &str,
    malformed: Option<String>,
) -> (r: Result<(), DaemonControlError>)
    ensures
        if !on_windows {
            r is Ok
        } else if is_disabled(start_addr(text::opt_text(*tcp_addr), default_addr@)) {
            r matches Err(e) && is_control_error(
                e,
                "unsupported"@,
                "Windows daemon session mode requires TCP IPC; omit --tcp-addr off or pass --tcp-addr <host:port>"@,
            )
        } else {
            match malformed {
                Some(why) => r matches Err(e) && is_control_error(
                    e,
                    "usage"@,
                    invalid_addr(start_addr(text::opt_text(*tcp_addr), default_addr@), why@),
                ),
                None => r is Ok,
            }
        },
{
    if !on_windows {
        return Ok(());
    }
    let value = match tcp_addr {
        Some(addr) => addr.as_str(),
        None => default_addr,
    };
    if tcp_addr_disabled(value) {
        return Err(
            DaemonControlError::new(
                "unsupported",
                "Windows daemon session mode requires TCP IPC; omit --tcp-addr off or pass --tcp-addr <host:port>",
            ),
        );
    }
    match malformed {
        Some(why) => Err(
            DaemonControlError { code: "usage", message: invalid_tcp_addr(value, &why) },
        ),
        None => Ok(()),
    }
}

/// What is said of an address that is none.
pub open spec fn invalid_addr(value: Seq<char>, why: Seq<char>) -> Seq<char> {
    "invalid daemon TCP address `"@ + value + "`: "@ + why
}

/// What is said of an address that is none.
pub fn invalid_tcp_addr(value: &str, why: &str) -> (r: String)
    ensures
        r@ == invalid_addr(value@, why@),
{
    let mut out = text::concat3("invalid daemon TCP address `", value, "`: ");
    out.append(why);
    out
}

/// Why the daemon did not answer.
#[derive(Debug, PartialEq, Eq)]
pub enum DaemonClientError {
    NotAvailable(String),
    TimedOut(String),
    Io(String),
    Protocol(String),
}

/// What is known of a daemon that was started.
#[derive(Debug, PartialEq, Eq)]
pub struct DaemonMetadata {
    pub manager: DaemonManager,
    pub localityd_bin: String,
    pub tcp_addr: String,
}

/// The address at which the daemon is reached: the one asked for, else the one
/// that it was started with, else the default one.
pub open spec fn control_addr(
    tcp_addr: Option<Seq<char>>,
    metadata: Option<DaemonMetadata>,
    default_addr: Seq<char>,
) -> Seq<char> {
    match tcp_addr {
        Some(addr) => addr,
        None => match metadata {
            Some(m) => m.tcp_addr@,
            None => default_addr,
        },
    }
}

/// The address at which the daemon is reached, where there is one.
pub fn control_tcp_addr(
    tcp_addr: &Option<String>,
    metadata: &Option<DaemonMetadata>,
    default_addr: &str,
) -> (r: Result<String, DaemonClientError>)
    ensures
        ({
            let addr = control_addr(text::opt_text(*tcp_addr), *metadata, default_addr@);
            if is_disabled(addr) {
                r matches Err(DaemonClientError::NotAvailable(m)) && m@
                    == "daemon TCP IPC is disabled"@
            } else {
                r matches Ok(a) && a@ == addr
            }
        }),
{
    let value = match tcp_addr {
        Some(addr) => addr.clone(),
        None => match metadata {
            Some(m) => m.tcp_addr.clone(),
            None => default_addr.to_string(),
        },
    };
    if tcp_addr_disabled(&value) {
        return Err(DaemonClientError::NotAvailable("daemon TCP IPC is disabled".to_string()));
    }
    Ok(value)
}

/// Whether a request that failed on the socket is tried over TCP: on Unix,
/// where nothing is there.
pub fn should_fall_back_to_tcp(on_unix: bool, error: &DaemonClientError) -> (r: bool)
    ensures
        r == (on_unix && *error is NotAvailable),
{
    on_unix && match error {
        DaemonClientError::NotAvailable(_) => true,
        _ => false,
    }
}

/// Why a request failed on the socket and over TCP: the first failure, unless
/// there was something at the other end of the second.
pub fn fallback_failure(first: DaemonClientError, second: DaemonClientError) -> (r:
    DaemonClientError)
    ensures
        r == (if second is NotAvailable {
            first
        } else {
            second
        }),
{
    match second {
        DaemonClientError::NotAvailable(_) => first,
        other => other,
    }
}

/// Whether an error names the variable at a position, the first that is not set.
pub open spec fn names_unset(
    error: DaemonControlError,
    names: Seq<String>,
    values: Seq<Option<String>>,
    k: int,
) -> bool {
    &&& 0 <= k < names.len()
    &&& values[k] is None
    &&& forall|j: int| 0 <= j < k ==> (#[trigger] values[j]) is Some
    &&& is_control_error(
        error,
        "env_missing"@,
        "environment variable `"@ + names[k]@ + "` is not set"@,
    )
}

/// Whether an error names the first variable that is not set.
pub open spec fn names_first_unset(
    error: DaemonControlError,
    names: Seq<String>,
    values: Seq<Option<String>>,
) -> bool {
    exists|k: int| #[trigger] names_unset(error, names, values, k)
}

/// The values of the variables to hand to the daemon; `values` are those of the
/// environment, in the order of the names. The first one that is not set is
/// named.
pub fn included_environment(names: &Vec<String>, values: &Vec<Option<String>>) -> (r: Result<
    Vec<(String, String)>,
    DaemonControlError,
>)
    requires
        names.len() == values.len(),
    ensures
        match r {
            Ok(pairs) => pairs.len() == names.len() && forall|k: int|
                0 <= k < names.len() ==> (#[trigger] pairs[k]).0@ == names[k]@ && values[k]
                    == Some(pairs[k].1),
            Err(e) => names_first_unset(e, names@, values@),
        },
{
    let mut pairs: Vec<(String, String)> = Vec::new();
    let mut i: usize = 0;
    while i < names.len()
        invariant
            i <= names.len(),
            names.len() == values.len(),
            pairs.len() == i,
            forall|k: int|
                0 <= k < i ==> (#[trigger] pairs[k]).0@ == names[k]@ && values[k] == Some(
                    pairs[k].1,
                ),
            forall|k: int| 0 <= k < i ==> (#[trigger] values[k]) is Some,
        decreases names.len() - i,
    {
        match &values[i] {
            Some(value) => pairs.push((names[i].clone(), value.clone())),
            None => {
                let e = DaemonControlError {
                    code: "env_missing",
                    message: text::concat3("environment variable `", &names[i], "` is not set"),
                };
                assert(names_unset(e, names@, values@, i as int));
                assert(names_first_unset(e, names@, values@));
                return Err(e);
            },
        }
        i += 1;
    }
    Ok(pairs)
}

/// The failure of a daemon that was started and does not answer in time.
pub fn start_failed(stderr_log: &str) -> (r: DaemonControlError)
    ensures
        is_control_error(
            r,
            "start_failed"@,
            "daemon did not become ready; check `"@ + stderr_log@ + "`"@,
        ),
{
    DaemonControlError {
        code: "start_failed",
        message: text::concat3("daemon did not become ready; check `", stderr_log, "`"),
    }
}

/// What a daemon answered: whether it went well, an error with a code and
/// words, and whether there is something to read.
#[derive(Debug, PartialEq, Eq)]
pub struct DaemonReply {
    pub ok: bool,
    pub error: Option<(String, String)>,
    pub has_payload: bool,
}

/// Whether an answer is there to be read. `reply` is the answer, or in words
/// why there is none.
pub fn check_daemon_reply(reply: &Result<DaemonReply, String>) -> (r: Result<
    (),
    DaemonControlError,
>)
    ensures
        match *reply {
            Err(why) => r matches Err(e) && is_control_error(
                e,
                "daemon_error"@,
                "daemon request failed: "@ + why@,
            ),
            Ok(answer) => match answer.error {
                Some(error) => r matches Err(e) && is_control_error(
                    e,
                    "daemon_error"@,
                    error.0@ + ": "@ + error.1@,
                ),
                None => if answer.has_payload {
                    r is Ok
                } else {
                    r matches Err(e) && is_control_error(
                        e,
                        "daemon_protocol_error"@,
                        "daemon returned no payload"@,
                    )
                },
            },
        },
{
    match reply {
        Err(why) => {
            let mut message = "daemon request failed: ".to_string();
            message.append(why);
            Err(DaemonControlError { code: "daemon_error", message })
        },
        Ok(answer) => match &answer.error {
            Some(error) => Err(
                DaemonControlError {
                    code: "daemon_error",
                    message: text::concat3(&error.0, ": ", &error.1),
                },
            ),
            None => if answer.has_payload {
                Ok(())
            } else {
                Err(
                    DaemonControlError::new("daemon_protocol_error", "daemon returned no payload"),
                )
            },
        },
    }
}

/// Whether a daemon that was asked is running: it answered, and well.
pub fn is_running(reply: &Result<DaemonReply, DaemonClientError>) -> (r: bool)
    ensures
        r == (*reply matches Ok(answer) && answer.ok),
{
    match reply {
        Ok(answer) => answer.ok,
        Err(_) => false,
    }
}

/// Whether the daemon is in the state that is waited for.
pub fn has_reached(state: DaemonRunState, running: bool) -> (r: bool)
    ensures
        r == (running == (state == DaemonRunState::Running)),
{
    (state == DaemonRunState::Running && running) || (state == DaemonRunState::Stopped && !running)
}

/// Where the files of the daemon are.
#[derive(Debug, PartialEq, Eq)]
pub struct DaemonPaths {
    pub state_root: String,
    pub socket: String,
    pub pid_file: String,
    pub stdout_log: String,
    pub stderr_log: String,
    pub launch_agent: Option<String>,
}

/// What changed in the mounts that the daemon watches.
#[derive(Clone, Copy, Debug, PartialEq, Eq, Structural)]
pub struct DaemonReloadReport {
    pub added: usize,
    pub removed: usize,
    pub unchanged: usize,
}

/// A job that the daemon is at.
#[derive(Debug, PartialEq, Eq)]
pub struct DaemonActiveJob {
    pub kind: String,
    pub target: Option<String>,
    pub elapsed_ms: u64,
}

/// What the daemon tells about itself.
#[derive(Debug, PartialEq, Eq)]
pub struct DaemonStatusReport {
    pub version: String,
    pub build_id: String,
    pub watched_mounts: usize,
    pub active_job: bool,
    pub pending_requests: usize,
    pub pending_hydrations: usize,
    pub pending_freshness: usize,
    pub ready_freshness: usize,
    pub deferred_freshness: usize,
    pub ready_freshness_budget_units: usize,
    pub freshness_budget_units: usize,
    pub active_job_detail: Option<DaemonActiveJob>,
    pub scheduler_mode: String,
}

/// What was done with the daemon, and what it then is.
#[derive(Debug, PartialEq, Eq)]
pub struct DaemonControlReport {
    pub ok: bool,
    pub command: &'static str,
    pub action: &'static str,
    pub state: DaemonRunState,
    pub manager: DaemonManager,
    pub state_root: String,
    pub socket: String,
    pub tcp_addr: String,
    pub localityd_bin: Option<String>,
    pub launch_agent: Option<String>,
    pub pid_file: Option<String>,
    pub stdout_log: Option<String>,
    pub stderr_log: Option<String>,
    pub daemon_status: Option<DaemonStatusReport>,
    pub reload: Option<DaemonReloadReport>,
    pub message: String,
}

/// Whether a report is of an action. What the daemon was started with counts
/// only while it runs, and there before the options.
pub open spec fn is_control_report(
    report: DaemonControlReport,
    action: DaemonAction,
    state: DaemonRunState,
    manager: DaemonManager,
    tcp_addr: Option<Seq<char>>,
    paths: DaemonPaths,
    stored: Option<DaemonMetadata>,
    localityd_bin: Option<Seq<char>>,
    default_addr: Seq<char>,
    message: Seq<char>,
) -> bool {
    let metadata = if state == DaemonRunState::Running {
        stored
    } else {
        None
    };
    &&& report.ok
    &&& report.command@ == "daemon"@
    &&& report.action@ == action.name()
    &&& report.state == state
    &&& report.manager == (match metadata {
        Some(m) if manager == DaemonManager::Unknown => m.manager,
        _ => manager,
    })
    &&& report.state_root@ == paths.state_root@
    &&& report.socket@ == paths.socket@
    &&& report.tcp_addr@ == (match metadata {
        Some(m) => m.tcp_addr@,
        None => start_addr(tcp_addr, default_addr),
    })
    &&& text::opt_text(report.localityd_bin) == (match (localityd_bin, metadata) {
        (Some(path), _) => Some(path),
        (None, Some(m)) => Some(m.localityd_bin@),
        (None, None) => None,
    })
    &&& report.launch_agent == paths.launch_agent
    &&& text::opt_text(report.pid_file) == Some(paths.pid_file@)
    &&& text::opt_text(report.stdout_log) == Some(paths.stdout_log@)
    &&& text::opt_text(report.stderr_log) == Some(paths.stderr_log@)
    &&& report.message@ == message
}

/// The report of an action. `stored` is what was written down when the daemon
/// was started.
pub fn report(
    action: DaemonAction,
    state: DaemonRunState,
    manager: DaemonManager,
    tcp_addr: &Option<String>,
    paths: &DaemonPaths,
    stored: &Option<DaemonMetadata>,
    localityd_bin: &Option<String>,
    default_addr: &str,
    message: &str,
) -> (r: DaemonControlReport)
    ensures
        is_control_report(
            r,
            action,
            state,
            manager,
            text::opt_text(*tcp_addr),
            *paths,
            *stored,
            text::opt_text(*localityd_bin),
            default_addr@,
            message@,
        ),
        r.daemon_status is None,
        r.reload is None,
{
    let running = state == DaemonRunState::Running;
    let (known_manager, known_addr, known_bin) = match stored {
        Some(m) if running => (
            Some(m.manager),
            Some(m.tcp_addr.clone()),
            Some(m.localityd_bin.clone()),
        ),
        _ => (None, None, None),
    };
    let manager = match known_manager {
        Some(known) if manager == DaemonManager::Unknown => known,
        _ => manager,
    };
    let tcp_addr = match known_addr {
        Some(addr) => addr,
        None => match tcp_addr {
            Some(addr) => addr.clone(),
            None => default_addr.to_string(),
        },
    };
    let localityd_bin = match localityd_bin {
        Some(path) => Some(path.clone()),
        None => known_bin,
    };
    DaemonControlReport {
        ok: true,
        command: "daemon",
        action: action.as_str(),
        state,
        manager,
        state_root: paths.state_root.clone(),
        socket: paths.socket.clone(),
        tcp_addr,
        localityd_bin,
        launch_agent: text::clone_option(&paths.launch_agent),
        pid_file: Some(paths.pid_file.clone()),
        stdout_log: Some(paths.stdout_log.clone()),
        stderr_log: Some(paths.stderr_log.clone()),
        daemon_status: None,
        reload: None,
        message: message.to_string(),
    }
}

/// The report on a daemon that was asked whether it runs. `told` is what it
/// says about itself, if it says anything.
pub fn status_report(
    action: DaemonAction,
    running: bool,
    detected: DaemonManager,
    tcp_addr: &Option<String>,
    paths: &DaemonPaths,
    stored: &Option<DaemonMetadata>,
    default_addr: &str,
    told: Option<DaemonStatusReport>,
) -> (r: DaemonControlReport)
    ensures
        is_control_report(
            r,
            action,
            if running {
                DaemonRunState::Running
            } else {
                DaemonRunState::Stopped
            },
            if running {
                detected
            } else {
                DaemonManager::Unknown
            },
            text::opt_text(*tcp_addr),
            *paths,
            *stored,
            None,
            default_addr@,
            if running {
                "daemon "@ + "running"@
            } else {
                "daemon "@ + "stopped"@
            },
        ),
        r.daemon_status == (if running {
            told
        } else {
            None
        }),
        r.reload is None,
{
    let state = if running {
        DaemonRunState::Running
    } else {
        DaemonRunState::Stopped
    };
    let manager = if running {
        detected
    } else {
        DaemonManager::Unknown
    };
    let mut message = "daemon ".to_string();
    message.append(state.as_str());
    let report = report(
        action,
        state,
        manager,
        tcp_addr,
        paths,
        stored,
        &None,
        default_addr,
        &message,
    );
    DaemonControlReport {
        daemon_status: if running {
            told
        } else {
            None
        },
        ..report
    }
}

/// The report on a daemon whose mounts were reloaded.
pub fn reload_report(
    detected: DaemonManager,
    tcp_addr: &Option<String>,
    paths: &DaemonPaths,
    stored: &Option<DaemonMetadata>,
    default_addr: &str,
    reload: DaemonReloadReport,
    told: Option<DaemonStatusReport>,
) -> (r: DaemonControlReport)
    ensures
        is_control_report(
            r,
            DaemonAction::Reload,
            DaemonRunState::Running,
            detected,
            text::opt_text(*tcp_addr),
            *paths,
            *stored,
            None,
            default_addr@,
            "daemon watches reloaded"@,
        ),
        r.reload == Some(reload),
        r.daemon_status == told,
{
    let report = report(
        DaemonAction::Reload,
        DaemonRunState::Running,
        detected,
        tcp_addr,
        paths,
        stored,
        &None,
        default_addr,
        "daemon watches reloaded",
    );
    DaemonControlReport { reload: Some(reload), daemon_status: told, ..report }
}

/// What is written down of a daemon that was started.
pub fn started_metadata(
    manager: DaemonManager,
    localityd_bin: &str,
    tcp_addr: &Option<String>,
    default_addr: &str,
) -> (r: DaemonMetadata)
    ensures
        r.manager == manager,
        r.localityd_bin@ == localityd_bin@,
        r.tcp_addr@ == start_addr(text::opt_text(*tcp_addr), default_addr@),
{
    DaemonMetadata {
        manager,
        localityd_bin: localityd_bin.to_string(),
        tcp_addr: match tcp_addr {
            Some(addr) => addr.clone(),
            None => default_addr.to_string(),
        },
    }
}

/// What becomes of a restart once the daemon was told to stop: where that failed
/// and it still runs, the failure; else it is started.
pub fn restart_may_start(
    stopped: Result<(), DaemonControlError>,
    still_running: bool,
) -> (r: Result<(), DaemonControlError>)
    ensures
        match stopped {
            Err(e) if still_running => r == Err::<(), _>(e),
            _ => r is Ok,
        },
{
    match stopped {
        Err(e) => if still_running {
            Err(e)
        } else {
            Ok(())
        },
        Ok(()) => Ok(()),
    }
}

/// The report of a start as that of a restart.
pub fn restarted(report: DaemonControlReport) -> (r: DaemonControlReport)
    ensures
        r == (DaemonControlReport { action: r.action, message: r.message, ..report }),
        r.action@ == "restart"@,
        r.message@ == "daemon restarted"@,
{
    DaemonControlReport {
        action: DaemonAction::Restart.as_str(),
        message: "daemon restarted".to_string(),
        ..report
    }
}

/// Whether the daemon can be reloaded: only while it runs.
pub fn ensure_reloadable(running: bool) -> (r: Result<(), DaemonControlError>)
    ensures
        if running {
            r is Ok
        } else {
            r matches Err(e) && is_control_error(
                e,
                "daemon_not_running"@,
                "daemon is not running"@,
            )
        },
{
    if running {
        Ok(())
    } else {
        Err(DaemonControlError::new("daemon_not_running", "daemon is not running"))
    }
}

/// What a daemon is reached at does not change by reporting it: while it runs,
/// the address in a report is the one that requests without an address of their
/// own go to.
pub proof fn law_report_names_the_control_address(
    report: DaemonControlReport,
    action: DaemonAction,
    manager: DaemonManager,
    paths: DaemonPaths,
    stored: Option<DaemonMetadata>,
    localityd_bin: Option<Seq<char>>,
    default_addr: Seq<char>,
    message: Seq<char>,
)
    requires
        is_control_report(
            report,
            action,
            DaemonRunState::Running,
            manager,
            None,
            paths,
            stored,
            localityd_bin,
            default_addr,
            message,
        ),
    ensures
        report.tcp_addr@ == control_addr(None, stored, default_addr),
{
}

} // verus!
