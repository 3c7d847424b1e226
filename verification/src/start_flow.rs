//! The order in which the daemon is started.
use vstd::prelude::*;

use crate::daemon;
use crate::daemon::{
    DaemonControlError, DaemonControlReport, DaemonManager, DaemonMetadata, DaemonOptions,
    DaemonPaths, DaemonRunState,
};
use crate::file_provider;
use crate::file_provider::{Candidate, HelperSearch};
use crate::text;

verus! {

/// Where the binary of the daemon may be.
#[derive(Debug, PartialEq, Eq)]
pub struct BinaryPlaces {
    pub explicit: Option<Candidate>,
    pub search: HelperSearch,
}

/// A process that was started.
#[derive(Debug, PartialEq, Eq)]
pub struct StartedDaemon {
    pub manager: DaemonManager,
    pub localityd_bin: String,
}

/// What is known so far of a daemon that is being started.
#[derive(Debug, PartialEq, Eq)]
pub struct StartProgress {
    /// Whether a daemon answers already, and what keeps it running.
    pub running: Option<(bool, DaemonManager)>,
    /// That the directory of the state is there, or why it is not.
    pub state_root: Option<Result<(), String>>,
    pub places: Option<BinaryPlaces>,
    /// That something can keep the daemon running, or why nothing can.
    pub manager: Option<Result<(), DaemonControlError>>,
    /// The values of the variables that the daemon is to get, in their order.
    pub environment: Option<Vec<Option<String>>>,
    pub started: Option<Result<StartedDaemon, DaemonControlError>>,
    /// Whether the daemon answered in time.
    pub ready: Option<bool>,
    /// That the metadata were written, or why they were not.
    pub written: Option<Result<(), DaemonControlError>>,
}

/// A process that is to be started.
#[derive(Debug, PartialEq, Eq)]
pub struct StartCall {
    pub localityd_bin: String,
    pub environment: Vec<(String, String)>,
}

/// What is done next to start the daemon.
#[derive(Debug, PartialEq, Eq)]
pub enum StartAction {
    Probe,
    CreateStateRoot,
    FindBinary,
    ResolveManager,
    ReadEnvironment,
    Start(StartCall),
    AwaitRunning,
    WriteMetadata(DaemonMetadata),
    Report(DaemonControlReport),
    Fail(DaemonControlError),
}

/// What the machine says of a start: its system, the address that the daemon
/// has by default, why the address that it is to have is none, and what an
/// earlier start left behind.
#[derive(Debug, PartialEq, Eq)]
pub struct StartSetting {
    pub on_windows: bool,
    pub default_addr: String,
    pub malformed: Option<String>,
    pub stored: Option<DaemonMetadata>,
}

/// Why the daemon cannot be reached where it is to be started, if it cannot.
pub open spec fn is_endpoint_refusal(
    options: DaemonOptions,
    setting: StartSetting,
    e: DaemonControlError,
) -> bool {
    let addr = daemon::start_addr(text::opt_text(options.tcp_addr), setting.default_addr@);
    if daemon::is_disabled(addr) {
        daemon::is_control_error(
            e,
            "unsupported"@,
            "Windows daemon session mode requires TCP IPC; omit --tcp-addr off or pass --tcp-addr <host:port>"@,
        )
    } else {
        setting.malformed matches Some(why) && daemon::is_control_error(
            e,
            "usage"@,
            daemon::invalid_addr(addr, why@),
        )
    }
}

/// Whether the daemon can be reached where it is to be started. Only Windows
/// has nothing but an address to reach it at.
pub open spec fn has_endpoint(options: DaemonOptions, setting: StartSetting) -> bool {
    !setting.on_windows || (!daemon::is_disabled(
        daemon::start_addr(text::opt_text(options.tcp_addr), setting.default_addr@),
    ) && setting.malformed is None)
}

/// Whether an error says that the binary is at none of the places.
pub open spec fn is_missing_binary(places: BinaryPlaces, e: DaemonControlError) -> bool {
    match places.explicit {
        Some(place) => daemon::is_control_error(
            e,
            "binary_missing"@,
            "localityd binary not found at `"@ + place.path@ + "`"@,
        ),
        None => daemon::is_control_error(
            e,
            "binary_missing"@,
            "localityd binary was not found; build/install localityd or pass --localityd-bin <path>"@,
        ),
    }
}

/// Where the binary is, if it is at one of the places.
pub open spec fn binary_at(places: BinaryPlaces) -> Option<Seq<char>> {
    match places.explicit {
        Some(place) => if place.exists {
            Some(place.path@)
        } else {
            None
        },
        None => text::opt_text(file_provider::found_helper(places.search)),
    }
}

/// Whether pairs are the variables with these names and values.
pub open spec fn are_variables(
    names: Seq<String>,
    values: Seq<Option<String>>,
    pairs: Seq<(String, String)>,
) -> bool {
    &&& pairs.len() == names.len()
    &&& forall|k: int|
        0 <= k < names.len() ==> (#[trigger] pairs[k]).0@ == names[k]@ && values[k] == Some(
            pairs[k].1,
        )
}

/// What follows once the process runs: it has to answer, and what it is
/// reached at is kept.
pub open spec fn follows_process(
    options: DaemonOptions,
    paths: DaemonPaths,
    setting: StartSetting,
    process: StartedDaemon,
    p: StartProgress,
    r: StartAction,
) -> bool {
    match (p.ready, p.written) {
        (None, _) => r is AwaitRunning,
        (Some(false), _) => r matches StartAction::Fail(e) && daemon::is_control_error(
            e,
            "start_failed"@,
            "daemon did not become ready; check `"@ + paths.stderr_log@ + "`"@,
        ),
        (Some(true), None) => r matches StartAction::WriteMetadata(m) && m.manager
            == process.manager && m.localityd_bin@ == process.localityd_bin@ && m.tcp_addr@
            == daemon::start_addr(text::opt_text(options.tcp_addr), setting.default_addr@),
        (Some(true), Some(Err(e))) => r == StartAction::Fail(e),
        (Some(true), Some(Ok(_))) => r matches StartAction::Report(report)
            && daemon::is_control_report(
            report,
            options.action,
            DaemonRunState::Running,
            process.manager,
            text::opt_text(options.tcp_addr),
            paths,
            setting.stored,
            Some(process.localityd_bin@),
            setting.default_addr@,
            "daemon started"@,
        ),
    }
}

/// What follows once the binary is found: something has to keep the daemon
/// running, it has to be reachable, and it gets the variables that it is to get.
pub open spec fn follows_binary(
    options: DaemonOptions,
    paths: DaemonPaths,
    setting: StartSetting,
    localityd_bin: Seq<char>,
    p: StartProgress,
    r: StartAction,
) -> bool {
    match (p.manager, p.environment) {
        (None, _) => r is ResolveManager,
        (Some(Err(e)), _) => r == StartAction::Fail(e),
        (Some(Ok(_)), environment) => if !has_endpoint(options, setting) {
            r matches StartAction::Fail(e) && is_endpoint_refusal(options, setting, e)
        } else {
            match environment {
                Some(values) if values@.len() == options.include_env@.len() => {
                    ||| r matches StartAction::Fail(e) && daemon::names_first_unset(
                        e,
                        options.include_env@,
                        values@,
                    )
                    ||| (forall|k: int|
                        0 <= k < values@.len() ==> #[trigger] values@[k] is Some)
                        && match p.started {
                        None => r matches StartAction::Start(c) && c.localityd_bin@
                            == localityd_bin && are_variables(
                            options.include_env@,
                            values@,
                            c.environment@,
                        ),
                        Some(Err(e)) => r == StartAction::Fail(e),
                        Some(Ok(process)) => follows_process(
                            options,
                            paths,
                            setting,
                            process,
                            p,
                            r,
                        ),
                    }
                },
                _ => r is ReadEnvironment,
            }
        },
    }
}

/// What follows on what is known of a start. A daemon that runs already is
/// reported and nothing is done.
pub open spec fn follows_start(
    options: DaemonOptions,
    paths: DaemonPaths,
    setting: StartSetting,
    p: StartProgress,
    r: StartAction,
) -> bool {
    match (p.running, p.state_root, p.places) {
        (None, _, _) => r is Probe,
        (Some((true, manager)), _, _) => r matches StartAction::Report(report)
            && daemon::is_control_report(
            report,
            options.action,
            DaemonRunState::Running,
            manager,
            text::opt_text(options.tcp_addr),
            paths,
            setting.stored,
            None,
            setting.default_addr@,
            "daemon already running"@,
        ),
        (Some((false, _)), None, _) => r is CreateStateRoot,
        (Some((false, _)), Some(Err(why)), _) => r matches StartAction::Fail(e)
            && daemon::is_control_error(e, "io_error"@, why@),
        (Some((false, _)), Some(Ok(_)), None) => r is FindBinary,
        (Some((false, _)), Some(Ok(_)), Some(places)) => match binary_at(places) {
            None => r matches StartAction::Fail(e) && is_missing_binary(places, e),
            Some(localityd_bin) => follows_binary(options, paths, setting, localityd_bin, p, r),
        },
    }
}

fn own_copy(error: &DaemonControlError) -> (r: DaemonControlError)
    ensures
        r == *error,
{
    DaemonControlError { code: error.code, message: error.message.clone() }
}

fn after_process(
    options: &DaemonOptions,
    paths: &DaemonPaths,
    setting: &StartSetting,
    process: &StartedDaemon,
    progress: &StartProgress,
) -> (r: StartAction)
    ensures
        follows_process(*options, *paths, *setting, *process, *progress, r),
{
    match progress.ready {
        None => {
            return StartAction::AwaitRunning;
        },
        Some(false) => {
            return StartAction::Fail(daemon::start_failed(&paths.stderr_log));
        },
        Some(true) => {},
    }
    match &progress.written {
        None => StartAction::WriteMetadata(
            daemon::started_metadata(
                process.manager,
                &process.localityd_bin,
                &options.tcp_addr,
                &setting.default_addr,
            ),
        ),
        Some(Err(e)) => StartAction::Fail(own_copy(e)),
        Some(Ok(_)) => StartAction::Report(
            daemon::report(
                options.action,
                DaemonRunState::Running,
                process.manager,
                &options.tcp_addr,
                paths,
                &setting.stored,
                &Some(process.localityd_bin.clone()),
                &setting.default_addr,
                "daemon started",
            ),
        ),
    }
}

fn after_binary(
    options: &DaemonOptions,
    paths: &DaemonPaths,
    setting: &StartSetting,
    localityd_bin: String,
    progress: &StartProgress,
) -> (r: StartAction)
    ensures
        follows_binary(*options, *paths, *setting, localityd_bin@, *progress, r),
{
    match &progress.manager {
        None => {
            return StartAction::ResolveManager;
        },
        Some(Err(e)) => {
            return StartAction::Fail(own_copy(e));
        },
        Some(Ok(_)) => {},
    }
    let malformed = text::clone_option(&setting.malformed);
    if let Err(e) = daemon::validate_start_endpoint(
        setting.on_windows,
        &options.tcp_addr,
        &setting.default_addr,
        malformed,
    ) {
        return StartAction::Fail(e);
    }
    let values = match &progress.environment {
        Some(values) => values,
        None => {
            return StartAction::ReadEnvironment;
        },
    };
    if values.len() != options.include_env.len() {
        return StartAction::ReadEnvironment;
    }
    let environment = match daemon::included_environment(&options.include_env, values) {
        Ok(environment) => environment,
        Err(e) => {
            return StartAction::Fail(e);
        },
    };
    proof {
        assert forall|k: int| 0 <= k < values@.len() implies #[trigger] values@[k] is Some by {
            assert(values@[k] == Some(environment@[k].1));
        }
    }
    match &progress.started {
        None => StartAction::Start(StartCall { localityd_bin, environment }),
        Some(Err(e)) => StartAction::Fail(own_copy(e)),
        Some(Ok(process)) => after_process(options, paths, setting, process, progress),
    }
}

/// What is done next to start the daemon.
pub fn start_daemon(
    options: &DaemonOptions,
    paths: &DaemonPaths,
    setting: &StartSetting,
    progress: &StartProgress,
) -> (r: StartAction)
    ensures
        follows_start(*options, *paths, *setting, *progress, r),
{
    match &progress.running {
        None => {
            return StartAction::Probe;
        },
        Some((true, manager)) => {
            return StartAction::Report(
                daemon::report(
                    options.action,
                    DaemonRunState::Running,
                    *manager,
                    &options.tcp_addr,
                    paths,
                    &setting.stored,
                    &None,
                    &setting.default_addr,
                    "daemon already running",
                ),
            );
        },
        Some((false, _)) => {},
    }
    match &progress.state_root {
        None => {
            return StartAction::CreateStateRoot;
        },
        Some(Err(why)) => {
            return StartAction::Fail(DaemonControlError::new("io_error", why));
        },
        Some(Ok(_)) => {},
    }
    let places = match &progress.places {
        None => {
            return StartAction::FindBinary;
        },
        Some(places) => places,
    };
    match daemon::find_localityd_binary(&places.explicit, &places.search) {
        Ok(localityd_bin) => after_binary(options, paths, setting, localityd_bin, progress),
        Err(e) => StartAction::Fail(e),
    }
}

/// A daemon that runs is left alone: nothing is created, started or written.
pub proof fn law_running_daemon_is_left_alone(
    options: DaemonOptions,
    paths: DaemonPaths,
    setting: StartSetting,
    p: StartProgress,
    r: StartAction,
)
    requires
        follows_start(options, paths, setting, p, r),
        p.running matches Some((true, _)),
    ensures
        r is Report,
{
}

/// Nothing is asked for twice: what an action asks for is not known yet, and
/// what it builds on is. A started daemon is reported only once it has answered
/// and its metadata are written.
pub proof fn law_start_goes_forward(
    options: DaemonOptions,
    paths: DaemonPaths,
    setting: StartSetting,
    p: StartProgress,
    r: StartAction,
)
    requires
        follows_start(options, paths, setting, p, r),
        p.environment matches Some(values) ==> values@.len() == options.include_env@.len(),
    ensures
        r is Probe ==> p.running is None,
        r is CreateStateRoot ==> p.state_root is None,
        r is FindBinary ==> p.places is None,
        r is ResolveManager ==> p.manager is None,
        r is ReadEnvironment ==> p.environment is None,
        r is Start ==> p.started is None,
        r is AwaitRunning ==> p.ready is None,
        r is AwaitRunning || r is WriteMetadata ==> p.started matches Some(Ok(_)),
        r is WriteMetadata ==> p.written is None && p.ready == Some(true),
        r is Report ==> {
            ||| p.running matches Some((true, _))
            ||| p.ready == Some(true) && p.written matches Some(Ok(_))
        },
{
}

} // verus!
