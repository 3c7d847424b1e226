//! What the daemon is asked, and how its answers are taken.
use crate::args;
use crate::daemon;
use crate::daemon::{
    DaemonAction, DaemonControlError, DaemonControlReport, DaemonManager, DaemonMetadata,
    DaemonOptions, DaemonPaths, DaemonRunState, DaemonStartMode, StopProgress,
};
use crate::daemon_report;
use crate::daemon_report::{
    DaemonAcknowledgement, DaemonClientError, DaemonReport, DaemonResponse, DaemonUnavailableReason,
};
use crate::file_provider;
use crate::start_flow;
use crate::start_flow::{BinaryPlaces, StartAction, StartProgress, StartSetting};
use crate::text;
use vstd::prelude::*;

verus! {

/// What the daemon answers is taken as it is: its report where there is one and no error, its error
/// before all else, and each way of not answering for what it is.
pub proof fn law_answers_are_taken_as_they_are<T>(
    sent: Option<Result<DaemonResponse<T>, DaemonClientError>>,
    r: DaemonReport<T>,
)
    requires
        daemon_report::tells(sent, r),
    ensures
        r is Report <==> (sent matches Some(Ok(response)) && response.error is None
            && response.payload is Some && response.payload->0 is Ok),
        r matches DaemonReport::Report(report) ==> report == sent->0->Ok_0.payload->0->Ok_0,
        r matches DaemonReport::Unavailable(reason) ==> {
            &&& reason is Disabled <==> sent is None
            &&& reason is NotAvailable <==> (sent matches Some(Err(why)) && why is NotAvailable)
            &&& reason is TimedOut <==> (sent matches Some(Err(why)) && why is TimedOut)
        },
        sent is None ==> r is Unavailable,
        (sent matches Some(Err(why)) && !(why is Other)) ==> r is Unavailable,
        (sent matches Some(Ok(_))) ==> !(r is Unavailable),
        (sent matches Some(Ok(response)) && response.error is Some) ==> (
        r matches DaemonReport::Error(e) && e.code@ == sent->0->Ok_0.error->0.code@ && e.message@
            == sent->0->Ok_0.error->0.message@),
        (sent matches Some(Err(why)) && why is Other) ==> (r matches DaemonReport::Error(e)
            && e.message@ == sent->0->Err_0->Other_0@ && e.exit_code == 1),
{
}

/// An error of the daemon ends a command with the code for what it is about: what was not found,
/// what is not valid, what is not there yet, or all else.
pub proof fn law_errors_of_the_daemon_have_exit_codes(code: Seq<char>)
    ensures
        daemon_report::error_exit_code(code) == 2 <==> code == "mount_not_found"@ || code
            == "entity_path_missing"@,
        daemon_report::error_exit_code(code) == 3 <==> code == "validation_failed"@,
        daemon_report::error_exit_code(code) == 5 <==> code == "not_implemented"@,
        daemon_report::error_exit_code(code) == 1 <==> code != "mount_not_found"@ && code
            != "entity_path_missing"@ && code != "validation_failed"@ && code
            != "not_implemented"@,
{
    reveal_strlit("mount_not_found");
    reveal_strlit("entity_path_missing");
    reveal_strlit("validation_failed");
    reveal_strlit("not_implemented");
    assert("mount_not_found"@.len() == 15);
    assert("entity_path_missing"@.len() == 19);
    assert("validation_failed"@.len() == 17);
    assert("not_implemented"@.len() == 15);
    assert("mount_not_found"@[0] == 'm');
    assert("not_implemented"@[0] == 'n');
}

/// The daemon is waited for as long as the environment says, where it says a number above zero, and
/// else for the usual time.
pub proof fn law_the_daemon_is_waited_for(variable: Option<Seq<char>>, default_ms: u64)
    ensures
        (variable is Some && text::parsed_u64(variable->0) is Some && text::parsed_u64(
            variable->0,
        )->0 > 0) ==> Some(daemon_report::timeout_ms(variable, default_ms)) == text::parsed_u64(
            variable->0,
        ),
        !(variable is Some && text::parsed_u64(variable->0) is Some && text::parsed_u64(
            variable->0,
        )->0 > 0) ==> daemon_report::timeout_ms(variable, default_ms) == default_ms,
        default_ms > 0 ==> daemon_report::timeout_ms(variable, default_ms) > 0,
{
}

/// Passing the daemon over is told of, unless the daemon is switched off.
pub proof fn law_passing_the_daemon_over_is_told(
    command: Seq<char>,
    reason: DaemonUnavailableReason,
    timeout_ms: u64,
)
    ensures
        daemon_report::fallback_warning(command, reason, timeout_ms) is None <==> reason
            is Disabled,
        reason is TimedOut ==> daemon_report::fallback_warning(command, reason, timeout_ms)
            == Some(
            "localityd did not respond within "@ + text::decimal(timeout_ms as nat)
                + "ms; executing "@ + command + " directly"@,
        ),
        reason is NotAvailable ==> daemon_report::fallback_warning(command, reason, timeout_ms)
            == Some(
            "localityd not running; executing "@ + command
                + " directly (start localityd for background hydration)"@,
        ),
{
}

/// A mount that the daemon could not take up is told of exactly where the daemon said so or the
/// talk with it failed; that there is no daemon is not worth telling.
pub proof fn law_failed_reloads_are_told(
    sent: Option<Result<DaemonAcknowledgement, DaemonClientError>>,
)
    ensures
        daemon_report::reload_warning(sent) is Some <==> {
            ||| sent matches Some(Ok(answer)) && !answer.ok && answer.error is Some
            ||| sent matches Some(Err(why)) && why is Other
        },
{
}

/// The daemon is controlled at the address that was given and, without one, at the address where it
/// runs.
pub proof fn law_the_daemon_is_found_where_it_runs(
    tcp_addr: Option<Seq<char>>,
    metadata: Option<DaemonMetadata>,
    default_addr: Seq<char>,
)
    ensures
        tcp_addr is Some ==> daemon::control_addr(tcp_addr, metadata, default_addr) == tcp_addr->0,
        tcp_addr is None && metadata is Some ==> daemon::control_addr(
            tcp_addr,
            metadata,
            default_addr,
        ) == metadata->0.tcp_addr@,
        tcp_addr is None && metadata is None ==> daemon::control_addr(
            tcp_addr,
            metadata,
            default_addr,
        ) == default_addr,
        tcp_addr is Some ==> daemon::start_addr(tcp_addr, default_addr) == tcp_addr->0,
        tcp_addr is None ==> daemon::start_addr(tcp_addr, default_addr) == default_addr,
{
}

/// A report on the daemon is of the state that it was found in, with the files of that state; what
/// is on record of a running daemon is told only while it runs.
pub proof fn law_reports_on_the_daemon_go_by_its_state(
    report: DaemonControlReport,
    action: DaemonAction,
    state: DaemonRunState,
    manager: DaemonManager,
    tcp_addr: Option<Seq<char>>,
    paths: DaemonPaths,
    stored: Option<DaemonMetadata>,
    localityd_bin: Option<Seq<char>>,
    default_addr: Seq<char>,
    message: Seq<char>,
)
    requires
        daemon::is_control_report(
            report,
            action,
            state,
            manager,
            tcp_addr,
            paths,
            stored,
            localityd_bin,
            default_addr,
            message,
        ),
    ensures
        report.ok,
        report.command@ == "daemon"@,
        report.action@ == (match action {
            DaemonAction::Start => "start"@,
            DaemonAction::Stop => "stop"@,
            DaemonAction::Status => "status"@,
            DaemonAction::Reload => "reload"@,
            DaemonAction::Restart => "restart"@,
        }),
        report.state == state,
        report.message@ == message,
        report.state_root@ == paths.state_root@,
        report.socket@ == paths.socket@,
        report.launch_agent == paths.launch_agent,
        report.pid_file matches Some(p) && p@ == paths.pid_file@,
        report.stdout_log matches Some(p) && p@ == paths.stdout_log@,
        report.stderr_log matches Some(p) && p@ == paths.stderr_log@,
        manager != DaemonManager::Unknown ==> report.manager == manager,
        state is Stopped ==> report.manager == manager && report.tcp_addr@ == (match tcp_addr {
            Some(addr) => addr,
            None => default_addr,
        }) && text::opt_text(report.localityd_bin) == localityd_bin,
        state is Running && stored is Some ==> report.tcp_addr@ == stored->0.tcp_addr@,
        state is Running && stored is Some && manager == DaemonManager::Unknown
            ==> report.manager == stored->0.manager,
        state is Running && stored is Some && localityd_bin is None ==> text::opt_text(
            report.localityd_bin,
        ) == Some(stored->0.localityd_bin@),
        localityd_bin is Some ==> text::opt_text(report.localityd_bin) == localityd_bin,
{
}

/// Stopping the daemon asks it to shut down only where it answers, waits for it only where it
/// agreed, ends its process where it did not go by itself or where launchd would start it again,
/// and fails exactly where it still answers in the end.
pub proof fn law_the_daemon_is_stopped_gently_first(
    p: StopProgress,
    mode: DaemonStartMode,
    target_os: Seq<char>,
)
    ensures
        ({
            let step = daemon::stop_step(p, mode, target_os);
            let went = p.was_running == Some(true) && p.shutdown_accepted == Some(true)
                && p.silent_after_shutdown == Some(true);
            let launchd = !(mode is Session) && target_os == "macos"@;
            &&& step is RequestShutdown ==> p.was_running == Some(true)
            &&& step is AwaitSilenceAfterShutdown ==> p.shutdown_accepted == Some(true)
            &&& step is StopProcess ==> (!went || launchd) && p.process_stopped is None
            &&& step is AwaitSettled ==> p.was_running == Some(true)
            &&& step is Fail ==> p.silent == Some(false)
            &&& step is Stopped ==> p.silent == Some(true) && (p.was_running == Some(true)
                || p.process_stopped == Some(true))
            &&& step is WasNotRunning ==> p.silent == Some(true) && p.was_running == Some(false)
            &&& p.was_running == Some(false) && p.process_stopped is None ==> step is StopProcess
            &&& p.was_running is Some && p.silent == Some(false) && went && !launchd && p.settled
                is Some ==> step is Fail
        }),
{
}

/// Whether an argument of the daemon command is followed by a value.
pub open spec fn takes_value(arg: Seq<char>) -> bool {
    arg == "--localityd-bin"@ || arg == "--state-dir"@ || arg == "--tcp-addr"@ || arg
        == "--include-env"@
}

/// What the daemon is to do is the first argument that is neither an option nor the value of one.
pub proof fn law_the_daemon_does_the_first_word(args: Seq<Seq<char>>)
    requires
        args.len() > 0,
    ensures
        takes_value(args[0]) ==> daemon::daemon_word(args) == (if args.len() >= 2 {
            daemon::daemon_word(args.skip(2))
        } else {
            None
        }),
        !takes_value(args[0]) && args[0].len() > 0 && args[0][0] == '-' ==> daemon::daemon_word(
            args,
        ) == daemon::daemon_word(args.skip(1)),
        !takes_value(args[0]) && (args[0].len() == 0 || args[0][0] != '-')
            ==> daemon::daemon_word(args) == Some(args[0]),
{
}

/// The options of the daemon are those that were given: a session before launchd, a directory, a
/// binary and an address where they are named, and every variable that is to be handed on.
pub proof fn law_the_daemon_gets_its_options(
    options: DaemonOptions,
    all: Seq<Seq<char>>,
    action: DaemonAction,
    default_state_root: Seq<char>,
    environment_tcp_addr: Option<Seq<char>>,
)
    requires
        daemon::are_options(options, all, action, default_state_root, environment_tcp_addr),
    ensures
        options.action == action,
        options.mode is Session <==> all.contains("--session"@),
        options.mode is Launchd <==> all.contains("--launchd"@) && !all.contains("--session"@),
        args::value_of(all, "--state-dir"@) matches Some(path) ==> options.state_root@ == path,
        args::value_of(all, "--state-dir"@) is None ==> options.state_root@
            == default_state_root,
        text::opt_text(options.localityd_bin) == args::value_of(all, "--localityd-bin"@),
        args::value_of(all, "--tcp-addr"@) is Some ==> text::opt_text(options.tcp_addr)
            == args::value_of(all, "--tcp-addr"@),
        args::value_of(all, "--tcp-addr"@) is None ==> text::opt_text(options.tcp_addr)
            == environment_tcp_addr,
        text::texts(options.include_env@) == args::values_of(all, "--include-env"@),
{
}

/// Where a variable that is to be handed on is not set, the first such one is named.
pub proof fn law_the_first_unset_variable_is_named(
    error: DaemonControlError,
    names: Seq<String>,
    values: Seq<Option<String>>,
)
    requires
        daemon::names_first_unset(error, names, values),
    ensures
        exists|k: int|
            0 <= k < names.len() && (#[trigger] values[k]) is None && (forall|j: int|
                0 <= j < k ==> (#[trigger] values[j]) is Some) && error.code@ == "env_missing"@
                && error.message@ == "environment variable `"@ + names[k]@ + "` is not set"@,
{
    let k = choose|k: int| #[trigger] daemon::names_unset(error, names, values, k);
    let v = values[k];
}

/// The daemon that is started is the one that was named, where it is there, and else the one that
/// was found; one that was named and is not there is not replaced by another.
pub proof fn law_the_daemon_that_was_named_is_started(places: BinaryPlaces)
    ensures
        places.explicit matches Some(place) ==> start_flow::binary_at(places) == (if place.exists {
            Some(place.path@)
        } else {
            None
        }),
        places.explicit is None ==> start_flow::binary_at(places) == text::opt_text(
            file_provider::found_helper(places.search),
        ),
{
}

/// The daemon is started with every variable that it is to get, from the binary that was found,
/// only where nothing runs yet and it can be reached; what is put on record of it is what was
/// started.
pub proof fn law_the_daemon_is_started_as_asked_for(
    options: DaemonOptions,
    paths: DaemonPaths,
    setting: StartSetting,
    p: StartProgress,
    r: StartAction,
)
    requires
        start_flow::follows_start(options, paths, setting, p, r),
    ensures
        r matches StartAction::Start(c) ==> {
            &&& p.running is Some && !(p.running->0).0
            &&& p.state_root is Some && p.state_root->0 is Ok
            &&& p.places is Some && start_flow::binary_at(p.places->0) == Some(c.localityd_bin@)
            &&& p.environment is Some && p.environment->0@.len() == options.include_env@.len()
            &&& c.environment@.len() == options.include_env@.len()
            &&& forall|k: int|
                0 <= k < options.include_env@.len() ==> (#[trigger] c.environment@[k]).0@
                    == options.include_env@[k]@ && p.environment->0@[k] == Some(
                    c.environment@[k].1,
                )
            &&& setting.on_windows ==> setting.malformed is None && !daemon::is_disabled(
                daemon::start_addr(text::opt_text(options.tcp_addr), setting.default_addr@),
            )
        },
        r matches StartAction::WriteMetadata(m) ==> {
            let process = p.started->0->Ok_0;
            &&& p.started is Some && p.started->0 is Ok
            &&& p.ready == Some(true)
            &&& m.manager == process.manager
            &&& m.localityd_bin@ == process.localityd_bin@
            &&& options.tcp_addr matches Some(addr) ==> m.tcp_addr@ == addr@
            &&& options.tcp_addr is None ==> m.tcp_addr@ == setting.default_addr@
        },
        r matches StartAction::Report(report) ==> report.ok && report.state is Running,
        p.running is Some && (p.running->0).0 ==> (r matches StartAction::Report(report)
            && report.message@ == "daemon already running"@),
{
}

/// An address is switched off by four words alone.
pub proof fn law_addresses_are_switched_off_by_word(addr: Seq<char>)
    ensures
        daemon::is_disabled(addr) <==> addr == "0"@ || addr == "off"@ || addr == "none"@ || addr
            == "disabled"@,
{
}

} // verus!
