//! What `doctor` promises: nothing that is wrong goes unsaid, and nothing else
//! fails a report.
use crate::doctor;
use crate::doctor::{
    ConnectionCheck, DoctorInspection, DoctorProvider, DoctorReport, DoctorSeverity, DoctorStatus,
    Finding, MountCheck, ProfileLookup,
};
use crate::json::Json;
use crate::model::ProjectionMode;
use crate::text;
use vstd::prelude::*;

verus! {

/// Whether a report has a finding about a mount.
pub open spec fn tells_of_mount(
    report: DoctorReport,
    severity: DoctorSeverity,
    code: Seq<char>,
    mount_id: Seq<char>,
) -> bool {
    exists|i: int|
        0 <= i < report.findings@.len() && (#[trigger] report.findings@[i]).severity == severity
            && report.findings@[i].code@ == code && (report.findings@[i].mount_id matches Some(m)
            && m@ == mount_id)
}

/// Whether a report has a finding about a connection.
pub open spec fn tells_of_connection(
    report: DoctorReport,
    severity: DoctorSeverity,
    code: Seq<char>,
    connection_id: Seq<char>,
) -> bool {
    exists|i: int|
        0 <= i < report.findings@.len() && (#[trigger] report.findings@[i]).severity == severity
            && report.findings@[i].code@ == code && (report.findings@[i].connection_id matches Some(
            c,
        ) && c@ == connection_id)
}

/// Whether a report has a finding about no mount and no connection.
pub open spec fn tells(report: DoctorReport, severity: DoctorSeverity, code: Seq<char>) -> bool {
    exists|i: int|
        0 <= i < report.findings@.len() && (#[trigger] report.findings@[i]).severity == severity
            && report.findings@[i].code@ == code && report.findings@[i].mount_id is None
            && report.findings@[i].connection_id is None
}

/// Whether a report suggests a command.
pub open spec fn suggests(report: DoctorReport, command: Seq<char>) -> bool {
    exists|i: int|
        0 <= i < report.suggested_commands@.len() && (#[trigger] report.suggested_commands@[i])@
            == command
}

/// The mounts that were inspected, where the store could be read.
pub open spec fn inspected_mounts(inspection: DoctorInspection) -> Seq<MountCheck> {
    match (inspection.store, inspection.contents) {
        (Ok(store), Ok(contents)) => match contents.mounts {
            Ok(list) if store.db_exists && store.readable => list@,
            _ => Seq::empty(),
        },
        _ => Seq::empty(),
    }
}

/// The connections that were inspected, where the store could be read.
pub open spec fn inspected_connections(inspection: DoctorInspection) -> Seq<ConnectionCheck> {
    match (inspection.store, inspection.contents) {
        (Ok(store), Ok(contents)) => match contents.connections {
            Ok(list) if store.db_exists && store.readable => list@,
            _ => Seq::empty(),
        },
        _ => Seq::empty(),
    }
}

/// Whether the daemon was seen running.
pub open spec fn daemon_runs(inspection: DoctorInspection) -> bool {
    match inspection.daemon {
        Ok(report) => report.state is Running,
        Err(_) => false,
    }
}

/// Whether a provider shows its files.
pub open spec fn provider_works(provider: DoctorProvider) -> bool {
    &&& provider.helper_present
    &&& provider.registered != Some(false)
    &&& provider.state@ != "unsupported"@
    &&& provider.state@ != "stopped"@
    &&& provider.state@ != "unregistered"@
    &&& provider.state@ != "error"@
}

/// Whether the files of a mount can be worked with.
pub open spec fn mount_works(check: MountCheck, inspection: DoctorInspection) -> bool {
    &&& match check.projection {
        ProjectionMode::PlainFiles => true,
        ProjectionMode::MacosFileProvider => inspection.platform@ == "macos"@ && daemon_runs(
            inspection,
        ),
        ProjectionMode::LinuxFuse => inspection.platform@ == "linux"@ && daemon_runs(inspection),
        ProjectionMode::WindowsCloudFiles => inspection.platform@ == "windows"@ && daemon_runs(
            inspection,
        ),
    }
    &&& match check.provider {
        Some(provider) => provider_works(provider),
        None => true,
    }
}

/// Whether a connection can be used.
pub open spec fn connection_works(check: ConnectionCheck) -> bool {
    &&& check.connection.status@ == "active"@
    &&& check.connection.secret_ref@.len() > 0
    &&& check.credential is Present
    &&& check.connection.profile_id is Some ==> check.profile is Found
}

/// Whether nothing is missing that a connection should have, though it works
/// without.
pub open spec fn profile_is_active(check: ConnectionCheck) -> bool {
    &&& check.connection.profile_id is Some
    &&& (check.profile matches ProfileLookup::Found { status, .. } && status@ == "active"@)
}

spec fn any_of(s: Seq<Finding>, severity: DoctorSeverity) -> bool {
    exists|i: int| 0 <= i < s.len() && (#[trigger] s[i]).severity == severity
}

proof fn lemma_has_concat(a: Seq<Finding>, b: Seq<Finding>, severity: DoctorSeverity)
    ensures
        any_of(a + b, severity) == (any_of(a, severity) || any_of(b, severity)),
{
    if any_of(a, severity) {
        let i = choose|i: int| 0 <= i < a.len() && (#[trigger] a[i]).severity == severity;
        assert((a + b)[i] == a[i]);
    }
    if any_of(b, severity) {
        let i = choose|i: int| 0 <= i < b.len() && (#[trigger] b[i]).severity == severity;
        assert((a + b)[a.len() + i] == b[i]);
    }
    if any_of(a + b, severity) {
        let i = choose|i: int|
            0 <= i < (a + b).len() && (#[trigger] (a + b)[i]).severity == severity;
        if i < a.len() {
            assert(a[i].severity == severity);
        } else {
            assert(b[i - a.len()].severity == severity);
        }
    }
}

proof fn lemma_has_one(f: Finding, severity: DoctorSeverity)
    ensures
        any_of(seq![f], severity) == (f.severity == severity),
        !any_of(Seq::<Finding>::empty(), severity),
{
    assert(seq![f][0] == f);
}

proof fn lemma_contains_concat(a: Seq<Finding>, b: Seq<Finding>, f: Finding)
    ensures
        a.contains(f) || b.contains(f) ==> (a + b).contains(f),
{
    if a.contains(f) {
        let i = choose|i: int| 0 <= i < a.len() && a[i] == f;
        assert((a + b)[i] == f);
    }
    if b.contains(f) {
        let i = choose|i: int| 0 <= i < b.len() && b[i] == f;
        assert((a + b)[a.len() + i] == f);
    }
}

proof fn lemma_mount_reported(
    checks: Seq<MountCheck>,
    running: bool,
    os: Seq<char>,
    k: int,
    f: Finding,
)
    requires
        0 <= k < checks.len(),
        doctor::mount_findings(checks[k], running, os).contains(f),
    ensures
        doctor::all_mount_findings(checks, running, os).contains(f),
    decreases checks.len(),
{
    let front = doctor::all_mount_findings(checks.drop_last(), running, os);
    let last = doctor::mount_findings(checks.last(), running, os);
    lemma_contains_concat(front, last, f);
    if k < checks.len() - 1 {
        lemma_mount_reported(checks.drop_last(), running, os, k, f);
    }
}

proof fn lemma_connection_reported(checks: Seq<ConnectionCheck>, k: int, f: Finding)
    requires
        0 <= k < checks.len(),
        doctor::connection_findings(checks[k]).contains(f),
    ensures
        doctor::all_connection_findings(checks).contains(f),
    decreases checks.len(),
{
    let front = doctor::all_connection_findings(checks.drop_last());
    let last = doctor::connection_findings(checks.last());
    lemma_contains_concat(front, last, f);
    if k < checks.len() - 1 {
        lemma_connection_reported(checks.drop_last(), k, f);
    }
}

/// What was found about an inspected mount is in the report.
proof fn lemma_report_holds_mount(
    report: DoctorReport,
    inspection: DoctorInspection,
    k: int,
    f: Finding,
)
    requires
        doctor::is_doctor_report(report, inspection),
        0 <= k < inspected_mounts(inspection).len(),
        doctor::mount_findings(
            inspected_mounts(inspection)[k],
            daemon_runs(inspection),
            inspection.platform@,
        ).contains(f),
    ensures
        doctor::all_findings(inspection).contains(f),
{
    let running = daemon_runs(inspection);
    let os = inspection.platform@;
    let contents = inspection.contents->Ok_0;
    let c = doctor::connections_findings(contents.connections);
    let m = doctor::mounts_findings(contents.mounts, running, os);
    let d = doctor::daemon_findings(inspection.daemon);
    let s = doctor::store_findings(inspection.store);
    lemma_mount_reported(inspected_mounts(inspection), running, os, k, f);
    lemma_contains_concat(c, m, f);
    lemma_contains_concat(d + s, c + m, f);
}

proof fn lemma_report_holds_connection(
    report: DoctorReport,
    inspection: DoctorInspection,
    k: int,
    f: Finding,
)
    requires
        doctor::is_doctor_report(report, inspection),
        0 <= k < inspected_connections(inspection).len(),
        doctor::connection_findings(inspected_connections(inspection)[k]).contains(f),
    ensures
        doctor::all_findings(inspection).contains(f),
{
    let running = daemon_runs(inspection);
    let os = inspection.platform@;
    let contents = inspection.contents->Ok_0;
    let c = doctor::connections_findings(contents.connections);
    let m = doctor::mounts_findings(contents.mounts, running, os);
    let d = doctor::daemon_findings(inspection.daemon);
    let s = doctor::store_findings(inspection.store);
    lemma_connection_reported(inspected_connections(inspection), k, f);
    lemma_contains_concat(c, m, f);
    lemma_contains_concat(d + s, c + m, f);
}

/// A finding of the report, by what it holds: it is there, it decides whether
/// the report is good, and its command is suggested.
proof fn lemma_found(report: DoctorReport, inspection: DoctorInspection, f: Finding)
    requires
        doctor::is_doctor_report(report, inspection),
        doctor::all_findings(inspection).contains(f),
    ensures
        exists|i: int|
            0 <= i < report.findings@.len() && (#[trigger] report.findings@[i]).severity
                == f.severity && report.findings@[i].code@ == f.code && text::opt_text(
                report.findings@[i].mount_id,
            ) == f.mount_id && text::opt_text(report.findings@[i].connection_id)
                == f.connection_id && report.findings@[i].message@ == f.message && text::opt_text(
                report.findings@[i].suggested_command,
            ) == f.command,
        f.severity == DoctorSeverity::Error ==> !report.ok && report.status == DoctorStatus::Error,
        f.severity == DoctorSeverity::Warning ==> report.status != DoctorStatus::Good,
        f.command matches Some(command) ==> suggests(report, command),
{
    let all = doctor::all_findings(inspection);
    let i = choose|i: int| 0 <= i < all.len() && all[i] == f;
    assert(doctor::found(report.findings@)[i] == report.findings@[i]@);
    if let Some(command) = f.command {
        doctor::law_commands_are_suggested_once(all);
        assert(all[i].command is Some);
        let texts = text::texts(report.suggested_commands@);
        assert(texts.contains(command));
        let k = choose|k: int| 0 <= k < texts.len() && texts[k] == command;
        assert(report.suggested_commands@[k]@ == command);
    }
}

/// A mount with a virtual filesystem does not work without the daemon: where one
/// was inspected and the daemon was not seen running, the report fails, names
/// the mount, and suggests to start the daemon.
pub proof fn law_virtual_mounts_need_the_daemon(
    report: DoctorReport,
    inspection: DoctorInspection,
    k: int,
)
    requires
        doctor::is_doctor_report(report, inspection),
        0 <= k < inspected_mounts(inspection).len(),
        !(inspected_mounts(inspection)[k].projection is PlainFiles),
        !daemon_runs(inspection),
    ensures
        !report.ok,
        report.status is Error,
        tells_of_mount(
            report,
            DoctorSeverity::Error,
            "daemon_stopped_for_virtual_mount"@,
            inspected_mounts(inspection)[k].mount_id@,
        ),
        suggests(report, "loc daemon start"@),
{
    let check = inspected_mounts(inspection)[k];
    let all = doctor::mount_findings(check, false, inspection.platform@);
    let id = check.mount_id@;
    let f = doctor::about_mount(
        DoctorSeverity::Error,
        "daemon_stopped_for_virtual_mount"@,
        "Virtual mount `"@ + id + "` needs localityd running."@,
        id,
        Some("loc daemon start"@),
    );
    let n = (if check.root_exists {
        0int
    } else {
        1
    }) + (if crate::projection::is_supported(check.projection, inspection.platform@) {
        0int
    } else {
        1
    });
    assert(all[n] == f);
    lemma_report_holds_mount(report, inspection, k, f);
    lemma_found(report, inspection, f);
}

proof fn lemma_provider_findings(id: Seq<char>, provider: DoctorProvider, start: Seq<char>)
    ensures
        any_of(doctor::provider_findings(id, provider, start), DoctorSeverity::Error)
            == !provider_works(provider),
        any_of(doctor::provider_findings(id, provider, start), DoctorSeverity::Warning) == (
        provider.details.bool_at("stale_pid_file"@) == Some(true)),
        doctor::provider_findings(id, provider, start).len() == 0 ==> provider_works(provider),
{
    let all = doctor::provider_findings(id, provider, start);
    let unsupported = provider.state@ == "unsupported"@;
    let helper = !provider.helper_present && !unsupported;
    let stale = provider.details.bool_at("stale_pid_file"@) == Some(true);
    reveal_strlit("unsupported");
    reveal_strlit("stopped");
    reveal_strlit("unregistered");
    reveal_strlit("error");
    let down = unsupported || provider.registered == Some(false) || provider.state@ == "stopped"@
        || provider.state@ == "unregistered"@ || provider.state@ == "error"@;
    let n = (if helper {
        1int
    } else {
        0
    }) + (if down {
        1int
    } else {
        0
    });
    assert(all.len() == n + (if stale {
        1int
    } else {
        0
    }));
    if helper {
        assert(all[0].severity == DoctorSeverity::Error);
    }
    if down {
        assert(all[n - 1].severity == DoctorSeverity::Error);
    }
    if stale {
        assert(all[n].severity == DoctorSeverity::Warning);
    }
    assert(forall|i: int| 0 <= i < n ==> (#[trigger] all[i]).severity == DoctorSeverity::Error);
    assert(forall|i: int|
        n <= i < all.len() ==> (#[trigger] all[i]).severity == DoctorSeverity::Warning);
    assert(provider_works(provider) == !(helper || down));
}

/// Whether a mount has a flaw that it works with.
pub open spec fn mount_is_flawed(check: MountCheck) -> bool {
    ||| !check.root_exists
    ||| check.provider matches Some(p) && p.details.bool_at("stale_pid_file"@) == Some(true)
}

proof fn lemma_mount_findings(check: MountCheck, inspection: DoctorInspection)
    ensures
        ({
            let all = doctor::mount_findings(check, daemon_runs(inspection), inspection.platform@);
            &&& any_of(all, DoctorSeverity::Error) == !mount_works(check, inspection)
            &&& any_of(all, DoctorSeverity::Warning) == mount_is_flawed(check)
            &&& !any_of(all, DoctorSeverity::Info)
        }),
{
    let running = daemon_runs(inspection);
    let os = inspection.platform@;
    let id = check.mount_id@;
    let root = if !check.root_exists {
        seq![
            doctor::about_mount(
                DoctorSeverity::Warning,
                "mount_root_missing"@,
                "Mount `"@ + id + "` root does not exist: `"@ + check.root@ + "`."@,
                id,
                None,
            ),
        ]
    } else {
        Seq::empty()
    };
    let supported = crate::projection::is_supported(check.projection, os);
    let platform = if !supported {
        seq![
            doctor::about_mount(
                DoctorSeverity::Error,
                "projection_unsupported_on_platform"@,
                "Mount `"@ + id + "` uses `"@ + crate::projection::cli_value(check.projection)
                    + "`, which is not supported on "@ + os + "."@,
                id,
                None,
            ),
        ]
    } else {
        Seq::empty()
    };
    let daemon = if check.projection != ProjectionMode::PlainFiles && !running {
        seq![
            doctor::about_mount(
                DoctorSeverity::Error,
                "daemon_stopped_for_virtual_mount"@,
                "Virtual mount `"@ + id + "` needs localityd running."@,
                id,
                Some("loc daemon start"@),
            ),
        ]
    } else {
        Seq::empty()
    };
    let provider = match check.provider {
        Some(p) => doctor::provider_findings(id, p, doctor::start_command(check.projection)),
        None => Seq::empty(),
    };
    assert(doctor::mount_findings(check, running, os) == root + platform + daemon + provider);
    lemma_three(root, platform, daemon, provider);
    if let Some(p) = check.provider {
        lemma_provider_findings(id, p, doctor::start_command(check.projection));
        assert(!any_of(provider, DoctorSeverity::Info));
    }
    if root.len() > 0 {
        lemma_any_one(root[0]);
        assert(root =~= seq![root[0]]);
    }
    if platform.len() > 0 {
        lemma_any_one(platform[0]);
        assert(platform =~= seq![platform[0]]);
    }
    if daemon.len() > 0 {
        lemma_any_one(daemon[0]);
        assert(daemon =~= seq![daemon[0]]);
    }
    reveal_strlit("macos");
    reveal_strlit("linux");
    reveal_strlit("windows");
    assert("macos"@[0] != "linux"@[0]);
    assert(supported == (match check.projection {
        ProjectionMode::PlainFiles => true,
        ProjectionMode::MacosFileProvider => os == "macos"@,
        ProjectionMode::LinuxFuse => os == "linux"@,
        ProjectionMode::WindowsCloudFiles => os == "windows"@,
    }));
}

proof fn lemma_any_one(f: Finding)
    ensures
        forall|severity: DoctorSeverity| #[trigger]
            any_of(seq![f], severity) == (f.severity == severity),
{
    assert forall|severity: DoctorSeverity| #[trigger] any_of(seq![f], severity) == (f.severity
        == severity) by {
        lemma_has_one(f, severity);
    }
}

proof fn lemma_three(a: Seq<Finding>, b: Seq<Finding>, c: Seq<Finding>, d: Seq<Finding>)
    ensures
        forall|severity: DoctorSeverity| #[trigger]
            any_of(a + b + c + d, severity) == (any_of(a, severity) || any_of(b, severity)
                || any_of(c, severity) || any_of(d, severity)),
{
    assert forall|severity: DoctorSeverity| #[trigger]
        any_of(a + b + c + d, severity) == (any_of(a, severity) || any_of(b, severity) || any_of(
            c,
            severity,
        ) || any_of(d, severity)) by {
        lemma_has_concat(a, b, severity);
        lemma_has_concat(a + b, c, severity);
        lemma_has_concat(a + b + c, d, severity);
    }
}

proof fn lemma_all_mounts(checks: Seq<MountCheck>, inspection: DoctorInspection)
    ensures
        ({
            let all = doctor::all_mount_findings(
                checks,
                daemon_runs(inspection),
                inspection.platform@,
            );
            &&& any_of(all, DoctorSeverity::Error) == exists|k: int|
                0 <= k < checks.len() && !mount_works(#[trigger] checks[k], inspection)
            &&& any_of(all, DoctorSeverity::Warning) == exists|k: int|
                0 <= k < checks.len() && mount_is_flawed(#[trigger] checks[k])
            &&& !any_of(all, DoctorSeverity::Info)
        }),
    decreases checks.len(),
{
    if checks.len() > 0 {
        let running = daemon_runs(inspection);
        let os = inspection.platform@;
        let front = checks.drop_last();
        lemma_all_mounts(front, inspection);
        lemma_mount_findings(checks.last(), inspection);
        let a = doctor::all_mount_findings(front, running, os);
        let b = doctor::mount_findings(checks.last(), running, os);
        lemma_has_concat(a, b, DoctorSeverity::Error);
        lemma_has_concat(a, b, DoctorSeverity::Warning);
        lemma_has_concat(a, b, DoctorSeverity::Info);
        assert(forall|k: int| 0 <= k < front.len() ==> #[trigger] front[k] == checks[k]);
        assert(checks.last() == checks[checks.len() - 1]);
        if any_of(a, DoctorSeverity::Error) {
            let k = choose|k: int|
                0 <= k < front.len() && !mount_works(#[trigger] front[k], inspection);
            assert(!mount_works(checks[k], inspection));
        }
        if any_of(a, DoctorSeverity::Warning) {
            let k = choose|k: int| 0 <= k < front.len() && mount_is_flawed(#[trigger] front[k]);
            assert(mount_is_flawed(checks[k]));
        }
        if exists|k: int| 0 <= k < checks.len() && !mount_works(#[trigger] checks[k], inspection) {
            let k = choose|k: int|
                0 <= k < checks.len() && !mount_works(#[trigger] checks[k], inspection);
            if k < front.len() {
                assert(!mount_works(front[k], inspection));
            }
        }
        if exists|k: int| 0 <= k < checks.len() && mount_is_flawed(#[trigger] checks[k]) {
            let k = choose|k: int| 0 <= k < checks.len() && mount_is_flawed(#[trigger] checks[k]);
            if k < front.len() {
                assert(mount_is_flawed(front[k]));
            }
        }
    }
}

/// Whether a connection has a flaw that it works with: no profile, or one that
/// is not active.
pub open spec fn connection_is_flawed(check: ConnectionCheck) -> bool {
    match check.connection.profile_id {
        None => true,
        Some(_) => check.profile matches ProfileLookup::Found { status, .. } && status@
            != "active"@,
    }
}

proof fn lemma_connection_findings(check: ConnectionCheck)
    ensures
        ({
            let all = doctor::connection_findings(check);
            &&& any_of(all, DoctorSeverity::Error) == !connection_works(check)
            &&& any_of(all, DoctorSeverity::Warning) == connection_is_flawed(check)
            &&& !any_of(all, DoctorSeverity::Info)
        }),
{
    let c = check.connection;
    let profile = doctor::profile_findings(c, check.profile);
    let credential = doctor::credential_findings(c, check.credential);
    let status = doctor::connection_findings(check).skip((profile + credential).len() as int);
    assert(doctor::connection_findings(check) =~= profile + credential + status);
    assert(profile + credential + status =~= profile + credential + status
        + Seq::<Finding>::empty());
    lemma_three(profile, credential, status, Seq::empty());
    if profile.len() > 0 {
        lemma_any_one(profile[0]);
        assert(profile =~= seq![profile[0]]);
    }
    if credential.len() > 0 {
        lemma_any_one(credential[0]);
        assert(credential =~= seq![credential[0]]);
    }
    if status.len() > 0 {
        lemma_any_one(status[0]);
        assert(status =~= seq![status[0]]);
    }
}

proof fn lemma_all_connections(checks: Seq<ConnectionCheck>)
    ensures
        ({
            let all = doctor::all_connection_findings(checks);
            &&& any_of(all, DoctorSeverity::Error) == exists|k: int|
                0 <= k < checks.len() && !connection_works(#[trigger] checks[k])
            &&& any_of(all, DoctorSeverity::Warning) == exists|k: int|
                0 <= k < checks.len() && connection_is_flawed(#[trigger] checks[k])
            &&& !any_of(all, DoctorSeverity::Info)
        }),
    decreases checks.len(),
{
    if checks.len() > 0 {
        let front = checks.drop_last();
        lemma_all_connections(front);
        lemma_connection_findings(checks.last());
        let a = doctor::all_connection_findings(front);
        let b = doctor::connection_findings(checks.last());
        lemma_has_concat(a, b, DoctorSeverity::Error);
        lemma_has_concat(a, b, DoctorSeverity::Warning);
        lemma_has_concat(a, b, DoctorSeverity::Info);
        assert(forall|k: int| 0 <= k < front.len() ==> #[trigger] front[k] == checks[k]);
        assert(checks.last() == checks[checks.len() - 1]);
        if any_of(a, DoctorSeverity::Error) {
            let k = choose|k: int| 0 <= k < front.len() && !connection_works(#[trigger] front[k]);
            assert(!connection_works(checks[k]));
        }
        if any_of(a, DoctorSeverity::Warning) {
            let k = choose|k: int|
                0 <= k < front.len() && connection_is_flawed(#[trigger] front[k]);
            assert(connection_is_flawed(checks[k]));
        }
        if exists|k: int| 0 <= k < checks.len() && !connection_works(#[trigger] checks[k]) {
            let k = choose|k: int| 0 <= k < checks.len() && !connection_works(#[trigger] checks[k]);
            if k < front.len() {
                assert(!connection_works(front[k]));
            }
        }
        if exists|k: int| 0 <= k < checks.len() && connection_is_flawed(#[trigger] checks[k]) {
            let k = choose|k: int|
                0 <= k < checks.len() && connection_is_flawed(#[trigger] checks[k]);
            if k < front.len() {
                assert(connection_is_flawed(front[k]));
            }
        }
    }
}

/// Whether all that is inspected could be inspected.
pub open spec fn could_be_inspected(inspection: DoctorInspection) -> bool {
    &&& inspection.daemon is Ok
    &&& match inspection.store {
        Err(_) => false,
        Ok(store) => {
            ||| !store.db_exists
            ||| {
                &&& store.readable
                &&& match inspection.contents {
                    Ok(contents) => contents.connections is Ok && contents.mounts is Ok,
                    Err(_) => false,
                }
            }
        },
    }
}

/// A report succeeds exactly where everything could be inspected and every
/// connection and every mount works; and it is good exactly where none of them
/// has a flaw either.
pub proof fn law_report_is_good_where_everything_works(
    report: DoctorReport,
    inspection: DoctorInspection,
)
    requires
        doctor::is_doctor_report(report, inspection),
    ensures
        report.ok <==> {
            &&& could_be_inspected(inspection)
            &&& forall|k: int|
                0 <= k < inspected_connections(inspection).len() ==> connection_works(
                    #[trigger] inspected_connections(inspection)[k],
                )
            &&& forall|k: int|
                0 <= k < inspected_mounts(inspection).len() ==> mount_works(
                    #[trigger] inspected_mounts(inspection)[k],
                    inspection,
                )
        },
        report.ok <==> !(report.status is Error),
        report.status is Good <==> {
            &&& report.ok
            &&& forall|k: int|
                0 <= k < inspected_connections(inspection).len() ==> !connection_is_flawed(
                    #[trigger] inspected_connections(inspection)[k],
                )
            &&& forall|k: int|
                0 <= k < inspected_mounts(inspection).len() ==> !mount_is_flawed(
                    #[trigger] inspected_mounts(inspection)[k],
                )
        },
{
    let d = doctor::daemon_findings(inspection.daemon);
    let s = doctor::store_findings(inspection.store);
    let mounts = inspected_mounts(inspection);
    let connections = inspected_connections(inspection);
    lemma_all_mounts(mounts, inspection);
    lemma_all_connections(connections);
    let none = Seq::<Finding>::empty();
    let c = match inspection.contents {
        Ok(contents) if doctor::has_readable_store(inspection.store) =>
        doctor::connections_findings(contents.connections),
        _ => none,
    };
    let m = match inspection.contents {
        Ok(contents) if doctor::has_readable_store(inspection.store) => doctor::mounts_findings(
            contents.mounts,
            daemon_runs(inspection),
            inspection.platform@,
        ),
        Err(why) if doctor::has_readable_store(inspection.store) => seq![
            doctor::about_all(
                DoctorSeverity::Error,
                "state_store_open_failed"@,
                "Could not open Locality state: "@ + why@,
                None,
            ),
        ],
        _ => none,
    };
    assert(doctor::all_findings(inspection) =~= d + s + c + m);
    lemma_three(d, s, c, m);
    if d.len() > 0 {
        lemma_any_one(d[0]);
        assert(d =~= seq![d[0]]);
    }
    if s.len() > 0 {
        lemma_any_one(s[0]);
        assert(s =~= seq![s[0]]);
    }
    if inspection.contents is Err && m.len() > 0 {
        lemma_any_one(m[0]);
    }
    if inspection.contents matches Ok(contents) && contents.mounts is Err && m.len() > 0 {
        lemma_any_one(m[0]);
        assert(m =~= seq![m[0]]);
    }
    if inspection.contents matches Ok(contents) && contents.connections is Err && c.len() > 0 {
        lemma_any_one(c[0]);
        assert(c =~= seq![c[0]]);
    }
    let all = doctor::all_findings(inspection);
    assert(report.status == doctor::status_of(all));
    assert((report.status is Error) == any_of(all, DoctorSeverity::Error));
    assert((report.status is Good) == (!any_of(all, DoctorSeverity::Error) && !any_of(
        all,
        DoctorSeverity::Warning,
    )));
}

/// A connection that does not work is named in an error that says what it lacks.
pub proof fn law_faulty_connections_are_named(
    report: DoctorReport,
    inspection: DoctorInspection,
    k: int,
)
    requires
        doctor::is_doctor_report(report, inspection),
        0 <= k < inspected_connections(inspection).len(),
    ensures
        ({
            let check = inspected_connections(inspection)[k];
            let id = check.connection.connection_id@;
            let error = DoctorSeverity::Error;
            &&& check.connection.status@ != "active"@ ==> tells_of_connection(
                report,
                error,
                "connection_not_active"@,
                id,
            )
            &&& check.connection.secret_ref@.len() == 0 || check.credential is Absent
                ==> tells_of_connection(report, error, "connection_credential_missing"@, id)
            &&& check.connection.secret_ref@.len() > 0 && check.credential is Failed
                ==> tells_of_connection(report, error, "connection_credential_unavailable"@, id)
            &&& check.connection.profile_id is Some && check.profile is Absent
                ==> tells_of_connection(report, error, "connection_profile_missing"@, id)
            &&& check.connection.profile_id is Some && check.profile is Failed
                ==> tells_of_connection(report, error, "connection_profile_unreadable"@, id)
            &&& check.connection.status@ != "active"@ || check.connection.secret_ref@.len() == 0
                || check.credential is Absent ==> suggests(report, "loc connect notion"@)
        }),
{
    let check = inspected_connections(inspection)[k];
    let c = check.connection;
    let profile = doctor::profile_findings(c, check.profile);
    let credential = doctor::credential_findings(c, check.credential);
    let all = doctor::connection_findings(check);
    if c.status@ != "active"@ {
        let n = (profile + credential).len() as int;
        let f = all[n];
        assert(all.contains(f));
        assert(f.code == "connection_not_active"@);
        lemma_report_holds_connection(report, inspection, k, f);
        lemma_found(report, inspection, f);
    }
    if credential.len() > 0 {
        let f = all[profile.len() as int];
        assert(f == credential[0]);
        assert(all.contains(f));
        lemma_report_holds_connection(report, inspection, k, f);
        lemma_found(report, inspection, f);
    }
    if profile.len() > 0 {
        let f = all[0];
        assert(f == profile[0]);
        assert(all.contains(f));
        lemma_report_holds_connection(report, inspection, k, f);
        lemma_found(report, inspection, f);
    }
}

/// A mount whose root is missing, or whose projection is of another platform, is
/// named.
pub proof fn law_misplaced_mounts_are_named(
    report: DoctorReport,
    inspection: DoctorInspection,
    k: int,
)
    requires
        doctor::is_doctor_report(report, inspection),
        0 <= k < inspected_mounts(inspection).len(),
    ensures
        ({
            let check = inspected_mounts(inspection)[k];
            let id = check.mount_id@;
            let home = match check.projection {
                ProjectionMode::PlainFiles => inspection.platform@,
                ProjectionMode::MacosFileProvider => "macos"@,
                ProjectionMode::LinuxFuse => "linux"@,
                ProjectionMode::WindowsCloudFiles => "windows"@,
            };
            &&& !check.root_exists ==> tells_of_mount(
                report,
                DoctorSeverity::Warning,
                "mount_root_missing"@,
                id,
            )
            &&& inspection.platform@ != home ==> tells_of_mount(
                report,
                DoctorSeverity::Error,
                "projection_unsupported_on_platform"@,
                id,
            )
        }),
{
    let check = inspected_mounts(inspection)[k];
    let os = inspection.platform@;
    let all = doctor::mount_findings(check, daemon_runs(inspection), os);
    reveal_strlit("macos");
    reveal_strlit("linux");
    reveal_strlit("windows");
    assert("macos"@[0] != "linux"@[0]);
    if !check.root_exists {
        assert(all.contains(all[0]));
        lemma_report_holds_mount(report, inspection, k, all[0]);
        lemma_found(report, inspection, all[0]);
    }
    if !crate::projection::is_supported(check.projection, os) {
        let n = if check.root_exists {
            0int
        } else {
            1
        };
        assert(all.contains(all[n]));
        lemma_report_holds_mount(report, inspection, k, all[n]);
        lemma_found(report, inspection, all[n]);
    }
}

proof fn lemma_provider_reported(
    report: DoctorReport,
    inspection: DoctorInspection,
    k: int,
    provider: DoctorProvider,
    j: int,
)
    requires
        doctor::is_doctor_report(report, inspection),
        0 <= k < inspected_mounts(inspection).len(),
        inspected_mounts(inspection)[k].provider == Some(provider),
        0 <= j < doctor::provider_findings(
            inspected_mounts(inspection)[k].mount_id@,
            provider,
            doctor::start_command(inspected_mounts(inspection)[k].projection),
        ).len(),
    ensures
        doctor::all_findings(inspection).contains(
            doctor::provider_findings(
                inspected_mounts(inspection)[k].mount_id@,
                provider,
                doctor::start_command(inspected_mounts(inspection)[k].projection),
            )[j],
        ),
{
    let check = inspected_mounts(inspection)[k];
    let found = doctor::provider_findings(
        check.mount_id@,
        provider,
        doctor::start_command(check.projection),
    );
    let all = doctor::mount_findings(check, daemon_runs(inspection), inspection.platform@);
    let n = all.len() - found.len();
    assert(all =~= all.take(n) + found);
    assert(all[n + j] == found[j]);
    assert(all.contains(found[j]));
    lemma_report_holds_mount(report, inspection, k, found[j]);
}

/// A mount whose provider does not show its files is named in an error that says
/// why, with the command that mends it.
pub proof fn law_faulty_providers_are_named(
    report: DoctorReport,
    inspection: DoctorInspection,
    k: int,
    p: DoctorProvider,
)
    requires
        doctor::is_doctor_report(report, inspection),
        0 <= k < inspected_mounts(inspection).len(),
        inspected_mounts(inspection)[k].provider == Some(p),
    ensures
        ({
            let check = inspected_mounts(inspection)[k];
            let id = check.mount_id@;
            let error = DoctorSeverity::Error;
            let command = (if check.projection is WindowsCloudFiles {
                "loc file-provider start"@
            } else {
                "loc file-provider register"@
            }) + " "@ + id;
            &&& p.state@ == "unsupported"@ ==> tells_of_mount(
                report,
                error,
                "provider_unsupported_on_platform"@,
                id,
            )
            &&& p.state@ != "unsupported"@ && !p.helper_present ==> tells_of_mount(
                report,
                error,
                "provider_helper_missing"@,
                id,
            )
            &&& p.state@ != "unsupported"@ && p.registered == Some(false) ==> tells_of_mount(
                report,
                error,
                "provider_unregistered"@,
                id,
            ) && suggests(report, command)
            &&& p.registered != Some(false) && (p.state@ == "stopped"@ || p.state@
                == "unregistered"@ || p.state@ == "error"@) ==> tells_of_mount(
                report,
                error,
                "provider_not_running"@,
                id,
            ) && suggests(report, command)
            &&& p.details.bool_at("stale_pid_file"@) == Some(true) ==> tells_of_mount(
                report,
                DoctorSeverity::Warning,
                "provider_stale_pid_file"@,
                id,
            )
        }),
{
    let check = inspected_mounts(inspection)[k];
    reveal_strlit("unsupported");
    reveal_strlit("stopped");
    reveal_strlit("unregistered");
    reveal_strlit("error");
    let found = doctor::provider_findings(
        check.mount_id@,
        p,
        doctor::start_command(check.projection),
    );
    let helper = if !p.helper_present && p.state@ != "unsupported"@ {
        1int
    } else {
        0
    };
    let down = if p.state@ == "unsupported"@ || p.registered == Some(false) || p.state@
        == "stopped"@ || p.state@ == "unregistered"@ || p.state@ == "error"@ {
        1int
    } else {
        0
    };
    if helper == 1 {
        lemma_provider_reported(report, inspection, k, p, 0);
        lemma_found(report, inspection, found[0]);
    }
    if down == 1 {
        lemma_provider_reported(report, inspection, k, p, helper);
        lemma_found(report, inspection, found[helper]);
    }
    if p.details.bool_at("stale_pid_file"@) == Some(true) {
        lemma_provider_reported(report, inspection, k, p, helper + down);
        lemma_found(report, inspection, found[helper + down]);
    }
}

/// What could not be inspected is said.
pub proof fn law_failed_inspections_are_told(report: DoctorReport, inspection: DoctorInspection)
    requires
        doctor::is_doctor_report(report, inspection),
    ensures
        inspection.daemon is Err ==> tells(report, DoctorSeverity::Error, "daemon_status_failed"@),
        inspection.store is Err ==> tells(report, DoctorSeverity::Error, "state_store_unreadable"@),
        inspection.store matches Ok(store) ==> {
            &&& !store.db_exists ==> tells(report, DoctorSeverity::Info, "state_store_missing"@)
            &&& store.db_exists && !store.readable ==> tells(
                report,
                DoctorSeverity::Error,
                "state_store_incompatible"@,
            )
            &&& store.db_exists && store.readable ==> match inspection.contents {
                Err(_) => tells(report, DoctorSeverity::Error, "state_store_open_failed"@),
                Ok(contents) => {
                    &&& contents.connections is Err ==> tells(
                        report,
                        DoctorSeverity::Error,
                        "connections_unreadable"@,
                    )
                    &&& contents.mounts is Err ==> tells(
                        report,
                        DoctorSeverity::Error,
                        "mounts_unreadable"@,
                    )
                },
            }
        },
{
    let d = doctor::daemon_findings(inspection.daemon);
    let s = doctor::store_findings(inspection.store);
    let all = doctor::all_findings(inspection);
    let n = (d + s).len() as int;
    if inspection.daemon is Err {
        assert(all[0] == d[0]);
        assert(all.contains(all[0]));
        lemma_found(report, inspection, all[0]);
    }
    if s.len() > 0 {
        assert(all[d.len() as int] == s[0]);
        assert(all.contains(all[d.len() as int]));
        lemma_found(report, inspection, all[d.len() as int]);
    }
    if doctor::has_readable_store(inspection.store) {
        match inspection.contents {
            Err(_) => {
                assert(all.contains(all[n]));
                lemma_found(report, inspection, all[n]);
            },
            Ok(contents) => {
                let c = doctor::connections_findings(contents.connections);
                if contents.connections is Err {
                    assert(all[n] == c[0]);
                    assert(all.contains(all[n]));
                    lemma_found(report, inspection, all[n]);
                }
                if contents.mounts is Err {
                    let m = n + c.len();
                    assert(all.contains(all[m]));
                    lemma_found(report, inspection, all[m]);
                }
            },
        }
    }
}

/// A report shows what was inspected as it was found, in its order.
pub proof fn law_report_shows_what_was_inspected(
    report: DoctorReport,
    inspection: DoctorInspection,
)
    requires
        doctor::is_doctor_report(report, inspection),
    ensures
        report.platform@ == inspection.platform@,
        report.state_root@ == inspection.state_root@,
        report.daemon is Some == inspection.daemon is Ok,
        inspection.daemon matches Ok(d) ==> {
            &&& report.daemon->0.socket@ == d.socket@
            &&& report.daemon->0.tcp_addr@ == d.tcp_addr@
            &&& report.daemon->0.message@ == d.message@
            &&& text::opt_text(report.daemon->0.pid_file) == text::opt_text(d.pid_file)
            &&& text::opt_text(report.daemon->0.stdout_log) == text::opt_text(d.stdout_log)
            &&& text::opt_text(report.daemon->0.stderr_log) == text::opt_text(d.stderr_log)
            &&& (report.daemon->0.state@ == "running"@) == (d.state is Running)
            &&& (report.daemon->0.state@ == "stopped"@) == (d.state is Stopped)
        },
        inspection.store matches Ok(store) ==> {
            &&& report.state_store.path@ == store.db_path@
            &&& report.state_store.exists == store.db_exists
            &&& report.state_store.readable == store.readable
            &&& report.state_store.schema_version == store.schema_version
            &&& report.state_store.supported_schema_version == store.current_schema_version
        },
        report.connections@.len() == inspected_connections(inspection).len(),
        forall|k: int|
            #![trigger report.connections@[k]]
            0 <= k < report.connections@.len() ==> {
                let c = inspected_connections(inspection)[k].connection;
                &&& report.connections@[k].connection_id@ == c.connection_id@
                &&& report.connections@[k].connector@ == c.connector@
                &&& report.connections@[k].status@ == c.status@
                &&& report.connections@[k].auth_kind@ == c.auth_kind@
                &&& text::opt_text(report.connections@[k].profile_id) == text::opt_text(
                    c.profile_id,
                )
                &&& (report.connections@[k].credential_status is Good) == (c.secret_ref@.len() > 0
                    && inspected_connections(inspection)[k].credential is Present)
                &&& (report.connections@[k].profile_status is Good) == profile_is_active(
                    inspected_connections(inspection)[k],
                )
            },
        report.mounts@.len() == inspected_mounts(inspection).len(),
        forall|k: int|
            #![trigger report.mounts@[k]]
            0 <= k < report.mounts@.len() ==> {
                let m = inspected_mounts(inspection)[k];
                &&& report.mounts@[k].mount_id@ == m.mount_id@
                &&& report.mounts@[k].connector@ == m.connector@
                &&& report.mounts@[k].root@ == m.root@
                &&& report.mounts@[k].root_exists == m.root_exists
                &&& report.mounts@[k].read_only == m.read_only
                &&& text::opt_text(report.mounts@[k].connection_id) == text::opt_text(
                    m.connection_id,
                )
                &&& report.mounts@[k].provider == m.provider
            },
{
    reveal_strlit("running");
    reveal_strlit("stopped");
    assert("running"@[0] != "stopped"@[0]);
    assert forall|k: int|
        #![trigger report.connections@[k]]
        0 <= k < report.connections@.len() implies doctor::shows_connection(
        report.connections@[k],
        inspected_connections(inspection)[k],
    ) by {
    }
    assert forall|k: int| #![trigger report.mounts@[k]] 0 <= k < report.mounts@.len() implies
        doctor::shows_mount(report.mounts@[k], inspected_mounts(inspection)[k]) by {
    }
}

proof fn lemma_first_domain(domains: Seq<Json>, mount_id: Seq<char>, shared: Seq<char>)
    ensures
        match doctor::first_domain(domains, mount_id, shared) {
            Some(id) => (id == mount_id || id == shared) && exists|i: int|
                0 <= i < domains.len() && (#[trigger] domains[i]).text_at("identifier"@) == Some(id),
            None => forall|i: int|
                0 <= i < domains.len() ==> (#[trigger] domains[i]).text_at("identifier"@) != Some(
                    mount_id,
                ) && domains[i].text_at("identifier"@) != Some(shared),
        },
    decreases domains.len(),
{
    if domains.len() > 0 {
        let rest = domains.skip(1);
        lemma_first_domain(rest, mount_id, shared);
        let first = domains[0].text_at("identifier"@);
        let found = doctor::first_domain(domains, mount_id, shared);
        if first == Some(mount_id) || first == Some(shared) {
            assert(found == first);
        } else {
            assert(found == doctor::first_domain(rest, mount_id, shared));
            if found is Some {
                let i = choose|i: int|
                    0 <= i < rest.len() && (#[trigger] rest[i]).text_at("identifier"@) == found;
                assert(domains[i + 1].text_at("identifier"@) == found);
            } else {
                assert forall|i: int| 0 <= i < domains.len() implies (
                #[trigger] domains[i]).text_at("identifier"@) != Some(mount_id)
                    && domains[i].text_at("identifier"@) != Some(shared) by {
                    if i > 0 {
                        assert(rest[i - 1] == domains[i]);
                    }
                }
            }
        }
    }
}

/// A mount on macOS is registered where the provider lists it, or the domain that mounts share, and
/// nowhere else.
pub proof fn law_mounts_are_registered_where_they_are_listed(
    report: Json,
    mount_id: Seq<char>,
    shared: Seq<char>,
)
    ensures
        ({
            let found = doctor::registered_domain(report, mount_id, shared);
            &&& found is Some ==> found == Some(mount_id) || found == Some(shared)
            &&& found is Some <==> (report.at("domains"@) matches Some(Json::Array(domains))
                && exists|i: int|
                0 <= i < domains@.len() && ((#[trigger] domains@[i]).text_at("identifier"@) == Some(
                    mount_id,
                ) || domains@[i].text_at("identifier"@) == Some(shared)))
        }),
{
    if let Some(Json::Array(domains)) = report.at("domains"@) {
        lemma_first_domain(domains@, mount_id, shared);
    }
}

/// A FUSE service runs where it is active; else it is stopped or unknown, as it is registered or
/// not.
pub proof fn law_fuse_services_run_where_they_are_active(
    active: Option<Seq<char>>,
    registered: bool,
)
    ensures
        active == Some("active"@) ==> doctor::fuse_state(active, registered) == "running"@,
        active != Some("active"@) && registered ==> doctor::fuse_state(active, registered)
            == "stopped"@,
        active != Some("active"@) && !registered ==> doctor::fuse_state(active, registered)
            == "unregistered"@,
{
}

/// Nothing is known of a provider of another system but that it is not supported.
pub proof fn law_nothing_is_known_of_other_systems(provider: DoctorProvider, message: Seq<char>)
    requires
        doctor::is_unsupported_provider(provider, message),
    ensures
        provider.state@ == "unsupported"@,
        provider.registered is None && provider.helper is None && !provider.helper_present,
        provider.message@ == message,
        provider.details is Null,
{
}

} // verus!
