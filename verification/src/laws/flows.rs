//! What the steps of a command wait for.
use crate::args;
use crate::connect_flow;
use crate::connect_flow::{ConnectAction, ConnectProgress};
use crate::daemon;
use crate::daemon::{DaemonControlError, DaemonOptions};
use crate::doctor;
use crate::doctor::{DoctorStateStore, StateCompatibility, UnreadableStore};
use crate::hosted_flow;
use crate::hosted_flow::{DownloadAction, DownloadProgress};
use crate::hosted_state::{ReplicaArchiveEncoding, SessionRefusal, SessionStatus};
use crate::model::{MountConfig, ProjectionMode};
use crate::mount_flow;
use crate::mount_flow::{MountAction, MountProgress, MountToRegister};
use crate::mounting::SourceDescriptor;
use crate::oauth;
use crate::oauth::{BrokeredSource, OAuthVariables};
use crate::paths;
use crate::paths::PathStyle;
use crate::projection;
use crate::providing;
use crate::reconcile;
use crate::requests::SearchOptions;
use crate::search;
use crate::search::SearchReport;
use crate::search_flow;
use crate::search_flow::{SearchAction, SearchProgress, WhichSearch};
use crate::start_flow;
use crate::start_flow::StartSetting;
use crate::text;
use crate::undo;
use vstd::prelude::*;

verus! {

/// A broker is asked only for an address that the browser can come back to, a person is asked only
/// once the broker has answered, and a code is handed on only once that person has given it.
pub proof fn law_brokered_sign_ins_go_step_by_step(
    all: Seq<Seq<char>>,
    source: BrokeredSource,
    broker_url: Seq<char>,
    redirect_uri: Seq<char>,
    p: ConnectProgress,
    r: ConnectAction,
)
    requires
        connect_flow::follows_broker(all, source, broker_url, redirect_uri, p, r),
    ensures
        oauth::redirect_parts(redirect_uri) is None ==> (r matches ConnectAction::Fail(f)
            && f.error.code@ == "invalid_redirect_uri"@ && f.exit_code == 1),
        r matches ConnectAction::StartBroker(call) ==> p.started is None && call.broker_url@
            == broker_url && call.redirect_uri@ == redirect_uri && oauth::redirect_parts(
            redirect_uri,
        ) is Some,
        oauth::redirect_parts(redirect_uri) is Some && p.started is None ==> r is StartBroker,
        r matches ConnectAction::Authorize(asked) ==> {
            &&& p.started is Some && p.started->0 is Ok && p.authorized is None
            &&& asked.source == source
            &&& asked.url == p.started->0->Ok_0.authorization_url
            &&& asked.redirect_uri == p.started->0->Ok_0.redirect_uri
            &&& asked.state == p.started->0->Ok_0.state
            &&& asked.no_browser == all.contains("--no-browser"@)
        },
        r matches ConnectAction::ConnectNotionCode(o) ==> {
            &&& source is Notion
            &&& p.started is Some && p.started->0 is Ok
            &&& p.authorized is Some && p.authorized->0 is Ok
            &&& o.code == p.authorized->0->Ok_0.code
            &&& o.broker_url@ == broker_url
            &&& o.session == p.started->0->Ok_0.session
            &&& o.state == p.started->0->Ok_0.state
            &&& o.client_id == p.started->0->Ok_0.client_id
            &&& o.redirect_uri == p.started->0->Ok_0.redirect_uri
            &&& text::opt_text(o.connection_id) == args::value_of(all, "--name"@)
        },
        r matches ConnectAction::ConnectGoogleDocsCode(o) ==> {
            &&& source is GoogleDocs
            &&& p.started is Some && p.started->0 is Ok
            &&& p.authorized is Some && p.authorized->0 is Ok
            &&& o.code == p.authorized->0->Ok_0.code
            &&& o.broker_url@ == broker_url
            &&& o.session == p.started->0->Ok_0.session
            &&& o.state == p.started->0->Ok_0.state
            &&& o.client_id == p.started->0->Ok_0.client_id
            &&& o.redirect_uri == p.started->0->Ok_0.redirect_uri
            &&& text::opt_text(o.connection_id) == args::value_of(all, "--name"@)
        },
{
}

/// Signing in with a client of one's own needs both its name and its secret and an address that the
/// browser can come back to; the code goes out with the same three.
pub proof fn law_own_clients_need_name_and_secret(
    all: Seq<Seq<char>>,
    variables: OAuthVariables,
    p: ConnectProgress,
    r: ConnectAction,
)
    requires
        connect_flow::follows_own_client(all, variables, p, r),
    ensures
        ({
            let id = oauth::first_set(variables.client_ids@);
            let secret = oauth::first_set(variables.client_secrets@);
            let uri = oauth::chosen(
                args::value_of(all, "--redirect-uri"@),
                variables.redirect_uris@,
                oauth::DEFAULT_NOTION_REDIRECT_URI@,
            );
            &&& id is None || secret is None ==> (r matches ConnectAction::Fail(f) && f.error.code@
                == "missing_oauth_config"@ && f.exit_code == 1)
            &&& id is Some && secret is Some && oauth::redirect_parts(uri) is None ==> (
            r matches ConnectAction::Fail(f) && f.error.code@ == "invalid_redirect_uri"@
                && f.exit_code == 1)
            &&& id is Some && secret is Some && oauth::redirect_parts(uri) is Some && p.authorized
                is None ==> (r matches ConnectAction::AuthorizeDirectly(c) && Some(c.client_id@)
                == id && Some(c.client_secret@) == secret && c.redirect_uri@ == uri)
            &&& r matches ConnectAction::ConnectOwnCode(o) ==> p.authorized is Some
                && p.authorized->0 is Ok && o.code == p.authorized->0->Ok_0.code && Some(
                o.client_id@,
            ) == id && Some(o.client_secret@) == secret && o.redirect_uri@ == uri && text::opt_text(
                o.connection_id,
            ) == args::value_of(all, "--name"@)
        }),
{
}

/// A session is downloaded only where it is ready, has no error and tells its limits, and only in
/// the encoding that is wanted.
pub proof fn law_only_whole_sessions_are_downloaded(
    status: SessionStatus,
    required: Option<ReplicaArchiveEncoding>,
    p: DownloadProgress,
    r: DownloadAction,
)
    requires
        hosted_flow::follows_status(status, required, p, r),
    ensures
        r is RequestExport || r is Stage ==> status.state is Ready && status.error is None
            && status.has_export_limits,
        r is RequestExport ==> p.offered is None,
        r is Stage ==> p.offered is Some && p.offered->0 is Ok && (required is None || required
            == Some(p.offered->0->Ok_0)),
        status.state is Ready && status.error is None && status.has_export_limits && p.offered
            is None ==> r is RequestExport,
        status.state is Ready && status.error is None && status.has_export_limits
            && p.offered is Some && p.offered->0 is Ok && (required is None || required == Some(
            p.offered->0->Ok_0,
        )) ==> r is Stage,
        !(status.state is Ready) ==> (r matches DownloadAction::Refuse(
            SessionRefusal::NotReady { state, .. },
        ) && state == status.state),
        status.state is Ready && status.error is Some ==> (r matches DownloadAction::Refuse(
            SessionRefusal::InvalidReady(why),
        ) && why@ == "error is present"@),
        status.state is Ready && status.error is None && !status.has_export_limits ==> (
        r matches DownloadAction::Refuse(SessionRefusal::InvalidReady(why)) && why@
            == "export-attempt limits are absent"@),
{
}

/// What a search found is shown once the pages that were searched for have been fetched, and at
/// once where none was searched for.
pub proof fn law_searched_pages_are_fetched_first(
    options: SearchOptions,
    report: SearchReport,
    which: WhichSearch,
    p: SearchProgress,
    r: SearchAction,
)
    requires
        search_flow::follows_report(options, report, which, p, r),
    ensures
        ({
            let wanted = search::searched_pages(options, report.results@);
            &&& wanted.len() == 0 ==> r == SearchAction::Show(which)
            &&& wanted.len() > 0 && p.prefetched is None ==> (r matches SearchAction::Prefetch(
                of,
                places,
            ) && of == which && places@.len() == wanted.len() && forall|i: int|
                0 <= i < wanted.len() ==> #[trigger] places@[i] as int == wanted[i])
            &&& wanted.len() > 0 && p.prefetched is Some && p.prefetched->0 is Ok ==> r
                == SearchAction::Show(which)
            &&& wanted.len() > 0 && p.prefetched is Some && p.prefetched->0 is Err ==> (
            r matches SearchAction::Fail(f) && f.error == p.prefetched->0->Err_0 && f.exit_code == 1)
        }),
{
    let wanted = search::searched_pages(options, report.results@);
    if wanted.len() > 0 && p.prefetched is None {
        if let SearchAction::Prefetch(of, places) = r {
            let mapped = places@.map_values(|i: usize| i as int);
            assert(mapped == wanted);
            assert forall|i: int| 0 <= i < wanted.len() implies #[trigger] places@[i] as int
                == wanted[i] by {
                assert(mapped[i] == wanted[i]);
            }
        }
    }
}

/// A lost link is sought again only after every mount was asked, and not at all where none could
/// be.
pub proof fn law_lost_links_are_sought_after_the_mounts_were_asked(
    options: SearchOptions,
    first: SearchReport,
    p: SearchProgress,
    r: SearchAction,
)
    requires
        search_flow::follows_miss(options, first, p, r),
    ensures
        p.mounts is None ==> r is ListMounts,
        p.mounts is Some && p.mounts->0 is Err ==> (r matches SearchAction::Fail(f) && f.error.code@
            == "store_error"@ && f.exit_code == 1),
        r is RefreshMounts ==> p.refreshed is None && p.mounts is Some && p.mounts->0 is Ok
            && p.mounts->0->Ok_0@.len() > 0,
        r is SearchAgain ==> p.again is None && p.refreshed is Some && exists|i: int|
            0 <= i < p.refreshed->0@.len() && (#[trigger] p.refreshed->0@[i]) is Ok,
        p.mounts is Some && p.mounts->0 is Ok && p.mounts->0->Ok_0@.len() > 0 && p.refreshed is Some
            && (forall|i: int|
            0 <= i < p.refreshed->0@.len() ==> (#[trigger] p.refreshed->0@[i]) is Err) ==> (
        r matches SearchAction::Fail(f) && f.error.code@ == "metadata_refresh_failed"@),
{
}

/// On Windows the daemon is not started without an address, nor with one that cannot be read.
pub proof fn law_windows_daemons_need_an_address(
    options: DaemonOptions,
    setting: StartSetting,
    e: DaemonControlError,
)
    requires
        start_flow::is_endpoint_refusal(options, setting, e),
    ensures
        ({
            let addr = match options.tcp_addr {
                Some(named) => named@,
                None => setting.default_addr@,
            };
            &&& daemon::is_disabled(addr) ==> e.code@ == "unsupported"@
            &&& !daemon::is_disabled(addr) ==> e.code@ == "usage"@ && setting.malformed is Some
        }),
{
}

/// Nothing is asked of a source for a mount that needs the daemon until the daemon is known to run.
pub proof fn law_mounts_of_fuse_wait_for_the_daemon(
    all: Seq<Seq<char>>,
    target_os: Seq<char>,
    daemon_disabled: bool,
    descriptor: SourceDescriptor,
    mode: ProjectionMode,
    connection_id: Option<String>,
    p: MountProgress,
    r: MountAction,
)
    requires
        mount_flow::follows_connection(
            all,
            target_os,
            daemon_disabled,
            descriptor,
            mode,
            connection_id,
            p,
            r,
        ),
        projection::auto_registration(mode, target_os, daemon_disabled) is Some,
        projection::auto_registration(mode, target_os, daemon_disabled)->0 is LinuxFuse,
    ensures
        p.daemon_running is None ==> r is ProbeDaemon,
        p.daemon_running == Some(false) ==> (r matches MountAction::Fail(f) && f.error.code@
            == "daemon_not_running"@ && f.exit_code == 1),
        r is ReachSource ==> p.daemon_running == Some(true),
{
}

/// A provider is taken away only where no other mount of its kind is below the same root.
pub proof fn law_shared_roots_keep_their_provider(
    style: PathStyle,
    mounts: Seq<MountConfig>,
    target: MountConfig,
    projection: ProjectionMode,
)
    requires
        target.projection == projection,
    ensures
        providing::leaves_siblings(style, mounts, target, projection) <==> forall|i: int|
            0 <= i < mounts.len() ==> (#[trigger] mounts[i]).mount_id@ == target.mount_id@
                || mounts[i].projection != projection || !paths::same(
                style,
                mounts[i].projection_root@,
                target.projection_root@,
            ),
{
    let chosen = |m: MountConfig| providing::is_sibling(style, m, target, projection);
    let kept = mounts.filter(chosen);
    if providing::leaves_siblings(style, mounts, target, projection) {
        assert forall|i: int| 0 <= i < mounts.len() implies (#[trigger] mounts[i]).mount_id@
            == target.mount_id@ || mounts[i].projection != projection || !paths::same(
            style,
            mounts[i].projection_root@,
            target.projection_root@,
        ) by {
            providing::law_unregistering_stops_no_sibling(style, mounts, target, projection, i);
        }
    } else {
        assert(kept.len() > 0);
        assert(kept.contains(kept[0]));
        let m = kept[0];
        mounts.lemma_filter_pred(chosen, 0);
        mounts.lemma_filter_contains_rev(chosen, m);
        assert(mounts.contains(m) && chosen(m));
        let i = choose|i: int| 0 <= i < mounts.len() && mounts[i] == m;
        assert(mounts[i] == m);
    }
}

/// The store is shown as it was found; one that could not be read is shown as that.
pub proof fn law_stores_are_shown_as_found(
    shown: DoctorStateStore,
    inspected: Result<StateCompatibility, UnreadableStore>,
)
    requires
        doctor::shows_store(shown, inspected),
    ensures
        inspected matches Err(u) ==> {
            &&& !shown.readable
            &&& shown.schema_version is None
            &&& shown.path == u.path
            &&& shown.exists == u.exists
            &&& shown.supported_schema_version == u.supported_schema_version
            &&& shown.compatibility_status@ == "error"@
        },
        inspected matches Ok(c) ==> {
            &&& shown.readable == c.readable
            &&& shown.schema_version == c.schema_version
            &&& shown.path == c.db_path
            &&& shown.exists == c.db_exists
            &&& shown.supported_schema_version == c.current_schema_version
            &&& shown.compatibility_status == c.status
        },
{
}

/// The word of the source on an entity is the last one that was confirmed of it.
pub proof fn law_the_last_word_on_an_entity_counts(
    confirmed: Seq<undo::Confirmation>,
    id: Seq<char>,
)
    ensures
        match reconcile::confirmation_for(confirmed, id) {
            Some(word) => word.entity == id && exists|i: int|
                0 <= i < confirmed.len() && #[trigger] confirmed[i] == word && forall|j: int|
                    i < j < confirmed.len() ==> (#[trigger] confirmed[j]).entity != id,
            None => forall|i: int|
                0 <= i < confirmed.len() ==> (#[trigger] confirmed[i]).entity != id,
        },
    decreases confirmed.len(),
{
    if confirmed.len() > 0 {
        let front = confirmed.drop_last();
        if confirmed.last().entity == id {
            assert(confirmed[confirmed.len() - 1] == confirmed.last());
        } else {
            law_the_last_word_on_an_entity_counts(front, id);
            if let Some(word) = reconcile::confirmation_for(front, id) {
                let i = choose|i: int|
                    0 <= i < front.len() && #[trigger] front[i] == word && forall|j: int|
                        i < j < front.len() ==> (#[trigger] front[j]).entity != id;
                assert(confirmed[i] == word);
                assert forall|j: int| i < j < confirmed.len() implies (
                #[trigger] confirmed[j]).entity != id by {
                    if j < front.len() {
                        assert(front[j] == confirmed[j]);
                    }
                }
            } else {
                assert forall|i: int| 0 <= i < confirmed.len() implies (
                #[trigger] confirmed[i]).entity != id by {
                    if i < front.len() {
                        assert(front[i] == confirmed[i]);
                    }
                }
            }
        }
    }
}

/// A registration that failed is told of the system that was to show the mount.
pub proof fn law_failed_registrations_name_their_system(pending: MountToRegister)
    ensures
        pending.registration is MacosFileProvider <==> pending.system() == "macOS File Provider"@,
        pending.registration is LinuxFuse <==> pending.system() == "Linux FUSE"@,
        pending.registration is WindowsCloudFiles <==> pending.system() == "Windows Cloud Files"@,
{
    reveal_strlit("macOS File Provider");
    reveal_strlit("Linux FUSE");
    reveal_strlit("Windows Cloud Files");
    assert("macOS File Provider"@[0] != "Windows Cloud Files"@[0]);
}

/// A link is lost only where nothing was found for it and Notion was not left out.
pub proof fn law_links_are_lost_where_nothing_was_found(
    options: SearchOptions,
    report: SearchReport,
)
    ensures
        search_flow::misses_link(options, report) <==> report.results@.len() == 0
            && search::notion_id(options.query@) is Some && (match options.connector {
            Some(name) => name@ == "notion"@,
            None => true,
        }),
{
}

/// Refusals to take a provider away are told of the system that shows the mount.
pub proof fn law_kept_providers_are_told_by_their_system(projection: ProjectionMode)
    ensures
        projection is WindowsCloudFiles ==> providing::guard_label(projection)
            == "Windows Cloud Files"@ && providing::shared_code(projection)
            == "windows_cloud_files_shared_root_in_use"@ && providing::unresolved_code(projection)
            == "windows_cloud_files_unresolved_shared_root"@,
        projection is LinuxFuse ==> providing::guard_label(projection) == "Linux FUSE"@
            && providing::shared_code(projection) == "linux_fuse_shared_root_in_use"@
            && providing::unresolved_code(projection) == "linux_fuse_unresolved_shared_root"@,
{
}

} // verus!
