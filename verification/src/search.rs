//! Searching for a Notion page by its address, before and after its metadata
//! was fetched.
use vstd::prelude::*;

use crate::daemon_report::{DaemonReport, DaemonUnavailableReason};
use crate::model;
use crate::model::{CommandError, MountConfig};
use crate::pull::PullReport;
use crate::requests::SearchOptions;
use crate::text;

verus! {

/// Whether a search result may be read by an agent.
#[derive(Debug, PartialEq, Eq)]
pub struct SearchSafety {
    pub agent_readable: bool,
    pub labels: Vec<String>,
}

/// What is known of the remote side of a search result.
#[derive(Clone, Copy, Debug, PartialEq, Eq, Structural)]
pub struct SearchRemote {
    pub changed: bool,
    pub deleted: bool,
}

/// Something that a search found.
#[derive(Debug, PartialEq, Eq)]
pub struct SearchResult {
    pub title: String,
    pub kind: String,
    pub state: String,
    pub path: String,
    pub absolute_path: String,
    pub mount_id: String,
    pub connector: String,
    pub remote_id: String,
    pub safety: SearchSafety,
    pub remote: SearchRemote,
}

/// What a search found.
#[derive(Debug, PartialEq, Eq)]
pub struct SearchReport {
    pub ok: bool,
    pub command: &'static str,
    pub query: String,
    pub connector: Option<String>,
    pub count: usize,
    pub results: Vec<SearchResult>,
}

impl SearchOptions {
    /// A search for ten results in every source.
    pub fn new(query: &str) -> (r: Self)
        ensures
            r.query@ == query@,
            r.connector is None,
            r.limit == 10,
            !r.include_stale_access,
    {
        SearchOptions {
            query: query.to_string(),
            connector: None,
            limit: 10,
            include_stale_access: false,
        }
    }
}

/// Whether a character is a hexadecimal digit.
#[verifier::allow_in_spec]
pub fn is_hex_digit(c: char) -> (r: bool)
    returns
        ('0' <= c && c <= '9') || ('a' <= c && c <= 'f') || ('A' <= c && c <= 'F'),
{
    ('0' <= c && c <= '9') || ('a' <= c && c <= 'f') || ('A' <= c && c <= 'F')
}

/// What of an address names a page: the last part of its path, without dashes.
pub open spec fn page_part(value: Seq<char>) -> Seq<char>
    decreases value.len(),
{
    if value.len() == 0 {
        Seq::empty()
    } else if value.last() == '/' {
        Seq::empty()
    } else if value.last() == '-' {
        page_part(value.drop_last())
    } else {
        page_part(value.drop_last()).push(value.last())
    }
}

/// Where the path of an address ends: at a `?` or `#`.
pub open spec fn path_end(value: Seq<char>, from: int) -> int
    decreases value.len() - from,
{
    if from >= value.len() || value[from] == '?' || value[from] == '#' {
        from
    } else {
        path_end(value, from + 1)
    }
}

/// The identifier that an address or an identifier ends with: thirty-two
/// hexadecimal digits, in lower case and without dashes.
pub open spec fn notion_id(value: Seq<char>) -> Option<Seq<char>> {
    let part = page_part(value.take(path_end(value, 0)));
    let id = part.skip(part.len() - 32);
    if part.len() >= 32 && (forall|i: int| 0 <= i < id.len() ==> is_hex_digit(#[trigger] id[i])) {
        Some(text::lowered(id))
    } else {
        None
    }
}

/// What of an address names a page, read from its end.
fn page_part_of(chars: &Vec<char>, end: usize) -> (r: Vec<char>)
    requires
        end <= chars.len(),
    ensures
        r@ == page_part(chars@.take(end as int)),
{
    let ghost whole = page_part(chars@.take(end as int));
    let mut backwards: Vec<char> = Vec::new();
    let mut i: usize = end;
    assert(whole + backwards@.reverse() =~= whole);
    while i > 0 && chars[i - 1] != '/'
        invariant
            i <= end <= chars.len(),
            whole == page_part(chars@.take(i as int)) + backwards@.reverse(),
        decreases i,
    {
        let last = chars[i - 1];
        let ghost before = backwards@;
        assert(chars@.take(i as int).last() == last);
        assert(chars@.take(i as int).drop_last() == chars@.take(i - 1));
        if last != '-' {
            backwards.push(last);
            assert(backwards@.reverse() =~= seq![last] + before.reverse());
            assert(page_part(chars@.take(i as int)) + before.reverse() =~= page_part(
                chars@.take(i - 1),
            ) + backwards@.reverse());
        }
        i -= 1;
    }
    if i > 0 {
        assert(chars@.take(i as int).last() == '/');
    }
    assert(page_part(chars@.take(i as int)) =~= Seq::<char>::empty());
    assert(whole =~= backwards@.reverse());
    text::reversed(backwards)
}

/// The identifier that an address or an identifier ends with.
pub fn notion_id_from_url(value: &str) -> (r: Option<String>)
    ensures
        text::opt_text(r) == notion_id(value@),
{
    let chars = text::chars_of(value);
    let mut end: usize = 0;
    while end < chars.len() && chars[end] != '?' && chars[end] != '#'
        invariant
            end <= chars.len(),
            path_end(chars@, 0) == path_end(chars@, end as int),
        decreases chars.len() - end,
    {
        end += 1;
    }
    assert(path_end(chars@, 0) == end);
    let part = page_part_of(&chars, end);
    if part.len() < 32 {
        return None;
    }
    let start: usize = part.len() - 32;
    let ghost id = part@.skip(start as int);
    let mut i: usize = start;
    while i < part.len()
        invariant
            start <= i <= part.len(),
            start == part.len() - 32,
            id == part@.skip(start as int),
            part@ == page_part(value@.take(path_end(value@, 0))),
            forall|k: int| 0 <= k < i - start ==> is_hex_digit(#[trigger] id[k]),
        decreases part.len() - i,
    {
        assert(id[i - start] == part@[i as int]);
        if !is_hex_digit(part[i]) {
            return None;
        }
        i += 1;
    }
    let digits = text::string_of_range(&part, start, part.len());
    assert(digits@ =~= id);
    Some(text::to_lowercase(&digits))
}

/// Whether a search is for Notion pages.
pub open spec fn allows_notion(connector: Option<String>) -> bool {
    match connector {
        Some(name) => name@ == "notion"@,
        None => true,
    }
}

/// Metadata is fetched where the address of a Notion page was not found.
pub fn should_refresh_notion_url_search(options: &SearchOptions, report: &SearchReport) -> (r: bool)
    ensures
        r == (report.results@.len() == 0 && notion_id(options.query@) is Some && allows_notion(
            options.connector,
        )),
{
    let allowed = match &options.connector {
        Some(name) => text::same_text(name, "notion"),
        None => true,
    };
    report.results.len() == 0 && allowed && notion_id_from_url(&options.query).is_some()
}

/// The Notion mounts.
pub open spec fn notion_mounts(mounts: Seq<MountConfig>) -> Seq<MountConfig> {
    mounts.filter(|m: MountConfig| m.connector@ == "notion"@)
}

/// The mounts whose metadata is fetched.
pub fn mounts_to_refresh(mounts: Vec<MountConfig>) -> (r: Vec<MountConfig>)
    ensures
        r@ == notion_mounts(mounts@),
{
    let ghost all = mounts@;
    let ghost is_notion = |m: MountConfig| m.connector@ == "notion"@;
    let mut chosen: Vec<MountConfig> = Vec::new();
    reveal(Seq::filter);
    assert(all.take(0).filter(is_notion) =~= Seq::<MountConfig>::empty());
    for mount in it: mounts
        invariant
            it.seq() == all,
            is_notion == (|m: MountConfig| m.connector@ == "notion"@),
            chosen@ == all.take(it.index() as int).filter(is_notion),
    {
        assert(all.take(it.index() + 1).drop_last() == all.take(it.index() as int));
        assert(all.take(it.index() + 1).last() == mount);
        reveal(Seq::filter);
        if text::same_text(&mount.connector, "notion") {
            chosen.push(mount);
        }
    }
    assert(all.take(all.len() as int) == all);
    chosen
}

/// What fetching the metadata of a mount does next.
#[derive(Debug, PartialEq, Eq)]
pub enum RefreshStep {
    Done,
    Failed(CommandError),
    /// Fetch it without the daemon.
    FetchDirectly,
}

/// What follows on the answer of the daemon to the request for the metadata of
/// a mount.
pub open spec fn follows_refresh(
    reply: DaemonReport<PullReport>,
    mount: MountConfig,
    timeout_ms: u64,
    r: RefreshStep,
) -> bool {
    match reply {
        DaemonReport::Report(_) => r == RefreshStep::Done,
        DaemonReport::Error(e) => r matches RefreshStep::Failed(error) && model::is_command_error(
            error,
            "search"@,
            e.code@,
            e.message@,
        ),
        DaemonReport::Unavailable(DaemonUnavailableReason::TimedOut) => r matches
            RefreshStep::Failed(error) && model::is_suggesting_error(
            error,
            "search"@,
            "daemon_timeout"@,
            "localityd did not respond within "@ + text::decimal(timeout_ms as nat)
                + "ms while refreshing Notion metadata for search"@,
            "loc daemon restart"@,
        ),
        DaemonReport::Unavailable(DaemonUnavailableReason::NotAvailable) =>
        if mount.projection.uses_virtual_filesystem() {
            r matches RefreshStep::Failed(error) && model::is_suggesting_error(
                error,
                "search"@,
                "daemon_required"@,
                "mount `"@ + mount.mount_id@ + "` uses projection `"@ + mount.projection.name()
                    + "`; Notion URL search metadata refresh must run through localityd"@,
                "loc daemon restart"@,
            )
        } else {
            r == RefreshStep::FetchDirectly
        },
        DaemonReport::Unavailable(DaemonUnavailableReason::Disabled) => r
            == RefreshStep::FetchDirectly,
    }
}

/// What follows on the answer of the daemon to the request for the metadata of
/// a mount.
pub fn refresh_search_mount_metadata(
    reply: DaemonReport<PullReport>,
    mount: &MountConfig,
    timeout_ms: u64,
) -> (r: RefreshStep)
    ensures
        follows_refresh(reply, *mount, timeout_ms, r),
{
    let reason = match reply {
        DaemonReport::Report(_) => {
            return RefreshStep::Done;
        },
        DaemonReport::Error(e) => {
            return RefreshStep::Failed(CommandError::new("search", &e.code, e.message));
        },
        DaemonReport::Unavailable(reason) => reason,
    };
    match reason {
        DaemonUnavailableReason::TimedOut => RefreshStep::Failed(
            CommandError::new(
                "search",
                "daemon_timeout",
                text::concat3(
                    "localityd did not respond within ",
                    text::decimal_text(timeout_ms as u128).as_str(),
                    "ms while refreshing Notion metadata for search",
                ),
            ).with_suggested_command("loc daemon restart".to_string()),
        ),
        DaemonUnavailableReason::NotAvailable => if mount.projection.uses_virtual_filesystem() {
            let mut message = text::concat3("mount `", &mount.mount_id, "` uses projection `");
            message.append(mount.projection.as_str());
            message.append("`; Notion URL search metadata refresh must run through localityd");
            RefreshStep::Failed(
                CommandError::new("search", "daemon_required", message).with_suggested_command(
                    "loc daemon restart".to_string(),
                ),
            )
        } else {
            RefreshStep::FetchDirectly
        },
        DaemonUnavailableReason::Disabled => RefreshStep::FetchDirectly,
    }
}

/// The words of the last failure.
pub open spec fn last_failure(results: Seq<Result<(), CommandError>>) -> Option<Seq<char>>
    decreases results.len(),
{
    if results.len() == 0 {
        None
    } else {
        match results.last() {
            Err(e) => Some(e.message@),
            Ok(_) => last_failure(results.drop_last()),
        }
    }
}

/// Whether the metadata of some mount could be fetched.
pub open spec fn some_refreshed(results: Seq<Result<(), CommandError>>) -> bool {
    exists|i: int| 0 <= i < results.len() && (#[trigger] results[i]) is Ok
}

/// What fetching the metadata of the Notion mounts came to: one success is
/// enough, and of several failures the last one is told.
pub fn metadata_refreshed(results: &Vec<Result<(), CommandError>>) -> (r: Result<(), CommandError>)
    ensures
        match r {
            Ok(_) => some_refreshed(results@),
            Err(error) => !some_refreshed(results@) && model::is_command_error(
                error,
                "search"@,
                "metadata_refresh_failed"@,
                "could not refresh Notion metadata before URL search: "@ + (match last_failure(
                    results@,
                ) {
                    Some(why) => why,
                    None => "no Notion mounts could be refreshed"@,
                }),
            ),
        },
{
    let mut i: usize = 0;
    while i < results.len()
        invariant
            i <= results.len(),
            forall|k: int| 0 <= k < i ==> (#[trigger] results@[k]) is Err,
        decreases results.len() - i,
    {
        if let Ok(_) = &results[i] {
            assert(results@[i as int] is Ok);
            return Ok(());
        }
        i += 1;
    }
    let mut message = "could not refresh Notion metadata before URL search: ".to_string();
    if results.len() > 0 {
        let last = &results[results.len() - 1];
        assert(results@.last() is Err);
        match last {
            Err(e) => {
                message.append(&e.message);
            },
            Ok(_) => {},
        }
    } else {
        message.append("no Notion mounts could be refreshed");
    }
    Err(CommandError::new("search", "metadata_refresh_failed", message))
}

/// Whether a result is the page that a search was for.
pub open spec fn is_searched_page(result: SearchResult, id: Seq<char>) -> bool {
    &&& result.connector@ == "notion"@
    &&& result.kind@ != "workspace"@
    &&& notion_id(result.remote_id@) == Some(id)
}

/// The results, by position, whose ancestors are fetched: those that are the
/// page that was searched for by its address.
pub open spec fn searched_pages(options: SearchOptions, results: Seq<SearchResult>) -> Seq<int>
    decreases results.len(),
{
    if results.len() == 0 || notion_id(options.query@) is None || !allows_notion(
        options.connector,
    ) {
        Seq::empty()
    } else if is_searched_page(results.last(), notion_id(options.query@)->0) {
        searched_pages(options, results.drop_last()).push(results.len() - 1)
    } else {
        searched_pages(options, results.drop_last())
    }
}

/// The results, by position, whose ancestors are fetched.
pub fn results_to_prefetch(options: &SearchOptions, report: &SearchReport) -> (r: Vec<usize>)
    ensures
        r@.map_values(|i: usize| i as int) == searched_pages(*options, report.results@),
{
    let mut chosen: Vec<usize> = Vec::new();
    let id = match notion_id_from_url(&options.query) {
        Some(id) => id,
        None => {
            assert(chosen@.map_values(|i: usize| i as int) =~= searched_pages(
                *options,
                report.results@,
            ));
            return chosen;
        },
    };
    let allowed = match &options.connector {
        Some(name) => text::same_text(name, "notion"),
        None => true,
    };
    if !allowed {
        assert(chosen@.map_values(|i: usize| i as int) =~= searched_pages(
            *options,
            report.results@,
        ));
        return chosen;
    }
    let ghost all = report.results@;
    let mut i: usize = 0;
    assert(chosen@.map_values(|i: usize| i as int) =~= searched_pages(*options, all.take(0)));
    while i < report.results.len()
        invariant
            i <= report.results.len(),
            all == report.results@,
            notion_id(options.query@) == Some(id@),
            allows_notion(options.connector),
            chosen@.map_values(|i: usize| i as int) == searched_pages(
                *options,
                all.take(i as int),
            ),
        decreases report.results.len() - i,
    {
        let result = &report.results[i];
        assert(all.take(i + 1).drop_last() == all.take(i as int));
        assert(all.take(i + 1).last() == *result);
        let same_page = match notion_id_from_url(&result.remote_id) {
            Some(found) => text::same_text(&found, &id),
            None => false,
        };
        let ghost before = chosen@;
        if same_page && text::same_text(&result.connector, "notion") && !text::same_text(
            &result.kind,
            "workspace",
        ) {
            chosen.push(i);
            assert(chosen@.map_values(|i: usize| i as int) =~= before.map_values(
                |i: usize| i as int,
            ).push(i as int));
        }
        i += 1;
    }
    assert(all.take(i as int) == all);
    chosen
}

/// Whether the ancestors of a result are fetched: only where its mount is still
/// there and shows its content through a virtual filesystem.
pub fn prefetches_ancestors(mount: &Option<MountConfig>) -> (r: bool)
    ensures
        r == (mount matches Some(m) && m.projection.uses_virtual_filesystem()),
{
    match mount {
        Some(mount) => mount.projection.uses_virtual_filesystem(),
        None => false,
    }
}

/// What comes of fetching one ancestor of a result through the daemon.
pub fn prefetch_virtual_search_container<T>(
    reply: &DaemonReport<T>,
    mount: &MountConfig,
    container_identifier: &str,
    timeout_ms: u64,
) -> (r: Result<(), CommandError>)
    ensures
        match *reply {
            DaemonReport::Report(_) => r is Ok,
            DaemonReport::Error(e) => r matches Err(error) && model::is_command_error(
                error,
                "search"@,
                e.code@,
                e.message@,
            ),
            DaemonReport::Unavailable(DaemonUnavailableReason::TimedOut) => r matches Err(error)
                && model::is_suggesting_error(
                error,
                "search"@,
                "daemon_timeout"@,
                "localityd did not respond within "@ + text::decimal(timeout_ms as nat)
                    + "ms while enumerating ancestor metadata for search result `"@
                    + container_identifier@ + "`"@,
                "loc daemon restart"@,
            ),
            DaemonReport::Unavailable(_) => r matches Err(error) && model::is_suggesting_error(
                error,
                "search"@,
                "daemon_required"@,
                "mount `"@ + mount.mount_id@ + "` uses projection `"@ + mount.projection.name()
                    + "`; Notion URL search must enumerate ancestor metadata through localityd"@,
                "loc daemon restart"@,
            ),
        },
{
    match reply {
        DaemonReport::Report(_) => Ok(()),
        DaemonReport::Error(e) => Err(CommandError::new("search", &e.code, e.message.clone())),
        DaemonReport::Unavailable(DaemonUnavailableReason::TimedOut) => {
            let mut message = text::concat3(
                "localityd did not respond within ",
                text::decimal_text(timeout_ms as u128).as_str(),
                "ms while enumerating ancestor metadata for search result `",
            );
            message.append(container_identifier);
            message.append("`");
            Err(
                CommandError::new("search", "daemon_timeout", message).with_suggested_command(
                    "loc daemon restart".to_string(),
                ),
            )
        },
        DaemonReport::Unavailable(_) => {
            let mut message = text::concat3("mount `", &mount.mount_id, "` uses projection `");
            message.append(mount.projection.as_str());
            message.append(
                "`; Notion URL search must enumerate ancestor metadata through localityd",
            );
            Err(
                CommandError::new("search", "daemon_required", message).with_suggested_command(
                    "loc daemon restart".to_string(),
                ),
            )
        },
    }
}

} // verus!
