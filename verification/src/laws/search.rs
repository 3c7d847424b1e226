//! What a search does about links.
use crate::daemon_report::DaemonReport;
use crate::model::{CommandError, MountConfig};
use crate::pull::PullReport;
use crate::requests::SearchOptions;
use crate::search;
use crate::search::{RefreshStep, SearchResult};
use crate::search_flow;
use crate::search_flow::{SearchAction, SearchProgress, WhichSearch};
use crate::text;
use vstd::prelude::*;

verus! {

/// Whether a text is thirty-two hexadecimal digits, the letters small.
pub open spec fn is_page_id(id: Seq<char>) -> bool {
    &&& id.len() == 32
    &&& forall|i: int|
        0 <= i < id.len() ==> ('0' <= #[trigger] id[i] <= '9') || ('a' <= id[i] <= 'f')
}

/// What a link is read as is always an identifier of a page.
pub proof fn law_links_are_read_as_page_identifiers(value: Seq<char>)
    ensures
        search::notion_id(value) matches Some(id) ==> is_page_id(id),
{
    let part = search::page_part(value.take(search::path_end(value, 0)));
    let raw = part.skip(part.len() - 32);
    if let Some(id) = search::notion_id(value) {
        assert forall|i: int| 0 <= i < id.len() implies ('0' <= #[trigger] id[i] <= '9') || ('a'
            <= id[i] <= 'f') by {
            assert(search::is_hex_digit(raw[i]));
            assert(id[i] == text::lower(raw[i]));
        }
    }
}

/// An identifier of a page is read as itself, alone and behind a slash, with a question or a mark
/// behind it or without.
pub proof fn law_page_identifiers_are_read_back(front: Seq<char>, id: Seq<char>, back: Seq<char>)
    requires
        is_page_id(id),
        forall|i: int| 0 <= i < front.len() ==> #[trigger] front[i] != '?' && front[i] != '#',
        front.len() == 0 || front.last() == '/' || front.last() == '-',
        back.len() == 0 || back[0] == '?' || back[0] == '#',
    ensures
        search::notion_id(front + id + back) == Some(id),
{
    let value = front + id + back;
    let n = front.len() + id.len();
    assert forall|i: int| 0 <= i < n implies #[trigger] value[i] != '?' && value[i] != '#' by {
        if i < front.len() {
            assert(value[i] == front[i]);
        } else {
            assert(value[i] == id[i - front.len()]);
        }
    }
    assert(n < value.len() ==> value[n as int] == back[0]);
    lemma_path_end(value, 0, n as int);
    let path = value.take(n as int);
    assert(path =~= front + id);
    lemma_page_part(front, id);
    let part = search::page_part(front + id);
    assert(part =~= search::page_part(front) + id);
    assert(part.skip(part.len() - 32) =~= id);
    assert forall|i: int| 0 <= i < id.len() implies search::is_hex_digit(#[trigger] id[i]) by {}
    assert(text::lowered(id) =~= id);
}

proof fn lemma_path_end(value: Seq<char>, from: int, n: int)
    requires
        0 <= from <= n <= value.len(),
        forall|i: int| from <= i < n ==> #[trigger] value[i] != '?' && value[i] != '#',
        n < value.len() ==> value[n] == '?' || value[n] == '#',
    ensures
        search::path_end(value, from) == n,
    decreases n - from,
{
    if from < n {
        lemma_path_end(value, from + 1, n);
    }
}

proof fn lemma_page_part(front: Seq<char>, id: Seq<char>)
    requires
        forall|i: int| 0 <= i < id.len() ==> #[trigger] id[i] != '/' && id[i] != '-',
    ensures
        search::page_part(front + id) == search::page_part(front) + id,
    decreases id.len(),
{
    let all = front + id;
    if id.len() == 0 {
        assert(all =~= front);
        assert(search::page_part(front) + id =~= search::page_part(front));
    } else {
        assert(all.drop_last() =~= front + id.drop_last());
        assert(all.last() == id.last());
        lemma_page_part(front, id.drop_last());
        assert((search::page_part(front) + id.drop_last()).push(id.last()) =~= search::page_part(
            front,
        ) + id);
    }
}

/// Whether a search is for a link that may be of Notion.
pub open spec fn is_for_link(options: SearchOptions) -> bool {
    &&& search::notion_id(options.query@) is Some
    &&& match options.connector {
        Some(name) => name@ == "notion"@,
        None => true,
    }
}

proof fn lemma_searched_pages(options: SearchOptions, results: Seq<SearchResult>, i: int)
    ensures
        search::searched_pages(options, results).contains(i) <==> {
            &&& is_for_link(options)
            &&& 0 <= i < results.len()
            &&& results[i].connector@ == "notion"@
            &&& results[i].kind@ != "workspace"@
            &&& search::notion_id(results[i].remote_id@) == search::notion_id(options.query@)
        },
    decreases results.len(),
{
    let all = search::searched_pages(options, results);
    if results.len() > 0 {
        let front = results.drop_last();
        let before = search::searched_pages(options, front);
        lemma_searched_pages(options, front, i);
        if 0 <= i < front.len() {
            assert(front[i] == results[i]);
        }
        if before.contains(i) {
            if is_for_link(options) {
                let k = choose|k: int| 0 <= k < before.len() && before[k] == i;
                assert(all[k] == i);
            }
        }
        if all.contains(i) {
            let k = choose|k: int| 0 <= k < all.len() && all[k] == i;
            if k < before.len() {
                assert(before[k] == i);
            }
        }
        if is_for_link(options) && i == results.len() - 1 && search::is_searched_page(
            results.last(),
            search::notion_id(options.query@)->0,
        ) {
            assert(all[before.len() as int] == i);
        }
    }
}

/// What lies above a result is listed before it is shown exactly where the search is for a link
/// and the result is the page that the link leads to.
pub proof fn law_pages_of_links_are_listed_first(
    options: SearchOptions,
    p: SearchProgress,
    which: WhichSearch,
    results: Vec<usize>,
    i: usize,
)
    requires
        search_flow::follows_search(
            options,
            p,
            SearchAction::Prefetch(which, results),
        ),
    ensures
        ({
            let report = match which {
                WhichSearch::First => p.first->0->Ok_0,
                WhichSearch::Again => p.again->0->Ok_0,
            };
            results@.contains(i) <==> {
                &&& is_for_link(options)
                &&& 0 <= i < report.results@.len()
                &&& report.results@[i as int].connector@ == "notion"@
                &&& report.results@[i as int].kind@ != "workspace"@
                &&& search::notion_id(report.results@[i as int].remote_id@) == search::notion_id(
                    options.query@,
                )
            }
        }),
{
    let report = match which {
        WhichSearch::First => p.first->0->Ok_0,
        WhichSearch::Again => p.again->0->Ok_0,
    };
    let wanted = search::searched_pages(options, report.results@);
    let shown = results@.map_values(|i: usize| i as int);
    assert(shown == wanted);
    lemma_searched_pages(options, report.results@, i as int);
    if results@.contains(i) {
        let k = choose|k: int| 0 <= k < results@.len() && results@[k] == i;
        assert(shown[k] == i as int);
    }
    if wanted.contains(i as int) {
        let k = choose|k: int| 0 <= k < wanted.len() && wanted[k] == i as int;
        assert(shown[k] == results@[k] as int);
        assert(results@[k] == i);
    }
}

/// A search asks its sources again exactly where it is for a link and found nothing, and shows
/// what it found then; else it shows what it found at once. It fails only where something that it
/// needs has failed.
pub proof fn law_searches_show_what_they_found(
    options: SearchOptions,
    p: SearchProgress,
    r: SearchAction,
)
    requires
        search_flow::follows_search(options, p, r),
    ensures
        r == SearchAction::Show(WhichSearch::First) ==> (p.first matches Some(Ok(first)) && (
        first.results@.len() > 0 || !is_for_link(options) || (p.mounts matches Some(Ok(mounts))
            && mounts@.len() == 0))),
        r == SearchAction::Show(WhichSearch::Again) ==> (p.first matches Some(Ok(first))
            && first.results@.len() == 0 && is_for_link(options) && p.again matches Some(Ok(_))),
        r is RefreshMounts ==> (p.mounts matches Some(Ok(mounts)) && mounts@.len() > 0),
        r is SearchAgain ==> (p.refreshed matches Some(results) && exists|i: int|
            0 <= i < results@.len() && (#[trigger] results@[i]) is Ok),
        r is Fail ==> {
            ||| p.store matches Some(Err(_))
            ||| p.first matches Some(Err(_))
            ||| p.mounts matches Some(Err(_))
            ||| (p.refreshed matches Some(results) && forall|i: int|
                0 <= i < results@.len() ==> (#[trigger] results@[i]) is Err)
            ||| p.again matches Some(Err(_))
            ||| p.prefetched matches Some(Err(_))
        },
        p.store matches Some(Err(_)) ==> r is Fail,
        p.store is Some && p.store->0 is Ok && p.first is Some && p.first->0 is Err ==> r is Fail,
        (p.store matches Some(Ok(_)) && p.first matches Some(Ok(first)) && first.results@.len()
            == 0 && is_for_link(options) && p.mounts is None) ==> r is ListMounts,
{
}

/// Only mounts of Notion are asked again for a link, and all of them.
pub proof fn law_links_are_sought_in_every_notion_mount(mounts: Seq<MountConfig>, m: MountConfig)
    ensures
        search::notion_mounts(mounts).contains(m) <==> mounts.contains(m) && m.connector@
            == "notion"@,
{
    broadcast use vstd::seq_lib::group_filter_ensures;

    let of_notion = |m: MountConfig| m.connector@ == "notion"@;
    let kept = mounts.filter(of_notion);
    if kept.contains(m) {
        let k = choose|k: int| 0 <= k < kept.len() && kept[k] == m;
        assert(of_notion(kept[k]));
        mounts.lemma_filter_contains_rev(of_notion, m);
    }
    if mounts.contains(m) && m.connector@ == "notion"@ {
        let k = choose|k: int| 0 <= k < mounts.len() && mounts[k] == m;
        assert(of_notion(mounts[k]));
        mounts.lemma_filter_contains(of_notion, k);
    }
}

/// A mount is asked without the daemon exactly where the daemon is switched off, or cannot be had
/// and no virtual filesystem shows the mount; a daemon that answered has done it, and one that
/// failed or was too slow is a failure.
pub proof fn law_mounts_are_asked_without_the_daemon_where_they_may(
    reply: DaemonReport<PullReport>,
    mount: MountConfig,
    timeout_ms: u64,
    r: RefreshStep,
)
    requires
        search::follows_refresh(reply, mount, timeout_ms, r),
    ensures
        r is Done <==> reply is Report,
        r is FetchDirectly <==> (reply matches DaemonReport::Unavailable(reason) && (reason
            is Disabled || (reason is NotAvailable && mount.projection is PlainFiles))),
        reply matches DaemonReport::Error(e) ==> (r matches RefreshStep::Failed(error)
            && error.code@ == e.code@ && error.message@ == e.message@ && error.command@
            == "search"@ && !error.ok),
        r is Failed && reply is Unavailable ==> !r->Failed_0.ok && text::opt_text(
            r->Failed_0.suggested_command,
        ) == Some("loc daemon restart"@),
{
}

/// What is told of mounts that could all not be asked is the last of their failures.
pub proof fn law_the_last_failure_is_told(results: Seq<Result<(), CommandError>>, i: int)
    requires
        0 <= i < results.len(),
        results[i] is Err,
        forall|j: int| i < j < results.len() ==> (#[trigger] results[j]) is Ok,
    ensures
        search::last_failure(results) == Some(results[i]->Err_0.message@),
    decreases results.len(),
{
    if i < results.len() - 1 {
        assert(results.last() == results[results.len() - 1]);
        let front = results.drop_last();
        assert(forall|j: int| 0 <= j < front.len() ==> #[trigger] front[j] == results[j]);
        law_the_last_failure_is_told(front, i);
    }
}

} // verus!
