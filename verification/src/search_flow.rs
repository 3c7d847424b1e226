//! The order of a search: it looks at what is known here, asks the source where
//! a link had no result, and has listed what lies above the pages it found.
use vstd::prelude::*;

use crate::failures;
use crate::failures::{SearchErrorKind, Told, search_failure, store_open_failure};
use crate::model;
use crate::model::{CommandError, Failure, MountConfig, StoreError};
use crate::requests::SearchOptions;
use crate::search;
use crate::search::{
    SearchReport, metadata_refreshed, results_to_prefetch, should_refresh_notion_url_search,
};

verus! {

/// Why a search had no report.
#[derive(Debug, PartialEq, Eq)]
pub struct SearchFault {
    pub kind: SearchErrorKind,
    pub told: Told,
}

/// What is known so far of a search.
#[derive(Debug, PartialEq, Eq)]
pub struct SearchProgress {
    /// That the store opened, or why it did not.
    pub store: Option<Result<(), String>>,
    /// What was found at first.
    pub first: Option<Result<SearchReport, SearchFault>>,
    /// The mounts that can be asked anew.
    pub mounts: Option<Result<Vec<MountConfig>, StoreError>>,
    /// What became of asking each of them.
    pub refreshed: Option<Vec<Result<(), CommandError>>>,
    /// What was found after that.
    pub again: Option<Result<SearchReport, CommandError>>,
    /// That what lies above the pages was listed.
    pub prefetched: Option<Result<(), CommandError>>,
}

/// Which of the two searches of a command is meant.
#[derive(Clone, Copy, Debug, PartialEq, Eq, Structural)]
pub enum WhichSearch {
    First,
    Again,
}

/// What is done next of a search.
#[derive(Debug, PartialEq, Eq)]
pub enum SearchAction {
    OpenStore,
    Search,
    ListMounts,
    RefreshMounts,
    SearchAgain,
    /// Have listed what lies above these results.
    Prefetch(WhichSearch, Vec<usize>),
    Show(WhichSearch),
    Fail(Failure),
}

/// What follows once a report stands: what lies above the pages that a link
/// names is listed before they are shown.
pub open spec fn follows_report(
    options: SearchOptions,
    report: SearchReport,
    which: WhichSearch,
    p: SearchProgress,
    r: SearchAction,
) -> bool {
    let wanted = search::searched_pages(options, report.results@);
    if wanted.len() == 0 {
        r == SearchAction::Show(which)
    } else {
        match p.prefetched {
            None => r matches SearchAction::Prefetch(of, results) && of == which
                && results@.map_values(|i: usize| i as int) == wanted,
            Some(Err(e)) => r matches SearchAction::Fail(f) && f.error == e && f.exit_code == 1,
            Some(Ok(_)) => r == SearchAction::Show(which),
        }
    }
}

/// Whether a link was looked for that may be known to the source alone.
pub open spec fn misses_link(options: SearchOptions, report: SearchReport) -> bool {
    &&& report.results@.len() == 0
    &&& search::notion_id(options.query@) is Some
    &&& search::allows_notion(options.connector)
}

/// What follows where a link had no result: the mounts that there are are asked
/// anew, and one of them has to answer.
pub open spec fn follows_miss(
    options: SearchOptions,
    first: SearchReport,
    p: SearchProgress,
    r: SearchAction,
) -> bool {
    match p.mounts {
        None => r is ListMounts,
        Some(Err(e)) => r matches SearchAction::Fail(f) && model::is_failure(
            f,
            "search"@,
            "store_error"@,
            e.message@,
            1,
        ),
        Some(Ok(mounts)) => if mounts@.len() == 0 {
            follows_report(options, first, WhichSearch::First, p, r)
        } else {
            match p.refreshed {
                None => r is RefreshMounts,
                Some(results) => if !search::some_refreshed(results@) {
                    r matches SearchAction::Fail(f) && model::is_failure(
                        f,
                        "search"@,
                        "metadata_refresh_failed"@,
                        "could not refresh Notion metadata before URL search: "@ + (
                        match search::last_failure(results@) {
                            Some(why) => why,
                            None => "no Notion mounts could be refreshed"@,
                        }),
                        1,
                    )
                } else {
                    match p.again {
                        None => r is SearchAgain,
                        Some(Err(e)) => r matches SearchAction::Fail(f) && f.error == e
                            && f.exit_code == 1,
                        Some(Ok(report)) => follows_report(
                            options,
                            report,
                            WhichSearch::Again,
                            p,
                            r,
                        ),
                    }
                },
            }
        },
    }
}

/// What follows on what is known of a search.
pub open spec fn follows_search(
    options: SearchOptions,
    p: SearchProgress,
    r: SearchAction,
) -> bool {
    match (p.store, p.first) {
        (None, _) => r is OpenStore,
        (Some(Err(why)), _) => r matches SearchAction::Fail(f) && model::is_failure(
            f,
            "search"@,
            "store_open_failed"@,
            why@,
            1,
        ),
        (Some(Ok(_)), None) => r is Search,
        (Some(Ok(_)), Some(Err(fault))) => r matches SearchAction::Fail(f) && failures::tells(
            f,
            "search"@,
            fault.told,
            failures::search_exit_code(fault.kind),
        ),
        (Some(Ok(_)), Some(Ok(first))) => if misses_link(options, first) {
            follows_miss(options, first, p, r)
        } else {
            follows_report(options, first, WhichSearch::First, p, r)
        },
    }
}

fn internal(error: &CommandError) -> (r: Failure)
    ensures
        r.error == *error,
        r.exit_code == 1,
{
    let suggested_command = match &error.suggested_command {
        Some(command) => Some(command.clone()),
        None => None,
    };
    Failure {
        error: CommandError {
            ok: error.ok,
            command: error.command,
            code: error.code.clone(),
            message: error.message.clone(),
            suggested_command,
        },
        exit_code: 1,
    }
}

fn after_report(
    options: &SearchOptions,
    report: &SearchReport,
    which: WhichSearch,
    p: &SearchProgress,
) -> (r: SearchAction)
    ensures
        follows_report(*options, *report, which, *p, r),
{
    let wanted = results_to_prefetch(options, report);
    let ghost pages = search::searched_pages(*options, report.results@);
    assert(wanted@.len() == pages.len()) by {
        assert(wanted@.map_values(|i: usize| i as int).len() == wanted@.len());
    }
    if wanted.len() == 0 {
        return SearchAction::Show(which);
    }
    match &p.prefetched {
        None => SearchAction::Prefetch(which, wanted),
        Some(Err(e)) => SearchAction::Fail(internal(e)),
        Some(Ok(_)) => SearchAction::Show(which),
    }
}

fn after_miss(options: &SearchOptions, first: &SearchReport, p: &SearchProgress) -> (r:
    SearchAction)
    ensures
        follows_miss(*options, *first, *p, r),
{
    let mounts = match &p.mounts {
        None => {
            return SearchAction::ListMounts;
        },
        Some(Err(e)) => {
            return SearchAction::Fail(
                Failure::new("search", "store_error", e.message.clone(), 1),
            );
        },
        Some(Ok(mounts)) => mounts,
    };
    if mounts.len() == 0 {
        return after_report(options, first, WhichSearch::First, p);
    }
    let results = match &p.refreshed {
        None => {
            return SearchAction::RefreshMounts;
        },
        Some(results) => results,
    };
    if let Err(e) = metadata_refreshed(results) {
        return SearchAction::Fail(Failure { error: e, exit_code: 1 });
    }
    match &p.again {
        None => SearchAction::SearchAgain,
        Some(Err(e)) => SearchAction::Fail(internal(e)),
        Some(Ok(report)) => after_report(options, report, WhichSearch::Again, p),
    }
}

/// What is done next of a search.
pub fn search(options: &SearchOptions, progress: &SearchProgress) -> (r: SearchAction)
    ensures
        follows_search(*options, *progress, r),
{
    match &progress.store {
        None => {
            return SearchAction::OpenStore;
        },
        Some(Err(why)) => {
            return SearchAction::Fail(store_open_failure("search", why));
        },
        Some(Ok(_)) => {},
    }
    let first = match &progress.first {
        None => {
            return SearchAction::Search;
        },
        Some(Err(fault)) => {
            return SearchAction::Fail(search_failure(fault.kind, &fault.told));
        },
        Some(Ok(first)) => first,
    };
    if should_refresh_notion_url_search(options, first) {
        after_miss(options, first, progress)
    } else {
        after_report(options, first, WhichSearch::First, progress)
    }
}

/// A search that is no link, or that finds something here, asks no source.
pub proof fn law_source_is_asked_for_lost_links_alone(
    options: SearchOptions,
    p: SearchProgress,
    r: SearchAction,
)
    requires
        follows_search(options, p, r),
        r is ListMounts || r is RefreshMounts || r is SearchAgain || r == SearchAction::Show(
            WhichSearch::Again,
        ),
    ensures
        p.first matches Some(Ok(first)) && misses_link(options, first),
{
}

/// Every action asks for what is not known yet, so a search goes forward to its
/// end.
pub proof fn law_search_goes_forward(options: SearchOptions, p: SearchProgress, r: SearchAction)
    requires
        follows_search(options, p, r),
    ensures
        r is OpenStore ==> p.store is None,
        r is Search ==> p.first is None,
        r is ListMounts ==> p.mounts is None,
        r is RefreshMounts ==> p.refreshed is None,
        r is SearchAgain ==> p.again is None,
        r is Prefetch ==> p.prefetched is None,
{
}

} // verus!
