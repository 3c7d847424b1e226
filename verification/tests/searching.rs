use loc_cli::failures::{SearchErrorKind, Told};
use loc_cli::model::{CommandError, MountConfig, StoreError, StoreErrorKind};
use loc_cli::requests::SearchOptions;
use loc_cli::search::{SearchRemote, SearchReport, SearchResult, SearchSafety};
use loc_cli::search_flow::{search, SearchAction, SearchFault, SearchProgress, WhichSearch};

const LINK: &str = "https://www.notion.so/Email-0123456789abcdef0123456789abcdef";
const PAGE: &str = "01234567-89ab-cdef-0123-456789abcdef";

fn report(ids: &[&str]) -> SearchReport {
    SearchReport {
        ok: true,
        command: "search",
        query: LINK.to_string(),
        connector: None,
        count: ids.len(),
        results: ids
            .iter()
            .map(|id| SearchResult {
                title: "Email".to_string(),
                kind: "page".to_string(),
                state: "stub".to_string(),
                path: "Email/page.md".to_string(),
                absolute_path: "/n/Email/page.md".to_string(),
                mount_id: "m".to_string(),
                connector: "notion".to_string(),
                remote_id: id.to_string(),
                safety: SearchSafety {
                    agent_readable: true,
                    labels: Vec::new(),
                },
                remote: SearchRemote {
                    changed: false,
                    deleted: false,
                },
            })
            .collect(),
    }
}

fn begun() -> SearchProgress {
    SearchProgress {
        store: Some(Ok(())),
        first: None,
        mounts: None,
        refreshed: None,
        again: None,
        prefetched: None,
    }
}

fn error(code: &str) -> CommandError {
    CommandError::new("search", code, "why".to_string())
}

fn code(action: SearchAction) -> (String, i32) {
    match action {
        SearchAction::Fail(failure) => (failure.error.code, failure.exit_code),
        other => panic!("should fail: {other:?}"),
    }
}

#[test]
fn a_search_opens_the_store_and_looks_there_first() {
    let options = SearchOptions::new("email");
    let mut progress = begun();
    progress.store = None;
    assert_eq!(search(&options, &progress), SearchAction::OpenStore);
    progress.store = Some(Err("locked".to_string()));
    assert_eq!(code(search(&options, &progress)), ("store_open_failed".to_string(), 1));
    progress.store = Some(Ok(()));
    assert_eq!(search(&options, &progress), SearchAction::Search);
    progress.first = Some(Ok(report(&[])));
    assert_eq!(
        search(&options, &progress),
        SearchAction::Show(WhichSearch::First)
    );
    let told = Told {
        code: "empty_query".to_string(),
        message: "why".to_string(),
    };
    progress.first = Some(Err(SearchFault {
        kind: SearchErrorKind::EmptyQuery,
        told,
    }));
    assert_eq!(code(search(&options, &progress)), ("empty_query".to_string(), 2));
}

#[test]
fn a_link_without_a_result_is_asked_for_at_the_source() {
    let options = SearchOptions::new(LINK);
    let mut progress = begun();
    progress.first = Some(Ok(report(&[])));
    assert_eq!(search(&options, &progress), SearchAction::ListMounts);
    progress.mounts = Some(Err(StoreError {
        kind: StoreErrorKind::Other,
        message: "why".to_string(),
    }));
    assert_eq!(code(search(&options, &progress)), ("store_error".to_string(), 1));
    progress.mounts = Some(Ok(Vec::new()));
    assert_eq!(
        search(&options, &progress),
        SearchAction::Show(WhichSearch::First)
    );
    progress.mounts = Some(Ok(vec![MountConfig::new("m", "notion", "/n")]));
    assert_eq!(search(&options, &progress), SearchAction::RefreshMounts);
    progress.refreshed = Some(vec![Err(error("c"))]);
    assert_eq!(
        code(search(&options, &progress)),
        ("metadata_refresh_failed".to_string(), 1)
    );
    progress.refreshed = Some(vec![Err(error("c")), Ok(())]);
    assert_eq!(search(&options, &progress), SearchAction::SearchAgain);
    progress.again = Some(Err(error("store_open_failed")));
    assert_eq!(
        code(search(&options, &progress)),
        ("store_open_failed".to_string(), 1)
    );
    progress.again = Some(Ok(report(&[])));
    assert_eq!(
        search(&options, &progress),
        SearchAction::Show(WhichSearch::Again)
    );
}

#[test]
fn what_lies_above_a_linked_page_is_listed() {
    let options = SearchOptions::new(LINK);
    let mut progress = begun();
    progress.first = Some(Ok(report(&["other", PAGE])));
    assert_eq!(
        search(&options, &progress),
        SearchAction::Prefetch(WhichSearch::First, vec![1])
    );
    progress.prefetched = Some(Err(error("daemon_required")));
    assert_eq!(
        code(search(&options, &progress)),
        ("daemon_required".to_string(), 1)
    );
    progress.prefetched = Some(Ok(()));
    assert_eq!(
        search(&options, &progress),
        SearchAction::Show(WhichSearch::First)
    );
}
