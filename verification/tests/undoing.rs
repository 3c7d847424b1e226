use loc_cli::diff::{EntityKind, PlanSummary, PushPlan};
use loc_cli::history::{
    resolve_path_filter, run_log, run_undo, undo_report_exit_code, HistoryError,
    JournalApplyEffect, JournalEntry, JournalPreimage, JournalStatus, LogOptions, MatchedPath,
    PathFilter, UndoOperation, UndoPlan, UndoPlanStatus,
};
use loc_cli::model::{
    EntityRecord, HydrationState, LocalityError, LocalityErrorKind, MountConfig, ProjectionMode,
    ShadowDocument, StoreError, StoreErrorKind,
};
use loc_cli::paths::PathStyle;
use loc_cli::reconcile::{
    applied_undo_report, apply_undo_projection_refresh, begin_undo, containers_found, due_refresh,
    finish_undo, refused_undo_report, signal_macos_projection_identifiers_with, DueRefresh,
    ReconcileStep, Reconciliation, UndoProjectionRefresh,
};
use loc_cli::undo_flow::{
    after_marking, after_source, after_steps, begin_source_undo, SourceUndo, UndoStep, Undoing,
};
use loc_cli::undo::{
    absence_of_shadow, undo_touched_entity_ids, AbsentShadow, FileState, IndexedEntity,
    ProjectionFile, UndoContext, UndoStore,
};

fn strings(values: &[&str]) -> Vec<String> {
    values.iter().map(|value| value.to_string()).collect()
}

fn some(value: &str) -> Option<String> {
    Some(value.to_string())
}

fn shadow(body: &str) -> ShadowDocument {
    ShadowDocument {
        entity_id: "page-1".to_string(),
        frontmatter: String::new(),
        rendered_body: body.to_string(),
        body_hash: format!("hash:{body}"),
    }
}

fn entry(status: JournalStatus) -> JournalEntry {
    JournalEntry {
        push_id: "push-1".to_string(),
        mount_id: "m".to_string(),
        remote_ids: strings(&["page-1"]),
        plan: PushPlan {
            summary: PlanSummary {
                blocks_created: 0,
                blocks_updated: 1,
                blocks_replaced: 0,
                blocks_moved: 0,
                media_updated: 0,
                blocks_archived: 0,
                entities_created: 0,
                entities_archived: 0,
                entity_bodies_updated: 0,
                entities_moved: 0,
                properties_updated: 0,
            },
            affected_entities: strings(&["page-1"]),
            operations: Vec::new(),
            degradations: Vec::new(),
        },
        status,
        preimages: vec![JournalPreimage {
            entity_id: "page-1".to_string(),
            shadow: shadow("before"),
            parent_id: None,
            kind: None,
        }],
        apply_effects: Vec::new(),
        author: "anonymous".to_string(),
        previous_push_id: None,
        created_at_unix_ms: None,
        readable_diff: None,
    }
}

fn plan(status: UndoPlanStatus) -> UndoPlan {
    UndoPlan {
        target_push_id: "push-1".to_string(),
        mount_id: "m".to_string(),
        affected_entities: strings(&["page-1"]),
        status,
        operations: vec![UndoOperation::RestoreBlockContent {
            block_id: "b1".to_string(),
            content: "before".to_string(),
        }],
        unsupported: Vec::new(),
    }
}

fn context(projection: ProjectionMode) -> UndoContext {
    let virtual_files = projection != ProjectionMode::PlainFiles;
    UndoContext {
        mount: Some(MountConfig::new("m", "notion", "/n").projection(projection)),
        content_root: if virtual_files { some("/s/m") } else { None },
        store: UndoStore {
            entities: vec![IndexedEntity {
                record: EntityRecord {
                    mount_id: "m".to_string(),
                    remote_id: "page-1".to_string(),
                    kind: EntityKind::Page,
                    title: "Plan".to_string(),
                    path: "Plan/page.md".to_string(),
                    hydration: HydrationState::Hydrated,
                    content_hash: some("hash:after"),
                    remote_edited_at: some("2026-01-01"),
                    synced_remote_version: None,
                },
                container: "Plan".to_string(),
            }],
            shadows: vec![shadow("after")],
            absent_shadows: Vec::new(),
            mutations: Vec::new(),
        },
        files: vec![
            ProjectionFile {
                path: "/n/Plan/page.md".to_string(),
                state: FileState::Clean,
            },
            ProjectionFile {
                path: "/s/m/Plan/page.md".to_string(),
                state: FileState::Clean,
            },
        ],
        existing: Vec::new(),
    }
}

fn undone(projection: ProjectionMode) -> Reconciliation {
    finish_undo(
        PathStyle::Unix,
        &context(projection),
        &entry(JournalStatus::Applied),
        &plan(UndoPlanStatus::Complete),
        &strings(&["page-1"]),
        &Vec::new(),
    )
    .expect("reconciled")
}

#[test]
fn only_the_latest_push_of_an_entity_is_undone() {
    let start = |latest: Vec<Option<String>>| {
        begin_undo(
            PathStyle::Unix,
            &context(ProjectionMode::PlainFiles),
            &entry(JournalStatus::Applied),
            &plan(UndoPlanStatus::Complete),
            &latest,
        )
    };
    assert_eq!(
        undo_touched_entity_ids(
            &entry(JournalStatus::Applied),
            &plan(UndoPlanStatus::Complete)
        ),
        strings(&["page-1"])
    );
    assert_eq!(start(vec![some("push-1")]), Ok(true));
    assert_eq!(
        start(vec![some("push-2")]),
        Err(HistoryError::UndoNotLatest {
            push_id: "push-1".to_string(),
            entity_id: "page-1".to_string(),
            latest_push_id: some("push-2")
        })
    );
    assert_eq!(
        begin_undo(
            PathStyle::Unix,
            &context(ProjectionMode::PlainFiles),
            &entry(JournalStatus::Applied),
            &plan(UndoPlanStatus::Partial),
            &Vec::new()
        ),
        Ok(false)
    );
}

#[test]
fn local_changes_stand_in_the_way_of_an_undo() {
    let start = |context: UndoContext| {
        begin_undo(
            PathStyle::Unix,
            &context,
            &entry(JournalStatus::Applied),
            &plan(UndoPlanStatus::Complete),
            &vec![some("push-1")],
        )
    };
    let why = |result: Result<bool, HistoryError>| match result {
        Err(HistoryError::UnsafeUndoLocalState { entity_id, reason }) => {
            assert_eq!(entity_id, "page-1");
            reason
        }
        other => panic!("local state is unsafe, not {other:?}"),
    };
    let mut dirty = context(ProjectionMode::PlainFiles);
    dirty.store.entities[0].record.hydration = HydrationState::Dirty;
    assert_eq!(
        why(start(dirty)),
        "entity is dirty, conflicted, or not fully hydrated"
    );
    let mut stale = context(ProjectionMode::PlainFiles);
    stale.store.entities[0].record.content_hash = some("other");
    assert_eq!(
        why(start(stale)),
        "entity content hash does not match its synced shadow"
    );
    let mut lost = context(ProjectionMode::PlainFiles);
    lost.store.shadows = Vec::new();
    assert_eq!(why(start(lost)), "entity shadow is unavailable");
    let mut unknown = context(ProjectionMode::PlainFiles);
    unknown.store.entities = Vec::new();
    assert_eq!(why(start(unknown)), "entity is not indexed locally");
    let mut edited = context(ProjectionMode::PlainFiles);
    edited.files[0].state = FileState::Diverged;
    assert!(!why(start(edited)).is_empty());
    let mut nowhere = context(ProjectionMode::PlainFiles);
    nowhere.mount = None;
    assert_eq!(
        start(nowhere),
        Err(HistoryError::MountNotFound("m".to_string()))
    );
}

#[test]
fn an_undo_writes_the_preimage_back() {
    let done = undone(ProjectionMode::PlainFiles);
    assert_eq!(done.failure, None);
    assert_eq!(done.steps.len(), 3);
    match &done.steps[0] {
        ReconcileStep::WriteDocument {
            path,
            frontmatter,
            body,
        } => {
            assert_eq!(path, "/n/Plan/page.md");
            assert_eq!(body, "before");
            assert_eq!(
                frontmatter,
                "loc:\n  id: page-1\n  type: page\n  remote_edited_at: 2026-01-01\ntitle: Plan\n"
            );
        }
        other => panic!("the document is written, not {other:?}"),
    }
    assert!(
        matches!(&done.steps[1], ReconcileStep::SaveShadow { shadow } if shadow.rendered_body == "before")
    );
    assert!(matches!(
        &done.steps[2],
        ReconcileStep::SaveEntity { record } if record.content_hash == some("hash:before")
    ));
}

fn refreshes(done: Reconciliation) -> Vec<UndoProjectionRefresh> {
    let mut found = Vec::new();
    for step in done.steps {
        if let ReconcileStep::Refresh { refresh } = step {
            found.push(refresh);
        }
    }
    found
}

#[test]
fn refreshes_fit_the_projection() {
    assert!(refreshes(undone(ProjectionMode::PlainFiles)).is_empty());
    assert!(refreshes(undone(ProjectionMode::LinuxFuse)).is_empty());
    let macos = refreshes(undone(ProjectionMode::MacosFileProvider));
    assert!(matches!(
        macos.as_slice(),
        [UndoProjectionRefresh::MacosContainers { with_current: true, .. }]
    ));
    for refresh in macos {
        let due = due_refresh(
            refresh,
            vec!["children:old".to_string()],
            Ok(vec!["children:new".to_string()]),
        )
        .expect("due");
        assert_eq!(
            due,
            DueRefresh::Containers(vec!["children:old".to_string(), "children:new".to_string()])
        );
    }
    let windows = refreshes(undone(ProjectionMode::WindowsCloudFiles));
    match windows.as_slice() {
        [refresh] => {
            assert!(matches!(
                refresh,
                UndoProjectionRefresh::WindowsCloudFilesEntity { previous_path, .. }
                    if previous_path == "Plan/page.md"
            ));
            apply_undo_projection_refresh(refresh, Ok(0)).expect("caught up");
            assert!(matches!(
                apply_undo_projection_refresh(refresh, Ok(1)),
                Err(HistoryError::UnsafeUndoLocalState { .. })
            ));
            assert!(matches!(
                apply_undo_projection_refresh(refresh, Err("disk".to_string())),
                Err(HistoryError::Store(_))
            ));
        }
        other => panic!("one replica catches up, not {other:?}"),
    }
}

#[test]
fn a_missing_shadow_is_told_in_the_words_of_the_store() {
    let absent = vec![AbsentShadow {
        entity_id: "page-2".to_string(),
        message: "no shadow row for page-2".to_string(),
    }];
    assert_eq!(absence_of_shadow(&absent, "page-2"), "no shadow row for page-2");
    assert_eq!(absence_of_shadow(&absent, "page-1"), "shadow for entity `page-1` is missing");
}

fn containers(with_current: bool) -> UndoProjectionRefresh {
    UndoProjectionRefresh::MacosContainers { entity_id: "page-1".to_string(), with_current }
}

#[test]
fn containers_are_looked_up_before_the_journal_is_marked() {
    let unread = due_refresh(containers(true), Vec::new(), Err("locked".to_string()));
    let error = unread.expect_err("the containers are not known");
    assert_eq!(error.kind, StoreErrorKind::Io);
    assert_eq!(error.message, "locked");
    assert_eq!(
        due_refresh(containers(false), vec!["root".to_string()], Err("locked".to_string())),
        Ok(DueRefresh::Containers(vec!["root".to_string()]))
    );
    assert_eq!(containers_found(Ok(vec!["root".to_string()])), Ok(vec!["root".to_string()]));
    let lost = containers_found(Err("disk".to_string())).expect_err("not read");
    assert_eq!(lost.kind, StoreErrorKind::Io);
}

#[test]
fn a_container_that_stays_behind_is_named() {
    let mount = MountConfig::new("m", "notion", "/m").projection(ProjectionMode::MacosFileProvider);
    let error = signal_macos_projection_identifiers_with(
        &mount,
        vec!["children:b".to_string(), "children:a".to_string()],
        |_, id| if id == "children:b" { Err("gone".to_string()) } else { Ok(()) },
    )
    .expect_err("one stays behind");
    assert_eq!(
        error,
        HistoryError::UndoProjectionRefreshFailed {
            mount_id: "m".to_string(),
            identifier: "children:b".to_string(),
            reason: "gone".to_string(),
        }
    );
}

#[test]
fn an_undo_has_to_name_all_that_it_changed() {
    assert_eq!(
        finish_undo(
            PathStyle::Unix,
            &context(ProjectionMode::PlainFiles),
            &entry(JournalStatus::Applied),
            &plan(UndoPlanStatus::Complete),
            &Vec::new(),
            &Vec::new(),
        ),
        Err(HistoryError::IncompleteUndoApplyResult {
            missing: strings(&["page-1"])
        })
    );
}

#[test]
fn undo_reports_follow_the_journal() {
    for (status, action, ok, marks) in [
        (JournalStatus::Prepared, "reverted_local_journal", true, true),
        (JournalStatus::Reverted, "already_reverted", true, false),
        (
            JournalStatus::Failed("x".to_string()),
            "reverted_empty_failed_journal",
            true,
            true,
        ),
        (
            JournalStatus::Applying,
            "undo_unsafe_journal_status",
            false,
            false,
        ),
        (JournalStatus::Applied, "undo_plan_partial", false, false),
    ] {
        let outcome = run_undo(
            "push-1".to_string(),
            Some(entry(status)),
            plan(UndoPlanStatus::Partial),
        )
        .expect("undo");
        assert_eq!(outcome.report.action, action);
        assert_eq!(outcome.report.ok, ok);
        assert_eq!(outcome.mark_reverted, marks);
    }
    let mut touched = entry(JournalStatus::Failed("x".to_string()));
    touched.apply_effects = vec![JournalApplyEffect::UpdatedBlock {
        block_id: "b1".to_string(),
    }];
    let outcome = run_undo(
        "push-1".to_string(),
        Some(touched),
        plan(UndoPlanStatus::Complete),
    )
    .expect("undo");
    assert!(!outcome.mark_reverted);
    assert_eq!(
        run_undo("push-1".to_string(), None, plan(UndoPlanStatus::Complete)),
        Err(HistoryError::JournalNotFound("push-1".to_string()))
    );
    let applied = applied_undo_report(
        entry(JournalStatus::Applied),
        plan(UndoPlanStatus::Complete),
        strings(&["page-1"]),
    );
    assert_eq!(applied.action, "reverse_applied");
    assert_eq!(undo_report_exit_code(&applied), 0);
    for (kind, action, exit_code) in [
        (
            LocalityErrorKind::NotImplemented,
            "reverse_apply_not_implemented",
            5,
        ),
        (
            LocalityErrorKind::RemoteNotFound,
            "reverse_apply_remote_not_found",
            5,
        ),
        (LocalityErrorKind::Io, "reverse_apply_failed", 1),
    ] {
        let refused = refused_undo_report(
            entry(JournalStatus::Applied),
            plan(UndoPlanStatus::Complete),
            LocalityError {
                kind,
                message: "why".to_string(),
            },
        );
        assert_eq!(refused.action, action);
        assert_eq!(undo_report_exit_code(&refused), exit_code);
    }
}

#[test]
fn the_log_is_filtered_and_ordered() {
    let mut other = entry(JournalStatus::Applied);
    other.push_id = "push-0".to_string();
    other.remote_ids = strings(&["page-9"]);
    other.plan.affected_entities = strings(&["page-9"]);
    other.preimages = Vec::new();
    let all = run_log(
        vec![entry(JournalStatus::Applied), other],
        None,
        LogOptions {
            push_id: None,
            include_diff: false,
        },
    );
    assert_eq!(all.entries.len(), 2);
    let mut other = entry(JournalStatus::Applied);
    other.mount_id = "elsewhere".to_string();
    let one = run_log(
        vec![entry(JournalStatus::Applied), other],
        Some(PathFilter {
            mount_id: "m".to_string(),
            remote_id: "page-1".to_string(),
        }),
        LogOptions {
            push_id: None,
            include_diff: false,
        },
    );
    assert_eq!(one.entries.len(), 1);
    assert_eq!(one.entries[0].preimage_count, 1);
    let found = resolve_path_filter(
        &"/n/Plan/page.md".to_string(),
        Some(MatchedPath {
            mount_id: "m".to_string(),
            relative_path: "Plan/page.md".to_string(),
        }),
        false,
        some("page-1"),
        None,
        "missing".to_string(),
    )
    .expect("filter");
    assert_eq!(found.remote_id, "page-1");
    assert!(resolve_path_filter(
        &"/x".to_string(),
        None,
        false,
        None,
        None,
        "missing".to_string()
    )
    .is_err());
}

fn undoing() -> Undoing {
    Undoing {
        entry: entry(JournalStatus::Reconciled),
        plan: plan(UndoPlanStatus::Complete),
    }
}

fn store_error() -> StoreError {
    StoreError {
        kind: StoreErrorKind::Io,
        message: "disk".to_string(),
    }
}

#[test]
fn an_undo_goes_from_the_source_to_the_journal() {
    let ground = context(ProjectionMode::PlainFiles);
    let step = begin_source_undo(PathStyle::Unix, &ground, undoing(), &vec![some("push-1")]);
    let UndoStep::Apply(asked) = step else {
        panic!("the source is to be asked: {step:?}");
    };
    let applied = SourceUndo {
        changed_remote_ids: strings(&["page-1"]),
        observations: Vec::new(),
    };
    let step = after_source(PathStyle::Unix, &ground, asked, Ok(applied));
    let UndoStep::Reconcile(next) = step else {
        panic!("there is something to reconcile: {step:?}");
    };
    assert!(!next.steps.is_empty());
    assert_eq!(next.failure, None);
    let step = after_steps(next.undone, next.failure, Ok(()));
    let UndoStep::MarkReverted(undone) = step else {
        panic!("the journal is to be told: {step:?}");
    };
    let step = after_marking(undone, Ok(()), vec![Ok(())]);
    let UndoStep::Finish(outcome) = step else {
        panic!("the undo is done: {step:?}");
    };
    assert!(outcome.report.ok);
    assert!(!outcome.mark_reverted);
    assert_eq!(outcome.report.action, "reverse_applied");
    assert_eq!(outcome.report.status, "reverted");
    assert_eq!(outcome.report.changed_remote_ids, strings(&["page-1"]));
}

#[test]
fn an_undo_stops_where_it_fails() {
    let ground = context(ProjectionMode::PlainFiles);
    assert!(matches!(
        begin_source_undo(PathStyle::Unix, &ground, undoing(), &vec![some("push-2")]),
        UndoStep::Fail(HistoryError::UndoNotLatest { .. })
    ));
    let refused = LocalityError {
        kind: LocalityErrorKind::RemoteNotFound,
        message: "gone".to_string(),
    };
    assert!(matches!(
        after_source(PathStyle::Unix, &ground, undoing(), Err(refused)),
        UndoStep::Finish(outcome) if !outcome.report.ok
            && outcome.report.action == "reverse_apply_remote_not_found"
            && outcome.report.message == "gone"
    ));
    let nothing = SourceUndo {
        changed_remote_ids: Vec::new(),
        observations: Vec::new(),
    };
    assert!(matches!(
        after_source(PathStyle::Unix, &ground, undoing(), Ok(nothing)),
        UndoStep::Fail(HistoryError::IncompleteUndoApplyResult { .. })
    ));
    let applied = || SourceUndo {
        changed_remote_ids: strings(&["page-1"]),
        observations: Vec::new(),
    };
    let reconciling = || match after_source(PathStyle::Unix, &ground, undoing(), Ok(applied())) {
        UndoStep::Reconcile(next) => next,
        other => panic!("there is something to reconcile: {other:?}"),
    };
    assert_eq!(
        after_steps(reconciling().undone, None, Err(store_error())),
        UndoStep::Fail(HistoryError::Store(store_error()))
    );
    let lost = || HistoryError::MountNotFound("m".to_string());
    assert_eq!(
        after_steps(reconciling().undone, Some(lost()), Ok(())),
        UndoStep::Fail(lost())
    );
    assert_eq!(
        after_marking(reconciling().undone, Err(store_error()), Vec::new()),
        UndoStep::Fail(HistoryError::Store(store_error()))
    );
    assert_eq!(
        after_marking(reconciling().undone, Ok(()), vec![Ok(()), Err(lost())]),
        UndoStep::Fail(lost())
    );
}

#[test]
fn a_push_that_was_never_applied_is_undone_in_the_journal() {
    let ground = context(ProjectionMode::PlainFiles);
    let prepared = Undoing {
        entry: entry(JournalStatus::Prepared),
        plan: plan(UndoPlanStatus::Complete),
    };
    assert!(matches!(
        begin_source_undo(PathStyle::Unix, &ground, prepared, &Vec::new()),
        UndoStep::Finish(outcome) if outcome.mark_reverted && outcome.report.ok
    ));
    let partial = Undoing {
        entry: entry(JournalStatus::Applied),
        plan: plan(UndoPlanStatus::Partial),
    };
    assert!(matches!(
        begin_source_undo(PathStyle::Unix, &ground, partial, &Vec::new()),
        UndoStep::Finish(outcome) if !outcome.mark_reverted && !outcome.report.ok
    ));
}
