use loc_cli::diff::{
    PlanSummary, PushOperation, PushPlan, ReadableDiffFileOutput, ReadableDiffOutput,
};
use loc_cli::history::{
    run_log, run_undo, HistoryError, JournalEntry, JournalStatus, LogOptions, UndoPlan,
    UndoPlanStatus,
};
use loc_cli::model::{MountConfig, ProjectionMode};
use loc_cli::reconcile::{
    finalize_undo_after_reconcile, first_refresh_failure, signal_macos_projection_identifiers_with,
    windows_undo_projection_refresh_enabled, DueRefresh, FinalStep,
};

#[test]
fn macos_undo_projection_refresh_failure_is_not_silenced() {
    let mount = MountConfig::new("notion-main", "notion", "/tmp/Locality/notion-main")
        .projection(ProjectionMode::MacosFileProvider);

    let error = signal_macos_projection_identifiers_with(
        &mount,
        vec!["children:page-1".to_string()],
        |_, _| Err("injected provider failure".to_string()),
    )
    .expect_err("missing platform helper must fail the correctness path");

    assert_eq!(error.code(), "undo_projection_refresh_failed");
    assert!(error.message().contains("children:page-1"));
}

#[test]
fn provider_refresh_failure_happens_after_journal_finalization() {
    let mount = MountConfig::new("notion-main", "notion", "/tmp/Locality/notion-main")
        .projection(ProjectionMode::MacosFileProvider);
    let steps = finalize_undo_after_reconcile(vec![DueRefresh::Containers(vec![
        "children:page-1".to_string(),
    ])]);

    let mut status = JournalStatus::Reconciled;
    let mut results: Vec<Result<(), HistoryError>> = Vec::new();
    for step in steps {
        match step {
            FinalStep::MarkReverted => status = JournalStatus::Reverted,
            FinalStep::Refresh(DueRefresh::Containers(identifiers)) => {
                assert_eq!(status, JournalStatus::Reverted);
                results.push(signal_macos_projection_identifiers_with(
                    &mount,
                    identifiers,
                    |_, _| Err("injected".to_string()),
                ));
            }
            FinalStep::Refresh(other) => panic!("no provider shows files here: {other:?}"),
        }
    }
    let error = first_refresh_failure(results).expect_err("refresh failure must be reported");

    assert_eq!(error.code(), "undo_projection_refresh_failed");
    assert_eq!(status, JournalStatus::Reverted);
}

#[test]
fn macos_undo_never_directly_rewrites_visible_replica() {
    assert!(!windows_undo_projection_refresh_enabled(
        ProjectionMode::MacosFileProvider
    ));
    assert!(windows_undo_projection_refresh_enabled(
        ProjectionMode::WindowsCloudFiles
    ));
    assert!(!windows_undo_projection_refresh_enabled(
        ProjectionMode::LinuxFuse
    ));
}

fn two_pushes() -> Vec<JournalEntry> {
    let mut first = journal_entry("push-1");
    first.author = "anonymous".to_string();
    first.previous_push_id = Some("push-0".to_string());
    first.created_at_unix_ms = Some(1_783_612_800_000);
    first.readable_diff = Some(readable_diff(
        "Roadmap.md",
        "diff --locality a/Roadmap.md b/Roadmap.md\n",
    ));
    let mut second = journal_entry("push-2");
    second.readable_diff = Some(readable_diff("Roadmap.md", "ignored\n"));
    vec![first, second]
}

#[test]
fn log_report_can_include_readable_diff_for_single_push() {
    let report = run_log(
        two_pushes(),
        None,
        LogOptions {
            push_id: Some("push-1".to_string()),
            include_diff: true,
        },
    );

    assert_eq!(report.entries.len(), 1);
    assert_eq!(report.entries[0].push_id, "push-1");
    assert_eq!(report.entries[0].author, "anonymous");
    assert_eq!(
        report.entries[0].previous_push_id.as_deref(),
        Some("push-0")
    );
    assert_eq!(
        report.entries[0].created_at_unix_ms,
        Some(1_783_612_800_000)
    );
    assert_eq!(
        report.entries[0].readable_diff,
        Some(readable_diff(
            "Roadmap.md",
            "diff --locality a/Roadmap.md b/Roadmap.md\n"
        ))
    );

    let report = run_log(
        two_pushes(),
        None,
        LogOptions {
            push_id: Some("push-1".to_string()),
            include_diff: false,
        },
    );

    assert_eq!(report.entries.len(), 1);
    assert_eq!(report.entries[0].push_id, "push-1");
    assert_eq!(report.entries[0].readable_diff, None);
}

#[test]
fn undo_report_does_not_include_readable_diff() {
    let mut entry = journal_entry("push-1");
    entry.readable_diff = Some(readable_diff("Roadmap.md", "large diff\n"));
    entry.status = JournalStatus::Prepared;
    let plan = UndoPlan {
        target_push_id: "push-1".to_string(),
        mount_id: "notion-main".to_string(),
        affected_entities: vec!["page-1".to_string()],
        status: UndoPlanStatus::Complete,
        operations: Vec::new(),
        unsupported: Vec::new(),
    };

    let report = run_undo("push-1".to_string(), Some(entry), plan)
        .expect("undo report")
        .report;

    assert!(report.ok);
    assert_eq!(
        report.entry.expect("undo entry").readable_diff,
        None,
        "undo reports must not leak saved readable diffs"
    );
}

fn journal_entry(push_id: &str) -> JournalEntry {
    JournalEntry {
        push_id: push_id.to_string(),
        mount_id: "notion-main".to_string(),
        remote_ids: vec!["page-1".to_string()],
        plan: PushPlan {
            summary: PlanSummary {
                blocks_created: 0,
                blocks_updated: 1,
                blocks_replaced: 0,
                blocks_moved: 0,
                media_updated: 0,
                blocks_archived: 0,
                entities_created: 0,
                entities_archived: 0,
                entity_bodies_updated: 0,
                entities_moved: 0,
                properties_updated: 0,
            },
            affected_entities: vec!["page-1".to_string()],
            operations: vec![PushOperation::UpdateBlock {
                block_id: "page-1-paragraph-1".to_string(),
                content: "Updated paragraph.".to_string(),
            }],
            degradations: Vec::new(),
        },
        status: JournalStatus::Reconciled,
        preimages: Vec::new(),
        apply_effects: Vec::new(),
        author: "anonymous".to_string(),
        previous_push_id: None,
        created_at_unix_ms: None,
        readable_diff: None,
    }
}

fn readable_diff(path: &str, text: &str) -> ReadableDiffOutput {
    ReadableDiffOutput {
        files: vec![ReadableDiffFileOutput {
            path: path.to_string(),
            old_label: format!("a/{path}"),
            new_label: format!("b/{path}"),
            status: "modified".to_string(),
            patch: text.to_string(),
        }],
        text: text.to_string(),
    }
}
