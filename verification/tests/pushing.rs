use loc_cli::daemon_report::{
    daemon_report, daemon_request_timeout, daemon_request_timeout_for, mounts_changed_warning,
    warn_daemon_fallback, DaemonAcknowledgement, DaemonClientError, DaemonCommandError,
    DaemonReport, DaemonRequestKind, DaemonResponse, DaemonResponseError, DaemonUnavailableReason,
};
use loc_cli::diff::{
    run_diff, run_preview, run_preview_artifacts, DiffError, EntityKind, GuardrailDecision,
    GuardrailOutput, PlanSummary, PreparedPush, PreviewOptions, PushApproval, PushOperation,
    PushPipelineAction, PushPipelineResult, PushPlan, PushPlanOutput, PushPrepareError, PushStage,
    ValidationIssue,
};
use loc_cli::failures::ConnectorResolveError;
use loc_cli::model::{
    CommandError, EntityRecord, HydrationState, LocalityError, LocalityErrorKind, MountConfig,
    ProjectionMode,
};
use loc_cli::pull::{changes_listing, pull_report_exit_code, PullConflict, PullReport};
use loc_cli::push::{
    after_direct_push, after_preview, after_submission, nothing_to_push,
    prompt_for_push_confirmation, push_answer, push_output, push_preview_plan_matches,
    push_reports_exit_code, verify_daemon_push_plan_matches_cli_preview, DirectPush,
    PushBatchReport, PushOutput, PushReport, PushStep, PushTargetSelection,
};
use loc_cli::requests::SearchOptions;
use loc_cli::search::{
    metadata_refreshed, mounts_to_refresh, notion_id_from_url, prefetch_virtual_search_container,
    prefetches_ancestors, refresh_search_mount_metadata, results_to_prefetch, RefreshStep,
    SearchRemote, SearchReport, SearchResult, SearchSafety,
};

fn strings(values: &[&str]) -> Vec<String> {
    values.iter().map(|value| value.to_string()).collect()
}

fn some(value: &str) -> Option<String> {
    Some(value.to_string())
}

fn summary() -> PlanSummary {
    PlanSummary {
        blocks_created: 0,
        blocks_updated: 1,
        blocks_replaced: 0,
        blocks_moved: 0,
        media_updated: 0,
        blocks_archived: 0,
        entities_created: 0,
        entities_archived: 0,
        entity_bodies_updated: 0,
        entities_moved: 0,
        properties_updated: 0,
    }
}

fn plan(content: &str) -> PushPlan {
    PushPlan {
        summary: summary(),
        affected_entities: strings(&["page-1"]),
        operations: vec![PushOperation::UpdateBlock {
            block_id: "b1".to_string(),
            content: content.to_string(),
        }],
        degradations: Vec::new(),
    }
}

fn report(action: &str, content: &str) -> PushReport {
    PushReport {
        ok: action == "reconciled",
        command: "push",
        via: "cli".to_string(),
        path: "Roadmap.md".to_string(),
        mount_id: "m".to_string(),
        entity_id: "page-1".to_string(),
        validation: Vec::new(),
        plan: Some(PushPlanOutput::from(plan(content))),
        guardrail: GuardrailOutput::proceed(),
        action: action.to_string(),
        pipeline_action: action.to_string(),
        push_id: None,
        journal_status: None,
        changed_remote_ids: Vec::new(),
        reconciled_remote_ids: Vec::new(),
        apply_effect_count: 0,
        completed_stages: Vec::new(),
        message: None,
        unsupported: Vec::new(),
        suggested_fix: None,
    }
}

fn refused(step: PushStep) -> (String, i32) {
    match step {
        PushStep::Finish(Err(failure)) => (failure.error.code, failure.exit_code),
        other => panic!("a failure is expected, not {other:?}"),
    }
}

#[test]
fn every_push_of_a_batch_has_to_succeed() {
    let good = || report("reconciled", "a");
    let bad = || report("confirm_plan", "a");
    assert_eq!(push_reports_exit_code(&Vec::new()), 0);
    assert_eq!(push_reports_exit_code(&vec![good(), good()]), 0);
    assert_eq!(push_reports_exit_code(&vec![good(), bad()]), 4);
    let scoped = PushTargetSelection {
        requested_path: "/n".to_string(),
        scoped: true,
        targets: strings(&["a", "b"]),
    };
    match push_output(&scoped, vec![good(), bad()]) {
        PushOutput::Batch(batch) => {
            assert!(!batch.ok);
            assert_eq!(batch.target_count, 2);
            assert_eq!(batch.path, "/n");
        }
        PushOutput::One(_) => panic!("a batch is reported"),
    }
    let single = PushTargetSelection {
        requested_path: "/n/a.md".to_string(),
        scoped: false,
        targets: strings(&["/n/a.md"]),
    };
    assert_eq!(push_output(&single, vec![good()]), PushOutput::One(good()));
    let empty = PushTargetSelection {
        requested_path: "/n".to_string(),
        scoped: true,
        targets: Vec::new(),
    };
    assert!(nothing_to_push(&empty));
    assert!(!nothing_to_push(&single));
    assert!(PushBatchReport::empty(&empty).ok);
}

#[test]
fn a_prompt_is_asked_until_it_is_answered() {
    for (line, answer) in [
        ("y", Some(true)),
        (" YES ", Some(true)),
        ("n", Some(false)),
        ("No", Some(false)),
        ("", Some(false)),
        ("maybe", None),
    ] {
        assert_eq!(push_answer(line), answer, "{line}");
    }
    let outcome = prompt_for_push_confirmation(&strings(&["maybe\n", "yes\n"]));
    assert!(outcome.approved);
    assert_eq!(
        outcome.output,
        "Proceed with push? [y/N] Please answer y or n.\nProceed with push? [y/N] "
    );
    assert!(!prompt_for_push_confirmation(&Vec::new()).approved);
}

#[test]
fn a_push_is_submitted_only_with_the_plan_that_was_shown() {
    let shown = report("proceed_to_apply", "a");
    assert!(matches!(
        after_preview(Ok(report("proceed_to_apply", "a"))),
        PushStep::VerifyPlan(_)
    ));
    assert!(matches!(
        after_preview(Ok(report("noop", "a"))),
        PushStep::Finish(Ok(_))
    ));
    assert_eq!(
        refused(after_preview(Err(DiffError::MountNotFound("/x".to_string())))),
        ("mount_not_found".to_string(), 2)
    );
    let verify =
        |reply| verify_daemon_push_plan_matches_cli_preview(reply, &shown, 5000);
    assert_eq!(
        verify(DaemonReport::Report(report("proceed_to_apply", "a"))),
        PushStep::Submit(None)
    );
    assert_eq!(
        refused(verify(DaemonReport::Report(report("proceed_to_apply", "b")))),
        ("daemon_plan_mismatch".to_string(), 1)
    );
    assert_eq!(
        verify(DaemonReport::Unavailable(
            DaemonUnavailableReason::NotAvailable
        )),
        PushStep::Submit(Some(DaemonUnavailableReason::NotAvailable))
    );
    assert_eq!(
        refused(verify(DaemonReport::Unavailable(
            DaemonUnavailableReason::TimedOut
        ))),
        ("daemon_timeout".to_string(), 1)
    );
    assert!(push_preview_plan_matches(&shown, &report("proceed_to_apply", "a")));
    assert!(!push_preview_plan_matches(&shown, &report("proceed_to_apply", "b")));
}

#[test]
fn a_push_is_not_done_twice() {
    assert!(matches!(
        after_submission(DaemonReport::Report(report("reconciled", "a")), 5000),
        PushStep::Finish(Ok(_))
    ));
    assert_eq!(
        refused(after_submission(
            DaemonReport::Unavailable(DaemonUnavailableReason::TimedOut),
            5000
        )),
        ("daemon_timeout".to_string(), 1)
    );
    assert_eq!(
        after_submission(
            DaemonReport::Unavailable(DaemonUnavailableReason::Disabled),
            5000
        ),
        PushStep::PushDirectly(DaemonUnavailableReason::Disabled)
    );
    assert_eq!(
        refused(after_submission(
            DaemonReport::Error(DaemonCommandError {
                code: "conflict".to_string(),
                message: "m".to_string(),
                exit_code: 3
            }),
            5000
        )),
        ("conflict".to_string(), 3)
    );
    assert!(matches!(
        after_direct_push(DirectPush::Pushed(report("reconciled", "a"))),
        PushStep::Finish(Ok(_))
    ));
    assert_eq!(
        refused(after_direct_push(DirectPush::Failed(LocalityError {
            kind: LocalityErrorKind::Validation,
            message: "bad".to_string()
        })))
        .0,
        "validation_failed"
    );
    assert_eq!(
        refused(after_direct_push(DirectPush::NoSource(
            ConnectorResolveError {
                code: "auth_required".to_string(),
                message: "m".to_string(),
                suggested_command: None
            }
        )))
        .0,
        "auth_required"
    );
}

fn prepared(action: PushPipelineAction) -> PreparedPush {
    PreparedPush {
        absolute_path: "/n/a.md".to_string(),
        mount: MountConfig::new("m", "notion", "/n"),
        entity: EntityRecord {
            mount_id: "m".to_string(),
            remote_id: "page-1".to_string(),
            kind: EntityKind::Page,
            title: "A".to_string(),
            path: "a.md".to_string(),
            hydration: HydrationState::Dirty,
            content_hash: None,
            remote_edited_at: None,
            synced_remote_version: None,
        },
        shadows: Vec::new(),
        pipeline: PushPipelineResult {
            validation: vec![ValidationIssue {
                code: "c".to_string(),
                file: "a.md".to_string(),
                line: Some(1),
                message: "m".to_string(),
                suggested_fix: None,
            }],
            plan: Some(plan("a")),
            guardrail: GuardrailDecision::ConfirmRequired {
                reasons: strings(&["deletes a page"]),
            },
            action,
            completed_stages: vec![PushStage::ParseAndValidate, PushStage::Diff],
        },
        readable_diff: None,
    }
}

#[test]
fn a_diff_shows_what_the_pipeline_came_to() {
    let shown = run_diff(Ok(prepared(PushPipelineAction::FixValidation))).expect("diff");
    assert_eq!(shown.command, "diff");
    assert!(!shown.ok);
    assert_eq!(shown.action, "fix_validation");
    assert_eq!(shown.path, "/n/a.md");
    assert_eq!(shown.entity_id, "page-1");
    assert_eq!(shown.guardrail.decision, "confirm_required");
    assert_eq!(shown.guardrail.reasons, strings(&["deletes a page"]));
    assert_eq!(shown.completed_stages, strings(&["parse_and_validate", "diff"]));
    assert_eq!(shown.validation.len(), 1);
    let options = PreviewOptions::new("push").with_approval(PushApproval {
        assume_yes: true,
        confirm_dangerous: false,
    });
    let shown = run_preview(
        Ok(prepared(PushPipelineAction::UnsupportedOperations {
            operations: strings(&["move_block"]),
            message: "cannot".to_string(),
            suggested_fix: "split".to_string(),
        })),
        options,
    )
    .expect("preview");
    assert_eq!(shown.command, "push");
    assert_eq!(shown.unsupported, strings(&["move_block"]));
    assert_eq!(shown.message, some("cannot"));
    assert_eq!(shown.suggested_fix, some("split"));
    let artifacts = run_preview_artifacts(
        Ok(prepared(PushPipelineAction::Noop)),
        PreviewOptions::new("push"),
    )
    .expect("artifacts");
    assert_eq!(artifacts.entity_id, some("page-1"));
    assert!(artifacts.pipeline.is_some());
    assert_eq!(
        run_diff(Err(PushPrepareError::MountNotFound("/x".to_string()))),
        Err(DiffError::MountNotFound("/x".to_string()))
    );
}

#[test]
fn daemon_replies_are_reports_or_failures() {
    assert_eq!(
        daemon_report::<u32>(None),
        DaemonReport::Unavailable(DaemonUnavailableReason::Disabled)
    );
    assert_eq!(
        daemon_report::<u32>(Some(Err(DaemonClientError::NotAvailable))),
        DaemonReport::Unavailable(DaemonUnavailableReason::NotAvailable)
    );
    assert_eq!(
        daemon_report::<u32>(Some(Err(DaemonClientError::TimedOut))),
        DaemonReport::Unavailable(DaemonUnavailableReason::TimedOut)
    );
    assert!(matches!(
        daemon_report::<u32>(Some(Err(DaemonClientError::Other("x".to_string())))),
        DaemonReport::Error(_)
    ));
    assert_eq!(
        daemon_report(Some(Ok(DaemonResponse {
            error: None,
            payload: Some(Ok(7u32))
        }))),
        DaemonReport::Report(7u32)
    );
    match daemon_report::<u32>(Some(Ok(DaemonResponse {
        error: Some(DaemonResponseError {
            code: "mount_not_found".to_string(),
            message: "no".to_string(),
        }),
        payload: None,
    }))) {
        DaemonReport::Error(error) => assert_eq!(error.exit_code, 2),
        _ => panic!("the daemon refused"),
    }
    assert_eq!(daemon_request_timeout(&some("1500"), 5000), 1500);
    assert_eq!(daemon_request_timeout(&some("soon"), 5000), 5000);
    assert_eq!(daemon_request_timeout(&None, 5000), 5000);
    assert_eq!(
        daemon_request_timeout_for(DaemonRequestKind::Push, &None, 1, 2),
        2
    );
    assert_eq!(
        daemon_request_timeout_for(DaemonRequestKind::ReloadMounts, &None, 1, 2),
        1
    );
    assert_eq!(
        warn_daemon_fallback("pull", DaemonUnavailableReason::Disabled, 5000, false),
        None
    );
    assert!(
        warn_daemon_fallback("pull", DaemonUnavailableReason::NotAvailable, 5000, false)
            .expect("warned")
            .contains("pull")
    );
    assert_eq!(mounts_changed_warning(&None), None);
    assert_eq!(
        mounts_changed_warning(&Some(Ok(DaemonAcknowledgement {
            ok: true,
            error: None
        }))),
        None
    );
}

fn pulled(ok: bool, enumerated: usize) -> PullReport {
    PullReport {
        ok,
        command: "pull",
        via: "daemon".to_string(),
        target: "/n".to_string(),
        mount_id: "m".to_string(),
        enumerated,
        hydrated: 0,
        stubbed: 0,
        skipped_dirty: 0,
        conflicts: vec![PullConflict {
            path: "a.md".to_string(),
        }],
    }
}

#[test]
fn pulls_with_conflicts_do_not_succeed() {
    assert_eq!(pull_report_exit_code(&pulled(true, 0)), 0);
    assert_eq!(pull_report_exit_code(&pulled(false, 0)), 3);
    assert!(changes_listing(&pulled(true, 1)));
    assert!(!changes_listing(&pulled(true, 0)));
}

const PAGE: &str =
    "https://app.notion.com/p/codeflash/Email-Outreach-1fa3ac0ebb8880e580cbcfd7e54f9be2";

fn result(remote_id: &str, kind: &str) -> SearchResult {
    SearchResult {
        title: "Email".to_string(),
        kind: kind.to_string(),
        state: "stub".to_string(),
        path: "Email/page.md".to_string(),
        absolute_path: "/n/Email/page.md".to_string(),
        mount_id: "m".to_string(),
        connector: "notion".to_string(),
        remote_id: remote_id.to_string(),
        safety: SearchSafety {
            agent_readable: true,
            labels: Vec::new(),
        },
        remote: SearchRemote {
            changed: false,
            deleted: false,
        },
    }
}

#[test]
fn notion_pages_are_named_by_their_url() {
    assert_eq!(
        notion_id_from_url(PAGE),
        some("1fa3ac0ebb8880e580cbcfd7e54f9be2")
    );
    assert_eq!(notion_id_from_url("https://example.test/x"), None);
    assert_eq!(notion_id_from_url("Email Outreach"), None);
    let options = SearchOptions::new(PAGE);
    let report = SearchReport {
        ok: true,
        command: "search",
        query: PAGE.to_string(),
        connector: None,
        count: 2,
        results: vec![
            result("other", "page"),
            result("1fa3ac0e-bb88-80e5-80cb-cfd7e54f9be2", "page"),
        ],
    };
    assert_eq!(results_to_prefetch(&options, &report), vec![1]);
    let plain = SearchOptions::new("Email");
    assert!(results_to_prefetch(&plain, &report).is_empty());
}

#[test]
fn search_metadata_is_refreshed_through_the_daemon() {
    let fuse = || MountConfig::new("m", "notion", "/n").projection(ProjectionMode::LinuxFuse);
    let plain = || MountConfig::new("p", "notion", "/p");
    let mail = MountConfig::new("g", "gmail", "/g");
    let chosen = mounts_to_refresh(vec![fuse(), mail, plain()]);
    let ids: Vec<&str> = chosen.iter().map(|m| m.mount_id.as_str()).collect();
    assert_eq!(ids, vec!["m", "p"]);
    let missing = || DaemonReport::Unavailable(DaemonUnavailableReason::NotAvailable);
    assert_eq!(
        refresh_search_mount_metadata(DaemonReport::Report(pulled(true, 1)), &fuse(), 5000),
        RefreshStep::Done
    );
    assert_eq!(
        refresh_search_mount_metadata(missing(), &plain(), 5000),
        RefreshStep::FetchDirectly
    );
    assert!(matches!(
        refresh_search_mount_metadata(missing(), &fuse(), 5000),
        RefreshStep::Failed(error) if error.code == "daemon_required"
    ));
    assert!(matches!(
        refresh_search_mount_metadata(
            DaemonReport::Unavailable(DaemonUnavailableReason::TimedOut),
            &plain(),
            5000
        ),
        RefreshStep::Failed(error) if error.code == "daemon_timeout"
    ));
    let failed = || Err(CommandError::new("search", "c", "why".to_string()));
    metadata_refreshed(&vec![failed(), Ok(())]).expect("one is enough");
    assert_eq!(
        metadata_refreshed(&vec![failed()]).expect_err("none").message,
        "could not refresh Notion metadata before URL search: why"
    );
    assert_eq!(
        metadata_refreshed(&Vec::new()).expect_err("none").message,
        "could not refresh Notion metadata before URL search: no Notion mounts could be refreshed"
    );
    assert!(prefetches_ancestors(&Some(fuse())));
    assert!(!prefetches_ancestors(&Some(plain())));
    assert!(!prefetches_ancestors(&None));
    prefetch_virtual_search_container(&DaemonReport::Report(1u8), &fuse(), "children:a", 5000)
        .expect("enumerated");
    assert_eq!(
        prefetch_virtual_search_container::<u8>(
            &DaemonReport::Unavailable(DaemonUnavailableReason::Disabled),
            &fuse(),
            "children:a",
            5000
        )
        .expect_err("needs the daemon")
        .code,
        "daemon_required"
    );
}
