use loc_cli::connect::{
    ConnectReport, ConnectionShowReport, ConnectionSummary, ConnectionsReport,
    ConnectorProfileSummary, DisconnectReport, ProfilesReport,
};
use loc_cli::create::CreatePageReport;
use loc_cli::daemon::{
    DaemonActiveJob, DaemonControlReport, DaemonManager, DaemonReloadReport, DaemonRunState,
    DaemonStatusReport,
};
use loc_cli::diff::{
    GuardrailOutput, PlanSummaryOutput, PushPlanOutput, ValidationIssueOutput,
};
use loc_cli::failures::{command_error_lines, json_encode_failure, stub_line};
use loc_cli::history::{JournalEntryOutput, LogReport, UndoPlanOutput, UndoReport};
use loc_cli::json::{Json, JsonField};
use loc_cli::model::CommandError;
use loc_cli::overview::{
    file_provider_list_lines, file_provider_report_lines, info_report_lines, inspect_report_lines,
    inspect_side_summary,    mount_report_lines, okf_export_lines, restore_report_line, status_report_lines,
    template_apply_lines, template_list_lines, template_new_lines, template_validate_lines,
    GuidanceFile, InfoChildren, InfoEntity, InfoReport, InspectReport, InspectSide, Issue,
    LiveMode, MountReport, OkfExportReport, SkippedFile, StatusEntry, StatusMount, StatusReport,
    StatusSummary, StatusSyncState, TemplatePack,
};
use loc_cli::printing::{
    connect_report_line, connection_show_lines, connections_report_lines, create_page_lines,
    daemon_report_lines, diff_report_lines, disconnect_report_line, log_report_lines,
    profiles_report_lines, pull_report_lines, push_report_lines, search_report_lines,
    undo_report_lines,
};
use loc_cli::providing::FileProviderCommandReport;
use loc_cli::pull::{PullConflict, PullReport};
use loc_cli::push::PushReport;
use loc_cli::search::{SearchRemote, SearchReport, SearchResult, SearchSafety};

fn strings(values: &[&str]) -> Vec<String> {
    values.iter().map(|value| value.to_string()).collect()
}

fn some(value: &str) -> Option<String> {
    Some(value.to_string())
}

fn summary() -> PlanSummaryOutput {
    PlanSummaryOutput {
        blocks_created: 1,
        blocks_updated: 2,
        blocks_replaced: 3,
        blocks_moved: 4,
        media_updated: 5,
        blocks_archived: 6,
        entities_created: 1,
        entities_archived: 8,
        entity_bodies_updated: 9,
        entities_moved: 10,
        properties_updated: 11,
    }
}

#[test]
fn log_lines_separate_entries() {
    let entry = |failure: Option<String>| JournalEntryOutput {
        push_id: "push-1".to_string(),
        mount_id: "notion-main".to_string(),
        remote_ids: strings(&["page-1", "page-2"]),
        status: "failed".to_string(),
        failure,
        author: "anonymous".to_string(),
        previous_push_id: None,
        created_at_unix_ms: None,
        readable_diff: None,
        preimage_count: 0,
        apply_effect_count: 0,
        plan_summary: summary(),
        operation_count: 12,
    };
    let report = LogReport {
        ok: true,
        command: "log",
        entries: vec![entry(some("timeout")), entry(None)],
    };
    assert_eq!(
        log_report_lines(&report),
        strings(&[
            "push push-1",
            "  status: failed",
            "  mount: notion-main",
            "  entities: page-1, page-2",
            "  failure: timeout",
            "  summary: 2 updated, 3 replaced, 5 media updated, 1 created, 4 moved, 6 archived",
            "  operations: 12",
            "",
            "push push-1",
            "  status: failed",
            "  mount: notion-main",
            "  entities: page-1, page-2",
            "  summary: 2 updated, 3 replaced, 5 media updated, 1 created, 4 moved, 6 archived",
            "  operations: 12",
        ])
    );
    assert_eq!(
        log_report_lines(&LogReport {
            ok: true,
            command: "log",
            entries: Vec::new()
        }),
        strings(&["no journal entries"])
    );
}

#[test]
fn undo_lines_name_the_plan_where_it_is_blocked() {
    let mut report = UndoReport {
        ok: true,
        command: "undo",
        push_id: "push-1".to_string(),
        status: "reverted".to_string(),
        action: "already_reverted".to_string(),
        message: "journal entry was already reverted".to_string(),
        changed_remote_ids: Vec::new(),
        entry: None,
        undo_plan: None,
    };
    assert_eq!(
        undo_report_lines(&report),
        strings(&["journal entry was already reverted"])
    );
    report.ok = false;
    report.message = "undo plan is partial".to_string();
    report.undo_plan = Some(UndoPlanOutput {
        target_push_id: "push-1".to_string(),
        mount_id: "m".to_string(),
        affected_entities: Vec::new(),
        status: "partial".to_string(),
        operations: Vec::new(),
        unsupported: Vec::new(),
    });
    assert_eq!(
        undo_report_lines(&report),
        strings(&[
            "undo blocked for push-1: undo plan is partial",
            "  undo plan: partial (0 operations, 0 unsupported)",
        ])
    );
}

fn plan() -> PushPlanOutput {
    PushPlanOutput {
        summary: summary(),
        affected_entities: Vec::new(),
        operations: Vec::new(),
        degradations: Vec::new(),
    }
}

#[test]
fn diff_lines_show_issues_or_the_plan() {
    let issue = |line: Option<usize>| ValidationIssueOutput {
        code: "bad_block".to_string(),
        file: "Roadmap.md".to_string(),
        line,
        message: "no such block".to_string(),
        suggested_fix: None,
    };
    assert_eq!(
        diff_report_lines(&vec![issue(Some(3)), issue(None)], &Some(plan())),
        strings(&[
            "Roadmap.md:3: no such block (bad_block)",
            "Roadmap.md: no such block (bad_block)",
        ])
    );
    assert_eq!(
        diff_report_lines(&Vec::new(), &Some(plan())),
        strings(&[
            "2 blocks updated, 3 replaced, 5 media updated, 1 block created, 1 entity created, 4 moved, 6 blocks archived, 8 entities archived",
        ])
    );
    assert_eq!(diff_report_lines(&Vec::new(), &None), strings(&["no plan"]));
}

fn pushed(action: &str) -> PushReport {
    PushReport {
        ok: true,
        command: "push",
        via: "daemon".to_string(),
        path: "Roadmap.md".to_string(),
        mount_id: "m".to_string(),
        entity_id: "page-1".to_string(),
        validation: Vec::new(),
        plan: None,
        guardrail: GuardrailOutput::proceed(),
        action: action.to_string(),
        pipeline_action: action.to_string(),
        push_id: some("push-1"),
        journal_status: None,
        changed_remote_ids: Vec::new(),
        reconciled_remote_ids: Vec::new(),
        apply_effect_count: 0,
        completed_stages: Vec::new(),
        message: None,
        unsupported: Vec::new(),
        suggested_fix: some("split it"),
    }
}

#[test]
fn push_lines_follow_the_action() {
    for (action, lines) in [
        ("noop", vec!["nothing to push"]),
        ("reconciled", vec!["push push-1 reconciled (via daemon)"]),
        ("fix_validation", vec!["no plan"]),
        (
            "confirm_plan",
            vec!["push requires confirmation; rerun with -y or --yes"],
        ),
        (
            "confirm_dangerous_plan",
            vec!["dangerous push requires --confirm"],
        ),
        ("read_only_blocked", vec!["push blocked: mount is read-only"]),
        (
            "apply_not_implemented",
            vec!["connector apply is not implemented yet"],
        ),
        (
            "unsupported_operations",
            vec![
                "connector cannot apply one or more planned operations",
                "  suggested_fix: split it",
            ],
        ),
        (
            "apply_failed",
            vec!["connector apply failed", "  suggested_fix: split it"],
        ),
        ("proceed_to_apply", vec!["push stopped: proceed_to_apply"]),
    ] {
        assert_eq!(push_report_lines(&pushed(action)), strings(&lines));
    }
    let mut unknown = pushed("reconciled");
    unknown.push_id = None;
    assert_eq!(
        push_report_lines(&unknown),
        strings(&["push <unknown> reconciled (via daemon)"])
    );
    let mut told = pushed("apply_failed");
    told.message = some("rate limited");
    told.suggested_fix = None;
    assert_eq!(push_report_lines(&told), strings(&["rate limited"]));
}

fn connection(account: Option<&str>, workspace: Option<&str>) -> ConnectionSummary {
    ConnectionSummary {
        connection_id: "work".to_string(),
        profile_id: None,
        connector: "notion".to_string(),
        display_name: "Notion".to_string(),
        account_label: account.map(str::to_string),
        workspace_id: None,
        workspace_name: workspace.map(str::to_string),
        auth_kind: "token".to_string(),
        status: "active".to_string(),
        created_at: "unix:1".to_string(),
        updated_at: "unix:2".to_string(),
        expires_at: None,
    }
}

#[test]
fn connection_lines_take_the_first_label_there_is() {
    let report = ConnectionsReport {
        ok: true,
        command: "connections",
        connections: vec![
            connection(Some("Ada"), Some("Team")),
            connection(None, Some("Team")),
            connection(None, None),
        ],
    };
    assert_eq!(
        connections_report_lines(&report),
        strings(&[
            "work  profile:unknown  notion  active  Ada",
            "work  profile:unknown  notion  active  Team",
            "work  profile:unknown  notion  active  -",
        ])
    );
    assert_eq!(
        connections_report_lines(&ConnectionsReport {
            ok: true,
            command: "connections",
            connections: Vec::new()
        }),
        strings(&["no connections"])
    );
    assert_eq!(
        profiles_report_lines(&ProfilesReport {
            ok: true,
            command: "profiles",
            profiles: Vec::new()
        })
,
        strings(&["no profiles"])
    );
    let profile = ConnectorProfileSummary {
        profile_id: "notion-token-default".to_string(),
        connector: "notion".to_string(),
        display_name: "Notion token".to_string(),
        auth_kind: "token".to_string(),
        scopes: Vec::new(),
        capabilities_json: "{}".to_string(),
        enabled_actions_json: "[]".to_string(),
        connector_version: "1".to_string(),
        status: "active".to_string(),
        created_at: "unix:1".to_string(),
        updated_at: "unix:1".to_string(),
    };
    assert_eq!(
        profiles_report_lines(&ProfilesReport {
            ok: true,
            command: "profiles",
            profiles: vec![profile],
        }),
        strings(&["notion-token-default  notion  token  active  1"])
    );
    assert_eq!(
        connection_show_lines(&ConnectionShowReport {
            ok: true,
            command: "connection",
            connection: connection(Some("Ada"), Some("Team")),
        }),
        strings(&[
            "connection: work",
            "  connector: notion",
            "  status: active",
            "  auth_kind: token",
            "  account: Ada",
            "  workspace: Team",
        ])
    );
    assert_eq!(
        disconnect_report_line(&DisconnectReport {
            ok: true,
            command: "disconnect",
            connection_id: "work".to_string(),
            status: "revoked".to_string(),
        }),
        "disconnected work (revoked)"
    );
    assert_eq!(
        connect_report_line(&ConnectReport {
            ok: true,
            command: "connect",
            connection_id: "work".to_string(),
            profile_id: "p".to_string(),
            connector: "notion".to_string(),
            display_name: "Notion".to_string(),
            account_label: None,
            workspace_id: None,
            workspace_name: some("Team"),
            auth_kind: "token".to_string(),
        }),
        "connected notion as \"Team\" (connection: work)"
    );
}

#[test]
fn pull_lines_say_how_conflicts_are_resolved() {
    let mut report = PullReport {
        ok: true,
        command: "pull",
        via: "daemon".to_string(),
        target: "/n".to_string(),
        mount_id: "m".to_string(),
        enumerated: 3,
        hydrated: 1,
        stubbed: 2,
        skipped_dirty: 0,
        conflicts: Vec::new(),
    };
    assert_eq!(
        pull_report_lines(&report),
        strings(&["pull complete: 1 hydrated, 2 stubbed, 3 enumerated (via daemon)"])
    );
    report.skipped_dirty = 2;
    assert_eq!(
        pull_report_lines(&report),
        strings(&[
            "pull skipped 2 dirty file(s); 1 hydrated, 2 stubbed, 3 enumerated (via daemon)"
        ])
    );
    report.conflicts = vec![PullConflict {
        path: "My Page.md".to_string(),
    }];
    assert_eq!(
        pull_report_lines(&report),
        strings(&[
            "pull completed with 1 conflicted file(s); 1 dirty file(s) skipped, 1 hydrated, 2 stubbed, 3 enumerated (via daemon)",
            "  conflicted:",
            "    My Page.md",
            "  next: resolve the conflict markers in the file(s)",
            "  then: loc push 'My Page.md' -y",
        ])
    );
    report.skipped_dirty = 1;
    report.conflicts.push(PullConflict {
        path: "b.md".to_string(),
    });
    let lines = pull_report_lines(&report);
    assert!(lines[0].contains("2 conflicted file(s); 0 dirty file(s) skipped"));
    assert_eq!(
        lines[5],
        "  then: run `loc push <file> -y` for each resolved file"
    );
}

#[test]
fn search_lines_warn_of_what_is_not_safe() {
    let report = SearchReport {
        ok: true,
        command: "search",
        query: "idea".to_string(),
        connector: None,
        count: 1,
        results: vec![SearchResult {
            title: "Idea".to_string(),
            kind: "page".to_string(),
            state: "hydrated".to_string(),
            path: "Idea/page.md".to_string(),
            absolute_path: "/n/Idea/page.md".to_string(),
            mount_id: "m".to_string(),
            connector: "notion".to_string(),
            remote_id: "page-1".to_string(),
            safety: SearchSafety {
                agent_readable: false,
                labels: strings(&["stale", "private"]),
            },
            remote: SearchRemote {
                changed: true,
                deleted: true,
            },
        }],
    };
    assert_eq!(
        search_report_lines(&report),
        strings(&[
            "Idea  page  hydrated  Idea/page.md",
            "  mount: m  connector: notion  remote: page-1",
            "  path: /n/Idea/page.md",
            "  safety: stale, private",
            "  remote: deleted",
        ])
    );
    let empty = SearchReport {
        results: Vec::new(),
        ..report
    };
    assert_eq!(
        search_report_lines(&empty),
        strings(&["no local matches for \"idea\""])
    );
    let quoted = SearchReport {
        query: "an \"idea\"\n".to_string(),
        ..empty
    };
    assert_eq!(
        search_report_lines(&quoted),
        strings(&["no local matches for \"an \\\"idea\\\"\\n\""])
    );
}

#[test]
fn create_lines_list_what_comes_next() {
    let report = CreatePageReport {
        ok: true,
        command: "create",
        kind: "page",
        title: "Plan".to_string(),
        parent: "/n".to_string(),
        directory: "/n/Plan".to_string(),
        path: "/n/Plan/page.md".to_string(),
        mount_id: "m".to_string(),
        connector: "notion".to_string(),
        private: false,
        next: strings(&["loc diff /n/Plan/page.md"]),
    };
    assert_eq!(
        create_page_lines(&report),
        strings(&[
            "created /n/Plan/page.md",
            "  title: Plan",
            "  mount: m",
            "  next:",
            "    loc diff /n/Plan/page.md",
        ])
    );
}

#[test]
fn daemon_lines_show_what_the_daemon_told() {
    let report = DaemonControlReport {
        ok: true,
        command: "daemon",
        action: "status",
        state: DaemonRunState::Running,
        manager: DaemonManager::Session,
        state_root: "/s".to_string(),
        socket: "/s/sock".to_string(),
        tcp_addr: "127.0.0.1:1".to_string(),
        localityd_bin: None,
        launch_agent: None,
        pid_file: None,
        stdout_log: None,
        stderr_log: some("/s/err"),
        daemon_status: Some(DaemonStatusReport {
            version: "0.1.3".to_string(),
            build_id: "test-build".to_string(),
            watched_mounts: 2,
            active_job: true,
            pending_requests: 1,
            pending_hydrations: 2,
            pending_freshness: 3,
            ready_freshness: 4,
            deferred_freshness: 5,
            ready_freshness_budget_units: 6,
            freshness_budget_units: 7,
            active_job_detail: Some(DaemonActiveJob {
                kind: "pull".to_string(),
                target: None,
                elapsed_ms: 42,
            }),
            scheduler_mode: "polling".to_string(),
        }),
        reload: Some(DaemonReloadReport {
            added: 1,
            removed: 2,
            unchanged: 3,
        }),
        message: "daemon is running".to_string(),
    };
    assert_eq!(
        daemon_report_lines(&report),
        strings(&[
            "daemon is running",
            "  state: running",
            "  manager: session",
            "  state root: /s",
            "  socket: /s/sock",
            "  reload: +1 -2 unchanged 3",
            "  build: 0.1.3 (test-build)",
            "  watched mounts: 2",
            "  jobs: active=true, pending=1, hydration=2, freshness=3",
            "  freshness: ready=4, deferred=5, ready_budget=6, total_budget=7",
            "  active job: kind=pull target=- elapsed=42ms",
            "  scheduler: polling",
            "  log: /s/err",
        ])
    );
}

#[test]
fn mount_and_template_lines_name_what_was_written() {
    let report = MountReport {
        mount_id: "m".to_string(),
        root: "/n".to_string(),
        connector: "notion".to_string(),
        connection_id: some("work"),
        agents_md: GuidanceFile {
            action: "created".to_string(),
            path: "/n/AGENTS.md".to_string(),
        },
        claude_md: GuidanceFile {
            action: "unchanged".to_string(),
            path: "/n/GUIDE.md".to_string(),
        },
    };
    assert_eq!(
        mount_report_lines(&report),
        strings(&[
            "mounted m at /n (notion)",
            "connection: work",
            "agent guidance: created /n/AGENTS.md, unchanged /n/GUIDE.md",
        ])
    );
    let pack = TemplatePack {
        id: "founder".to_string(),
        version: "1.0".to_string(),
        name: "Founder".to_string(),
        description: some("For founders"),
        connectors: strings(&["notion", "google-docs"]),
        outputs: strings(&["page"]),
    };
    assert_eq!(
        template_apply_lines(&pack, "weekly", "/n/Week/page.md", &strings(&["loc diff x"])),
        strings(&[
            "created draft /n/Week/page.md from founder/weekly",
            "  next: loc diff x",
        ])
    );
    assert_eq!(
        template_validate_lines(&pack, "/tmp/founder"),
        strings(&[
            "template pack valid: founder 1.0",
            "  path: /tmp/founder",
            "  connectors: notion, google-docs",
        ])
    );
    assert_eq!(
        template_new_lines(&pack, "/tmp/founder", 3),
        strings(&[
            "created template workspace /tmp/founder from founder 1.0",
            "  files: 3",
        ])
    );
    assert_eq!(
        template_list_lines(&vec![pack]),
        strings(&[
            "founder  1.0  Founder",
            "  For founders",
            "  connectors: notion, google-docs",
            "  outputs: page",
        ])
    );
    assert_eq!(
        template_list_lines(&Vec::new()),
        strings(&["no template packs available"])
    );
    assert_eq!(restore_report_line("Roadmap.md"), "restored Roadmap.md");
}

fn entry(sync_state: StatusSyncState, failed: usize) -> StatusEntry {
    StatusEntry {
        path: "Roadmap.md".to_string(),
        state: "dirty".to_string(),
        sync_state,
        sync: "pending_local_changes".to_string(),
        hydration: "hydrated".to_string(),
        pending_journal_count: 0,
        failed_journal_count: failed,
        issues: vec![
            Issue {
                code: "last_failure".to_string(),
                message: "timeout".to_string(),
            },
            Issue {
                code: "schema".to_string(),
                message: "missing".to_string(),
            },
        ],
    }
}

fn status(entries: Vec<StatusEntry>, checking: usize) -> StatusReport {
    StatusReport {
        mounts: vec![StatusMount {
            mount_id: "m".to_string(),
            live_mode: LiveMode {
                enabled: true,
                state: "on".to_string(),
                reason: some("asked"),
            },
            entries,
        }],
        summary: StatusSummary {
            total: 1,
            clean: 1,
            stub: 2,
            dirty: 3,
            conflicted: 4,
            missing: 5,
            error: 6,
            remote_update_available: 7,
            pending_local_changes: 8,
            review_needed: 9,
            sync_conflicted: 10,
            checking_freshness: checking,
        },
    }
}

#[test]
fn status_lines_leave_out_what_is_in_order() {
    assert_eq!(
        status_report_lines(&status(
            vec![
                entry(StatusSyncState::PendingLocalChanges, 0),
                entry(StatusSyncState::AllSynced, 0)
            ],
            1
        )),
        strings(&[
            "m  live_mode: on",
            "  live_mode_reason: asked",
            "m  Roadmap.md",
            "  state: dirty  sync: pending_local_changes  hydration: hydrated",
            "  last_failure: timeout",
            "  issue: schema - missing",
            "summary: 1 clean, 2 stub, 3 dirty, 4 conflicted, 5 missing, 6 error",
            "sync: 7 remote updates, 8 pending local, 9 review needed, 10 conflicted, 1 checking",
        ])
    );
    assert_eq!(
        status_report_lines(&status(vec![entry(StatusSyncState::CheckingFreshness, 0)], 2))[2],
        "status clean: 1 tracked entry (checking freshness for 2 entries)"
    );
    assert_eq!(
        status_report_lines(&status(vec![entry(StatusSyncState::AllSynced, 1)], 0)).len(),
        8
    );
    assert_eq!(
        status_report_lines(&StatusReport {
            mounts: Vec::new(),
            summary: status(Vec::new(), 0).summary
        }),
        strings(&["no mounts"])
    );
}

#[test]
fn info_and_inspect_lines_leave_out_what_is_not_known() {
    let info = InfoReport {
        target: "/n/Plan".to_string(),
        mount_id: "m".to_string(),
        connector: "notion".to_string(),
        root: "/n".to_string(),
        role: "page".to_string(),
        source: "store".to_string(),
        remote_root_id: some("root-1"),
        entity: Some(InfoEntity {
            title: "Plan".to_string(),
            entity_id: "page-1".to_string(),
            path: "Plan/page.md".to_string(),
            hydration: "stub".to_string(),
            remote_edited_at: some("2026-01-01"),
        }),
        schema_path: some("/n/_schema.yaml"),
        children: InfoChildren {
            pages: 1,
            databases: 2,
            directories: 1,
            assets: 0,
            unknown: 4,
            subtree: 9,
        },
        pending_journals: 1,
        failed_journals: 2,
        read_only: true,
        suggestions: strings(&["loc pull /n/Plan", "loc status"]),
    };
    assert_eq!(
        info_report_lines(&info),
        strings(&[
            "Path: /n/Plan",
            "Mount: m (notion)",
            "Root: /n",
            "Role: page",
            "Source: store",
            "Remote root ID: root-1",
            "Title: Plan",
            "Remote ID: page-1",
            "Entity path: Plan/page.md",
            "Hydration: stub",
            "Synced Tree version: 2026-01-01",
            "Schema: /n/_schema.yaml",
            "Children: 1 page, 2 databases, 1 directory, 0 assets, 4 unknown",
            "Subtree entities: 9",
            "Journals: 1 pending, 2 failed",
            "Write mode: read-only",
            "Next: loc pull /n/Plan; loc status",
        ])
    );
    let side = |issue: Option<Issue>, changed: bool, operations: Option<usize>| InspectSide {
        issue,
        changed,
        operations,
    };
    let inspect = InspectReport {
        path: "/n/a.md".to_string(),
        mount_id: "m".to_string(),
        entity_id: "page-1".to_string(),
        title: "A".to_string(),
        synced_tree_version: some("v1"),
        remote_tree_version: some("v2"),
        local_read_path: "/s/a.md".to_string(),
        state: "diverged".to_string(),
        action: "review".to_string(),
        local: side(None, true, Some(2)),
        remote: side(None, false, None),
        issues: vec![Issue {
            code: "c".to_string(),
            message: "m".to_string(),
        }],
    };
    assert_eq!(
        inspect_report_lines(&inspect),
        strings(&[
            "inspect /n/a.md",
            "  mount: m  entity: page-1",
            "  title: A",
            "  Synced Tree version: v1",
            "  Remote Tree version: v2",
            "  local cache: /s/a.md",
            "  state: diverged  action: review",
            "  local: changed (2 operations)",
            "  remote: unchanged (0 operations)",
            "  issue: c - m",
        ])
    );
    let doubtful = side(
        Some(Issue {
            code: "c".to_string(),
            message: "m".to_string(),
        }),
        true,
        Some(1),
    );
    assert_eq!(inspect_side_summary(&doubtful), "needs review (c - m)");
    assert_eq!(
        inspect_side_summary(&side(None, true, Some(1))),
        "changed (1 operation)"
    );
}

#[test]
fn export_lines_list_what_was_skipped() {
    let report = OkfExportReport {
        output: "/out".to_string(),
        source: "/n".to_string(),
        concepts: 3,
        indexes: 1,
        skipped: vec![SkippedFile {
            path: "a.png".to_string(),
            reason: "not markdown".to_string(),
        }],
    };
    assert_eq!(
        okf_export_lines(&report),
        strings(&[
            "exported OKF bundle /out",
            "  source: /n",
            "  concepts: 3",
            "  indexes: 1",
            "  skipped:",
            "    a.png (not markdown)",
        ])
    );
}

fn field(key: &str, value: Json) -> JsonField {
    JsonField {
        key: key.to_string(),
        value,
    }
}

fn provided(action: &str, helper_report: Json) -> FileProviderCommandReport {
    FileProviderCommandReport {
        ok: true,
        command: "file-provider",
        action: action.to_string(),
        mount_id: None,
        helper: "helper".to_string(),
        helper_report,
    }
}

#[test]
fn file_provider_lines_follow_the_helper() {
    let words = |value: &str| Json::Text(value.to_string());
    assert_eq!(
        file_provider_report_lines(&provided(
            "register",
            Json::Object(vec![field("message", words("registered"))])
        )),
        strings(&["registered"])
    );
    assert_eq!(
        file_provider_report_lines(&provided("open", Json::Null)),
        strings(&["file provider open complete"])
    );
    let roots = Json::Object(vec![field(
        "roots",
        Json::Array(vec![Json::Object(vec![
            field("mount_id", words("m")),
            field("path", words("C:\\n")),
        ])]),
    )]);
    assert_eq!(
        file_provider_list_lines(&provided("list", roots)),
        strings(&["m\t<unknown>\tC:\\n"])
    );
    let domains = Json::Object(vec![field(
        "domains",
        Json::Array(vec![Json::Object(vec![field("identifier", words("d"))])]),
    )]);
    assert_eq!(
        file_provider_report_lines(&provided("list", domains)),
        strings(&["d\t<unknown>"])
    );
    for empty in [
        Json::Null,
        Json::Object(vec![field("roots", Json::Array(Vec::new()))]),
        Json::Object(vec![field("domains", Json::Array(Vec::new()))]),
    ] {
        assert_eq!(
            file_provider_list_lines(&provided("list", empty)),
            strings(&["no file provider domains"])
        );
    }
}

#[test]
fn command_errors_are_told_with_their_suggestion() {
    let error = CommandError::new("pull", "usage", "usage: loc pull".to_string());
    assert_eq!(
        command_error_lines(&error),
        strings(&["loc pull: usage: loc pull"])
    );
    let error = error.with_suggested_command("loc status".to_string());
    assert_eq!(
        command_error_lines(&error),
        strings(&["loc pull: usage: loc pull", "hint: loc status"])
    );
    assert_eq!(
        json_encode_failure("a \"b\""),
        "{\"ok\":false,\"command\":\"internal\",\"code\":\"json_encode_failed\",\"message\":\"a \\\"b\\\"\"}"
    );
    assert_eq!(stub_line("mcp", false), "loc mcp: not implemented yet");
    assert_eq!(
        stub_line("mcp", true),
        "{\"ok\":false,\"command\":\"mcp\",\"error\":\"not_implemented\"}"
    );
}
