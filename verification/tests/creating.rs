use loc_cli::create::{
    draft_place, local_create_id, normalized_title, page_directory_name_for_title,
    run_create_database, run_create_page, stage_virtual_file, timestamp_string,
    virtual_file_record, CreateDecision, CreateError, DraftPlace, StagedFile,
};
use loc_cli::diff::EntityKind;
use loc_cli::model::{
    EntityRecord, HydrationState, MountConfig, ProjectionMode, StoreError, StoreErrorKind,
};
use loc_cli::paths::PathStyle;
use loc_cli::reply::{
    check_reply_thread, gmail_reply_markdown, is_answerable, is_message_file,
    markdown_frontmatter, reply_thread, run_create_gmail_reply, unique_reply_draft_path,
    ReplyMessage,
};

fn strings(values: &[&str]) -> Vec<String> {
    values.iter().map(|value| value.to_string()).collect()
}

fn some(value: &str) -> Option<String> {
    Some(value.to_string())
}

fn here() -> Result<String, String> {
    Ok("/n/Team".to_string())
}

fn notion(projection: ProjectionMode) -> MountConfig {
    MountConfig::new("m", "notion", "/n").projection(projection)
}

fn allowed() -> CreateDecision {
    CreateDecision {
        reason: None,
        source: "Notion".to_string(),
    }
}

fn entity(remote_id: &str, kind: EntityKind, path: &str) -> EntityRecord {
    EntityRecord {
        mount_id: "m".to_string(),
        remote_id: remote_id.to_string(),
        kind,
        title: "Team".to_string(),
        path: path.to_string(),
        hydration: HydrationState::Hydrated,
        content_hash: None,
        remote_edited_at: None,
        synced_remote_version: None,
    }
}

fn place() -> DraftPlace {
    draft_place(PathStyle::Unix, "Launch Plan", &None, &here()).expect("place")
}

#[test]
fn titles_are_single_file_names() {
    assert_eq!(normalized_title(PathStyle::Unix, " Plan ").expect("title"), "Plan");
    for (title, message) in [
        ("  ", "page title must not be empty"),
        (".", "page title must be a file name, not `.` or `..`"),
        ("..", "page title must be a file name, not `.` or `..`"),
        ("a/b", "page title must be a single path component"),
        ("/a", "page title must be a single path component"),
    ] {
        assert_eq!(
            normalized_title(PathStyle::Unix, title),
            Err(CreateError::InvalidTitle(message.to_string()))
        );
    }
    assert_eq!(page_directory_name_for_title("a:b*c?\"<>|\\/\n"), "a-b-c--------");
    assert_eq!(page_directory_name_for_title(" ..x.. "), "x");
    assert_eq!(page_directory_name_for_title("..."), "Untitled");
}

#[test]
fn drafts_are_placed_below_their_parent() {
    let asked = draft_place(PathStyle::Unix, "Plan", &some("Docs"), &here()).expect("place");
    assert_eq!(asked.parent, "/n/Team/Docs");
    assert_eq!(asked.directory(PathStyle::Unix), "/n/Team/Docs/Plan");
    assert_eq!(asked.schema_path(PathStyle::Unix), "/n/Team/Docs/Plan/_schema.yaml");
    assert_eq!(place().parent, "/n/Team");
    assert_eq!(
        draft_place(PathStyle::Unix, "Plan", &some("Docs"), &Err("gone".to_string())),
        Err(CreateError::CurrentDir {
            message: "gone".to_string()
        })
    );
    assert_eq!(
        draft_place(PathStyle::Unix, "Plan", &some("/n"), &Err("gone".to_string()))
            .expect("place")
            .parent,
        "/n"
    );
}

#[test]
fn a_page_is_drafted_as_a_file() {
    let mount = notion(ProjectionMode::PlainFiles);
    let (file, report) = run_create_page(
        PathStyle::Unix,
        place(),
        false,
        &None,
        Some(&mount),
        allowed(),
        false,
        Ok(Vec::new()),
    )
    .expect("page");
    assert_eq!(file.directory, "/n/Team/Launch Plan");
    assert_eq!(file.path, "/n/Team/Launch Plan/page.md");
    assert_eq!(file.body, "---\ntitle: \"Launch Plan\"\n---\n");
    assert_eq!(file.staged, None);
    assert_eq!(report.command, "create_page");
    assert_eq!(report.parent, "/n/Team");
    assert_eq!(
        report.next,
        strings(&[
            "loc diff '/n/Team/Launch Plan/page.md'",
            "loc push '/n/Team/Launch Plan/page.md' -y",
        ])
    );
    let (file, report) = run_create_page(
        PathStyle::Unix,
        place(),
        true,
        &None,
        Some(&mount),
        allowed(),
        false,
        Ok(Vec::new()),
    )
    .expect("private page");
    assert_eq!(
        file.body,
        "---\nloc:\n  private: true\ntitle: \"Launch Plan\"\n---\n"
    );
    assert!(report.private);
}

#[test]
fn a_page_in_a_virtual_mount_is_staged_below_its_parent() {
    let mount = notion(ProjectionMode::LinuxFuse);
    let entities = || Ok(vec![entity("page-1", EntityKind::Page, "Team/page.md")]);
    let (file, _) = run_create_page(
        PathStyle::Unix,
        place(),
        false,
        &some("/s"),
        Some(&mount),
        allowed(),
        false,
        entities(),
    )
    .expect("page");
    let staged = file.staged.expect("staged");
    assert_eq!(staged.projected_path, "Team/Launch Plan/page.md");
    assert_eq!(staged.parent_remote_id, some("page-1"));
    assert_eq!(staged.display_path, "/n/Team/Launch Plan");
    assert_eq!(
        run_create_page(
            PathStyle::Unix,
            place(),
            false,
            &None,
            Some(&mount),
            allowed(),
            false,
            entities()
        ),
        Err(CreateError::VirtualStateRootRequired)
    );
    assert!(matches!(
        run_create_page(
            PathStyle::Unix,
            place(),
            false,
            &some("/s"),
            Some(&mount),
            allowed(),
            false,
            Ok(Vec::new())
        ),
        Err(CreateError::InvalidParent { .. })
    ));
}

#[test]
fn pages_are_refused_in_this_order() {
    let mut mount = notion(ProjectionMode::PlainFiles);
    let make = |mount: Option<&MountConfig>, private: bool, reason: Option<String>, exists: bool| {
        run_create_page(
            PathStyle::Unix,
            place(),
            private,
            &None,
            mount,
            CreateDecision {
                reason,
                source: "Granola".to_string(),
            },
            exists,
            Ok(Vec::new()),
        )
        .expect_err("refused")
    };
    assert_eq!(
        make(None, false, None, false),
        CreateError::MountNotFound("/n/Team".to_string())
    );
    assert_eq!(
        make(Some(&mount), false, None, true),
        CreateError::TargetExists("/n/Team/Launch Plan".to_string())
    );
    assert_eq!(
        make(Some(&mount), false, some("no writes"), true),
        CreateError::ReadOnlySource {
            mount_id: "m".to_string(),
            source: "Granola".to_string(),
            reason: "no writes".to_string()
        }
    );
    mount.connector = "gmail".to_string();
    assert_eq!(
        make(Some(&mount), true, None, true),
        CreateError::PrivateUnsupported {
            connector: "gmail".to_string()
        }
    );
    mount.read_only = true;
    assert_eq!(
        make(Some(&mount), true, None, true),
        CreateError::ReadOnlyMount {
            mount_id: "m".to_string()
        }
    );
}

#[test]
fn a_database_is_created_inside_a_page() {
    let mount = notion(ProjectionMode::PlainFiles);
    let make = |mount: &MountConfig, entities: Vec<EntityRecord>, exists: bool, staged: bool| {
        run_create_database(
            PathStyle::Unix,
            place(),
            &None,
            Some(mount),
            Ok(entities),
            exists,
            Ok(staged),
            "schema".to_string(),
        )
    };
    let page = || vec![entity("page-1", EntityKind::Page, "Team/page.md")];
    let (file, report) = make(&mount, page(), false, false).expect("database");
    assert_eq!(file.path, "/n/Team/Launch Plan/_schema.yaml");
    assert_eq!(file.body, "schema");
    assert_eq!(report.kind, "database");
    assert!(matches!(
        make(&mount, Vec::new(), false, false),
        Err(CreateError::InvalidParent { message, .. })
            if message == "no existing page matches this parent directory"
    ));
    assert!(matches!(
        make(
            &mount,
            vec![entity("db-1", EntityKind::Database, "Team")],
            false,
            false
        ),
        Err(CreateError::InvalidParent { message, .. })
            if message == "Notion databases must be created inside an existing page directory"
    ));
    assert!(matches!(
        make(&mount, page(), true, false),
        Err(CreateError::TargetExists(_))
    ));
    assert!(matches!(
        make(&mount, page(), false, true),
        Err(CreateError::TargetExists(_))
    ));
    let mut other = notion(ProjectionMode::PlainFiles);
    other.connector = "gmail".to_string();
    assert!(matches!(
        make(&other, page(), false, false),
        Err(CreateError::DatabaseUnsupported { .. })
    ));
    assert!(matches!(
        run_create_database(
            PathStyle::Unix,
            place(),
            &None,
            Some(&mount),
            Err(StoreError {
                kind: StoreErrorKind::Io,
                message: "disk".to_string()
            }),
            false,
            Ok(false),
            String::new()
        ),
        Err(CreateError::Store(_))
    ));
}

#[test]
fn staged_files_are_recorded_once() {
    let staged = || StagedFile {
        display_path: "/n/Plan".to_string(),
        projected_path: "Plan/page.md".to_string(),
        parent_remote_id: some("page-1"),
    };
    assert_eq!(
        stage_virtual_file(&staged(), Ok(false), Ok("/s/content/1".to_string())).expect("path"),
        "/s/content/1"
    );
    assert_eq!(
        stage_virtual_file(&staged(), Ok(true), Ok("/s/content/1".to_string())),
        Err(CreateError::TargetExists("/n/Plan".to_string()))
    );
    assert!(stage_virtual_file(&staged(), Ok(false), Err("outside".to_string())).is_err());
    let record = virtual_file_record(
        PathStyle::Unix,
        staged(),
        "m",
        "/s/content/1".to_string(),
        "local-1".to_string(),
        "unix_ms:1".to_string(),
    );
    assert_eq!(record.mount_id, "m");
    assert_eq!(record.local_id, "local-1");
    assert_eq!(record.parent_remote_id, some("page-1"));
    assert_eq!(record.projected_path, "Plan/page.md");
    assert_eq!(record.title, "Plan");
    assert_eq!(record.created_at, record.updated_at);
    assert_ne!(local_create_id(1, 2, 3), local_create_id(1, 2, 4));
    assert_ne!(timestamp_string(Some(1)), timestamp_string(Some(2)));
}

fn message(id: &str, date: &str) -> ReplyMessage {
    ReplyMessage {
        path: format!("/g/inbox/t/{id}.md"),
        from: " Ada <ada@example.test> ".to_string(),
        subject: " Re: Plan ".to_string(),
        message_id: id.to_string(),
        thread_id: "thread-1".to_string(),
        rfc_message_id: format!("<{id}@mail>"),
        reply_to: None,
        references: strings(&["<first@mail>"]),
        internal_date: some(date),
    }
}

fn gmail(projection: ProjectionMode) -> MountConfig {
    MountConfig::new("g", "gmail", "/g").projection(projection)
}

#[test]
fn a_reply_answers_the_newest_message() {
    let mount = gmail(ProjectionMode::PlainFiles);
    let messages = vec![message("m2", "200"), message("m1", "100")];
    let (file, report) =
        run_create_gmail_reply(
            PathStyle::Unix,
            &mount,
            "/g/inbox/t",
            &None,
            &messages,
            &None,
            7,
            1,
        ).expect("reply");
    assert_eq!(report.reply_to_message_id, "m2");
    assert_eq!(report.recipient, "Ada <ada@example.test>");
    assert_eq!(report.subject, "Re: Plan");
    assert_eq!(file.path, "/g/draft/reply-7-1-Re- Plan.md");
    assert_eq!(
        file.body,
        "---\nto: \"Ada <ada@example.test>\"\nsubject: \"Re: Plan\"\ngmail:\n  thread_id: \"thread-1\"\n  reply_to_message_id: \"m2\"\n  in_reply_to: \"<m2@mail>\"\n  references:\n    - \"<first@mail>\"\n    - \"<m2@mail>\"\n---\n\n"
    );
    assert_eq!(file.staged, None);
}

#[test]
fn a_reply_answers_the_message_that_is_named() {
    let mount = gmail(ProjectionMode::LinuxFuse);
    let mut named = message("m1", "100");
    named.reply_to = some("list@example.test");
    named.references = strings(&["<m1@mail>"]);
    let messages = vec![named, message("m2", "200")];
    let (file, report) = run_create_gmail_reply(
        PathStyle::Unix,
        &mount,
        "/g/inbox/t",
        &some("m1"),
        &messages,
        &some("/s"),
        7,
        1,
    )
    .expect("reply");
    assert_eq!(report.reply_to_message_id, "m1");
    assert_eq!(report.recipient, "list@example.test");
    assert_eq!(file.body.matches("<m1@mail>").count(), 2);
    let staged = file.staged.expect("staged");
    assert_eq!(staged.parent_remote_id, some("gmail-folder:draft"));
    assert_eq!(staged.projected_path, "draft/reply-7-1-Re- Plan.md");
}

fn reply_error(messages: Vec<ReplyMessage>, selector: Option<String>) -> CreateError {
    run_create_gmail_reply(
        PathStyle::Unix,
        &gmail(ProjectionMode::PlainFiles),
        "/g/inbox/t",
        &selector,
        &messages,
        &None,
        7,
        1,
    )
    .expect_err("refused")
}

#[test]
fn replies_are_refused_without_what_they_need() {
    let invalid = |message: &str| CreateError::InvalidReply(message.to_string());
    assert_eq!(
        reply_error(Vec::new(), None),
        invalid("thread has no hydrated message files with Gmail reply metadata; open or pull a message first")
    );
    assert_eq!(
        reply_error(vec![message("m1", "1")], some("m9")),
        invalid("no hydrated message in the thread matches `m9`")
    );
    let mut other = message("m2", "2");
    other.thread_id = "thread-2".to_string();
    assert_eq!(
        reply_error(vec![message("m1", "1"), other], None),
        invalid("thread directory contains messages from different Gmail threads")
    );
    let mut nobody = message("m1", "1");
    nobody.from = " ".to_string();
    assert_eq!(
        reply_error(vec![nobody], None),
        invalid("selected message has neither Reply-To nor From metadata")
    );
    let mut silent = message("m1", "1");
    silent.subject = String::new();
    assert_eq!(
        reply_error(vec![silent], None),
        invalid("selected message has no subject")
    );
    assert_eq!(
        run_create_gmail_reply(
            PathStyle::Unix,
            &gmail(ProjectionMode::LinuxFuse),
            "/g/inbox/t",
            &None,
            &vec![message("m1", "1")],
            &None,
            7,
            1
        ),
        Err(CreateError::VirtualStateRootRequired)
    );
}

#[test]
fn reply_threads_lie_in_a_mail_folder() {
    let mut mount = gmail(ProjectionMode::PlainFiles);
    check_reply_thread(PathStyle::Unix, Some(&mount), "/g/inbox/t").expect("inbox");
    check_reply_thread(PathStyle::Unix, Some(&mount), "/g/sent/t").expect("sent");
    assert_eq!(
        check_reply_thread(PathStyle::Unix, Some(&mount), "/g/draft/t"),
        Err(CreateError::InvalidReply(
            "Gmail replies must target an inbox/ or sent/ thread directory".to_string()
        ))
    );
    assert!(matches!(
        check_reply_thread(PathStyle::Unix, None, "/g/inbox/t"),
        Err(CreateError::MountNotFound(_))
    ));
    mount.connector = "notion".to_string();
    assert!(matches!(
        check_reply_thread(PathStyle::Unix, Some(&mount), "/g/inbox/t"),
        Err(CreateError::GmailReplyUnsupported { .. })
    ));
    mount.read_only = true;
    assert!(matches!(
        check_reply_thread(PathStyle::Unix, Some(&mount), "/g/inbox/t"),
        Err(CreateError::ReadOnlyMount { .. })
    ));
    assert_eq!(
        reply_thread(PathStyle::Unix, "./inbox/t/page.md", &Ok("/w".to_string())).expect("thread"),
        "/w/./inbox/t"
    );
    assert_eq!(
        reply_thread(PathStyle::Unix, "inbox/t", &Ok("/g".to_string())).expect("thread"),
        "/g/inbox/t"
    );
}

#[test]
fn draft_names_are_bounded() {
    let path = unique_reply_draft_path(
        PathStyle::Unix,
        "/g/draft",
        &"\u{e9}".repeat(200),
        u128::MAX,
        u64::MAX,
    );
    let name = path.strip_prefix("/g/draft/").expect("in the directory");
    assert!(name.len() <= 128);
    assert!(name.ends_with(".md"));
}

#[test]
fn messages_are_told_by_their_frontmatter() {
    assert_eq!(
        markdown_frontmatter("---\nfrom: a\n---\nbody\n"),
        some("from: a")
    );
    assert_eq!(markdown_frontmatter("from: a\n"), None);
    assert!(is_message_file(PathStyle::Unix, "/g/inbox/t/a.md"));
    assert!(!is_message_file(PathStyle::Unix, "/g/inbox/t/a.txt"));
    assert!(is_answerable(&message("m1", "1")));
    let mut nameless = message("m1", "1");
    nameless.message_id = " ".to_string();
    assert!(!is_answerable(&nameless));
    assert_eq!(
        gmail_reply_markdown("a", "b", "t", "m", "r", &Vec::new()),
        "---\nto: \"a\"\nsubject: \"b\"\ngmail:\n  thread_id: \"t\"\n  reply_to_message_id: \"m\"\n  in_reply_to: \"r\"\n  references:\n---\n\n"
    );
}
