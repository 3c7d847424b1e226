use loc_cli::args::{first_positional, flag_value, flag_values, has_flag, positional_args};
use loc_cli::cli::{
    dispatch, ConnectCommand, ConnectGoogleDocsArgs, ConnectNotionArgs, ConnectionCommand,
    ConnectionShowArgs, CreateCommand, CreatePageArgs, DaemonArgs, DaemonCommand, DisconnectArgs,
    Dispatch, FileProviderCommand, FileProviderTargetArg, Handler, LocalityCommand, MountCommand,
    MountGoogleDocsArgs, MountNotionArgs, OkfCommand, OkfExportArgs, ParsedCli, PathArg, PushArgs,
    RequiredPathArg, RestoreCliArgs, SearchArgs, TemplateApplyArgs, TemplateNewArgs,
    TemplateValidateArgs, TemplatesCommand, UndoArgs,
};
use loc_cli::daemon::{parse_options, DaemonAction, DaemonStartMode};
use loc_cli::file_provider::WindowsCloudFilesLifecycleAction;
use loc_cli::model::{Failure, ProjectionMode};
use loc_cli::mounting::{mount_arguments, mount_root, MountRoot};
use loc_cli::requests::{
    connect_request, connection_request, create_request, empty_token_failure,
    file_provider_request, okf_request, optional_path, push_request, restore_request,
    search_request, templates_request, ConnectRoute, FileProviderRequest, Listing, OnOne,
    ProviderAction, TemplatesRequest,
};

fn strings(values: &[&str]) -> Vec<String> {
    values.iter().map(|value| value.to_string()).collect()
}

fn some(value: &str) -> Option<String> {
    Some(value.to_string())
}

fn run(command: LocalityCommand) -> (Handler, Vec<String>) {
    match dispatch(&ParsedCli::Command {
        json: true,
        command,
    }) {
        Dispatch::Run {
            handler,
            args,
            json,
        } => {
            assert!(json);
            (handler, args)
        }
        _ => panic!("a command is run"),
    }
}

fn refusal<T>(result: Result<T, Failure>) -> (String, String, i32) {
    match result {
        Ok(_) => panic!("the request is refused"),
        Err(failure) => (failure.error.code, failure.error.message, failure.exit_code),
    }
}

#[test]
fn bare_and_refused_command_lines_run_nothing() {
    assert_eq!(dispatch(&ParsedCli::Bare), Dispatch::Help { exit_code: 0 });
    assert_eq!(
        dispatch(&ParsedCli::Refused { exit_code: 2 }),
        Dispatch::Refuse { exit_code: 2 }
    );
}

#[test]
fn arguments_are_split_into_positionals_and_flags() {
    let args = strings(&[
        "notion", "--name", "work", "--no-browser", "extra", "--name", "late",
    ]);
    assert_eq!(first_positional(&args), Some("notion"));
    assert_eq!(positional_args(&args), strings(&["notion", "extra"]));
    assert_eq!(flag_value(&args, "--name"), Some("work"));
    assert_eq!(flag_values(&args, "--name"), strings(&["work", "late"]));
    assert!(has_flag(&args, "--no-browser"));
    assert!(!has_flag(&args, "--json"));
    assert_eq!(flag_value(&strings(&["--name"]), "--name"), None);
    assert_eq!(flag_value(&strings(&["--name", "--json"]), "--name"), None);
}

#[test]
fn connect_arguments_read_back() {
    let (handler, args) = run(LocalityCommand::Connect {
        command: ConnectCommand::Notion(ConnectNotionArgs {
            name: some("work"),
            token_stdin: false,
            no_browser: true,
            direct_oauth: true,
            broker_url: None,
            redirect_uri: some("http://localhost:1/x"),
        }),
    });
    assert_eq!(handler, Handler::Connect);
    let request = connect_request(&args).expect("connect");
    assert_eq!(request.route, ConnectRoute::NotionDirect);
    assert_eq!(request.name, some("work"));
    assert!(request.no_browser);

    let (_, args) = run(LocalityCommand::Connect {
        command: ConnectCommand::GoogleDocs(ConnectGoogleDocsArgs {
            name: None,
            no_browser: false,
            broker_url: some("https://broker.test"),
            redirect_uri: None,
        }),
    });
    let request = connect_request(&args).expect("connect");
    assert_eq!(request.route, ConnectRoute::GoogleDocs);
    assert_eq!(request.name, None);
    assert!(!request.no_browser);

    assert_eq!(
        connect_request(&strings(&["notion", "--token-stdin"]))
            .expect("connect")
            .route,
        ConnectRoute::NotionToken
    );
    assert_eq!(
        connect_request(&strings(&["notion"])).expect("connect").route,
        ConnectRoute::NotionBroker
    );
    assert_eq!(
        refusal(connect_request(&strings(&["linear"]))),
        (
            "usage".to_string(),
            "usage: loc connect <notion|google-docs> [options] [--json]".to_string(),
            2
        )
    );
    assert_eq!(empty_token_failure().error.code, "auth_required");
    assert_eq!(empty_token_failure().exit_code, 1);
}

#[test]
fn listings_take_no_positional() {
    let (handler, args) = run(LocalityCommand::Connections);
    assert_eq!(handler, Handler::Connections);
    Listing::Connections.check(&args).expect("no arguments");
    assert_eq!(
        refusal(Listing::Profiles.check(&strings(&["x"]))),
        (
            "usage".to_string(),
            "usage: loc profiles [--json]".to_string(),
            2
        )
    );
    assert_eq!(
        refusal(Listing::Connections.check(&strings(&["x"]))).1,
        "usage: loc connections [--json]"
    );
}

#[test]
fn single_positionals_read_back() {
    let (handler, args) = run(LocalityCommand::Disconnect(DisconnectArgs {
        id: "work".to_string(),
    }));
    assert_eq!(handler, Handler::Disconnect);
    assert_eq!(OnOne::Disconnect.request(&args).expect("id"), "work");

    let (handler, args) = run(LocalityCommand::Pull(RequiredPathArg {
        path: "Roadmap.md".to_string(),
    }));
    assert_eq!(handler, Handler::Pull);
    assert_eq!(OnOne::Pull.request(&args).expect("path"), "Roadmap.md");

    let (handler, args) = run(LocalityCommand::Diff(RequiredPathArg {
        path: "Roadmap.md".to_string(),
    }));
    assert_eq!(handler, Handler::Diff);
    assert_eq!(OnOne::Diff.request(&args).expect("path"), "Roadmap.md");

    let (handler, args) = run(LocalityCommand::Undo(UndoArgs {
        push_id: "push-1".to_string(),
    }));
    assert_eq!(handler, Handler::Undo);
    assert_eq!(OnOne::Undo.request(&args).expect("push"), "push-1");

    let (handler, args) = run(LocalityCommand::Inspect(PathArg { path: None }));
    assert_eq!(handler, Handler::Inspect);
    assert_eq!(
        refusal(OnOne::Inspect.request(&args)),
        (
            "usage".to_string(),
            "usage: loc inspect <path> [--json]".to_string(),
            2
        )
    );

    let (_, args) = run(LocalityCommand::Status(PathArg {
        path: some("/tmp/a"),
    }));
    assert_eq!(optional_path(&args), some("/tmp/a"));
    let (_, args) = run(LocalityCommand::Log(PathArg { path: None }));
    assert_eq!(optional_path(&args), None);

    let (handler, args) = run(LocalityCommand::Connection {
        command: ConnectionCommand::Show(ConnectionShowArgs {
            id: "work".to_string(),
        }),
    });
    assert_eq!(handler, Handler::Connection);
    assert_eq!(connection_request(&args).expect("id"), "work");
    assert_eq!(
        refusal(connection_request(&strings(&["show"]))).1,
        "usage: loc connection show <id> [--json]"
    );
}

#[test]
fn push_and_restore_read_back() {
    let (handler, args) = run(LocalityCommand::Push(PushArgs {
        path: "Roadmap.md".to_string(),
        yes: true,
        confirm: false,
    }));
    assert_eq!(handler, Handler::Push);
    let request = push_request(&args).expect("push");
    assert_eq!(request.path, "Roadmap.md");
    assert!(request.options.assume_yes);
    assert!(!request.options.confirm_dangerous);
    assert!(push_request(&strings(&["a", "-y"])).expect("push").options.assume_yes);
    assert_eq!(
        refusal(push_request(&Vec::new())).1,
        "usage: loc push <path> [-y|--yes] [--confirm] [--json]"
    );

    let (handler, args) = run(LocalityCommand::Restore(RestoreCliArgs {
        path: "Roadmap.md".to_string(),
        force: true,
    }));
    assert_eq!(handler, Handler::Restore);
    let request = restore_request(&args).expect("restore");
    assert_eq!(request.path, "Roadmap.md");
    assert!(request.force);
    assert_eq!(
        refusal(restore_request(&Vec::new())).1,
        "usage: loc restore <path> [--force] [--json]"
    );
}

#[test]
fn search_reads_back() {
    let (handler, args) = run(LocalityCommand::Search(SearchArgs {
        query: strings(&["initial", "idea"]),
        connector: some("notion"),
        limit: 25,
        all: true,
    }));
    assert_eq!(handler, Handler::Search);
    let options = search_request(&args).expect("search");
    assert_eq!(options.query, "initial idea");
    assert_eq!(options.connector, some("notion"));
    assert_eq!(options.limit, 25);
    assert!(options.include_stale_access);

    assert_eq!(search_request(&strings(&["idea"])).expect("search").limit, 10);
    assert_eq!(
        refusal(search_request(&strings(&["idea", "--limit", "many"]))),
        (
            "invalid_limit".to_string(),
            "--limit must be a positive integer".to_string(),
            2
        )
    );
}

#[test]
fn create_and_okf_read_back() {
    let (handler, args) = run(LocalityCommand::Create {
        command: CreateCommand::Page(CreatePageArgs {
            title: "Launch Plan".to_string(),
            parent: some("/tmp/notion"),
        }),
    });
    assert_eq!(handler, Handler::Create);
    let request = create_request(&args).expect("create");
    assert_eq!(request.title, "Launch Plan");
    assert_eq!(request.parent, some("/tmp/notion"));
    assert_eq!(
        refusal(create_request(&strings(&["page"]))).0,
        "missing_title"
    );
    assert_eq!(
        refusal(create_request(&strings(&["database"]))).1,
        "usage: loc create <page> [options] [--json]"
    );

    let (handler, args) = run(LocalityCommand::Okf {
        command: OkfCommand::Export(OkfExportArgs {
            path: "/tmp/notion".to_string(),
            out: "/tmp/out".to_string(),
        }),
    });
    assert_eq!(handler, Handler::Okf);
    let request = okf_request(&args).expect("export");
    assert_eq!(request.source, "/tmp/notion");
    assert_eq!(request.output, "/tmp/out");
    assert_eq!(refusal(okf_request(&strings(&["import"]))).0, "usage");
    assert_eq!(refusal(okf_request(&strings(&["export"]))).0, "missing_path");
    assert_eq!(
        refusal(okf_request(&strings(&["export", "/tmp/notion"]))).0,
        "missing_output"
    );
}

#[test]
fn templates_read_back() {
    let (handler, args) = run(LocalityCommand::Templates {
        command: TemplatesCommand::Apply(TemplateApplyArgs {
            pack: "founder".to_string(),
            template: "weekly".to_string(),
            to: "/tmp/notion".to_string(),
            title: some("Week 1"),
            force: true,
        }),
    });
    assert_eq!(handler, Handler::Templates);
    match templates_request(&args).expect("apply") {
        TemplatesRequest::Apply(request) => {
            assert_eq!(request.pack, "founder");
            assert_eq!(request.template, "weekly");
            assert_eq!(request.target_dir, "/tmp/notion");
            assert_eq!(request.title, some("Week 1"));
            assert!(request.force);
        }
        _ => panic!("a template is applied"),
    }

    let (_, args) = run(LocalityCommand::Templates {
        command: TemplatesCommand::New(TemplateNewArgs {
            pack: "founder".to_string(),
            path: "/tmp/founder".to_string(),
            force: false,
        }),
    });
    match templates_request(&args).expect("new") {
        TemplatesRequest::New(request) => {
            assert_eq!(request.pack, "founder");
            assert_eq!(request.path, "/tmp/founder");
            assert!(!request.force);
        }
        _ => panic!("a pack is made"),
    }

    let (_, args) = run(LocalityCommand::Templates {
        command: TemplatesCommand::Validate(TemplateValidateArgs {
            path: "/tmp/founder".to_string(),
        }),
    });
    assert!(matches!(
        templates_request(&args).expect("validate"),
        TemplatesRequest::Validate(request) if request.path == "/tmp/founder"
    ));

    let (_, args) = run(LocalityCommand::Templates {
        command: TemplatesCommand::List,
    });
    assert_eq!(templates_request(&args).expect("list"), TemplatesRequest::List);

    assert_eq!(
        refusal(templates_request(&strings(&["validate"]))).1,
        "usage: loc templates validate <path> [--json]"
    );
    assert_eq!(
        refusal(templates_request(&strings(&["new", "founder"]))).1,
        "usage: loc templates new <pack> <path> [--force] [--json]"
    );
    assert_eq!(
        refusal(templates_request(&strings(&["apply", "founder", "weekly"]))).1,
        "usage: loc templates apply <pack> <template> --to <dir> [--title <title>] [--force] [--json]"
    );
    assert_eq!(
        refusal(templates_request(&Vec::new())).1,
        "usage: loc templates list|validate|new|apply [--json]"
    );
}

#[test]
fn file_provider_reads_back() {
    let target = || FileProviderTargetArg {
        target: "notion-main".to_string(),
    };
    let cases = vec![
        (
            FileProviderCommand::Register(target()),
            ProviderAction::Register,
        ),
        (
            FileProviderCommand::Start(target()),
            ProviderAction::Lifecycle(WindowsCloudFilesLifecycleAction::Start),
        ),
        (FileProviderCommand::Run(target()), ProviderAction::Run),
        (
            FileProviderCommand::Stop(target()),
            ProviderAction::Lifecycle(WindowsCloudFilesLifecycleAction::Stop),
        ),
        (
            FileProviderCommand::Status(target()),
            ProviderAction::Lifecycle(WindowsCloudFilesLifecycleAction::Status),
        ),
        (
            FileProviderCommand::Restart(target()),
            ProviderAction::Lifecycle(WindowsCloudFilesLifecycleAction::Restart),
        ),
        (FileProviderCommand::Open(target()), ProviderAction::Open),
        (
            FileProviderCommand::Unregister(target()),
            ProviderAction::Unregister,
        ),
    ];
    for (command, action) in cases {
        let (handler, args) = run(LocalityCommand::FileProvider { command });
        assert_eq!(handler, Handler::FileProvider);
        match file_provider_request(&args).expect("request") {
            FileProviderRequest::OnMount(request) => {
                assert_eq!(request.action, action);
                assert_eq!(request.target, "notion-main");
            }
            _ => panic!("a mount is meant"),
        }
    }
    let (_, args) = run(LocalityCommand::FileProvider {
        command: FileProviderCommand::List,
    });
    assert_eq!(
        file_provider_request(&args).expect("list"),
        FileProviderRequest::List
    );
    let (_, args) = run(LocalityCommand::FileProvider {
        command: FileProviderCommand::Reset,
    });
    assert_eq!(
        file_provider_request(&args).expect("reset"),
        FileProviderRequest::Reset
    );

    assert_eq!(
        refusal(file_provider_request(&strings(&["open"]))).1,
        "usage: loc file-provider open <mount-id-or-path> [--json]"
    );
    assert_eq!(
        refusal(file_provider_request(&strings(&["pause", "x"]))).1,
        "usage: loc file-provider register|start|run|stop|status|restart|open|unregister|list|reset"
    );
    assert_eq!(
        refusal(file_provider_request(&Vec::new())).1,
        "usage: loc file-provider register|start|run|stop|status|restart|open|unregister <mount-id-or-path> [--json]"
    );
}

#[test]
fn daemon_arguments_read_back() {
    let (handler, args) = run(LocalityCommand::Daemon {
        command: DaemonCommand::Restart(DaemonArgs {
            session: false,
            launchd: true,
            localityd_bin: some("/opt/localityd"),
            state_dir: None,
            tcp_addr: None,
            include_env: strings(&["A", "B"]),
        }),
    });
    assert_eq!(handler, Handler::Daemon);
    let options = parse_options(&args, "/home/ada/.loc", &some("127.0.0.1:1")).expect("options");
    assert_eq!(options.action, DaemonAction::Restart);
    assert_eq!(options.mode, DaemonStartMode::Launchd);
    assert_eq!(options.localityd_bin, some("/opt/localityd"));
    assert_eq!(options.state_root, "/home/ada/.loc");
    assert_eq!(options.tcp_addr, some("127.0.0.1:1"));
    assert_eq!(options.include_env, strings(&["A", "B"]));

    for action in [
        DaemonAction::Start,
        DaemonAction::Stop,
        DaemonAction::Status,
        DaemonAction::Reload,
        DaemonAction::Restart,
    ] {
        assert_eq!(DaemonAction::parse(action.as_str()), Some(action));
    }
    assert_eq!(DaemonAction::parse("pause"), None);
}

#[test]
fn mount_arguments_read_back() {
    let (handler, args) = run(LocalityCommand::Mount {
        command: MountCommand::Notion(MountNotionArgs {
            path: "/tmp/Locality/notion".to_string(),
            workspace: false,
            root_page: some("page-1"),
            connection: some("work"),
            mount_id: some("notion-work"),
            projection: some("linux-fuse"),
            read_only: true,
        }),
    });
    assert_eq!(handler, Handler::Mount);
    let asked = mount_arguments(&args, "linux").expect("mount");
    assert_eq!(asked.connector, "notion");
    assert_eq!(asked.root, "/tmp/Locality/notion");
    assert_eq!(asked.projection, ProjectionMode::LinuxFuse);
    assert_eq!(asked.mount_id, some("notion-work"));
    assert!(asked.read_only);
    assert_eq!(
        mount_root("notion", &args).expect("root"),
        MountRoot::NotionPage("page-1".to_string())
    );
    assert_eq!(
        mount_arguments(&args, "macos").expect_err("projection").code,
        "usage"
    );

    let (_, args) = run(LocalityCommand::Mount {
        command: MountCommand::GoogleDocs(MountGoogleDocsArgs {
            path: "/tmp/Locality/docs".to_string(),
            workspace_folder: "Team".to_string(),
            connection: None,
            mount_id: None,
            projection: None,
            read_only: false,
        }),
    });
    let asked = mount_arguments(&args, "macos").expect("mount");
    assert_eq!(asked.connector, "google-docs");
    assert_eq!(asked.projection, ProjectionMode::PlainFiles);
    assert_eq!(asked.mount_id, None);
    assert!(!asked.read_only);
    assert_eq!(
        mount_root("google-docs", &args).expect("root"),
        MountRoot::GoogleDocsFolder("Team".to_string())
    );

    assert_eq!(
        mount_root("notion", &strings(&["notion", "/x", "--workspace"])).expect("root"),
        MountRoot::NotionWorkspace
    );
    for (connector, args, message) in [
        (
            "notion",
            vec!["--workspace", "--root-page", "p"],
            "loc mount notion accepts either --workspace or --root-page <page-id>, not both",
        ),
        (
            "notion",
            vec![],
            "loc mount notion requires --workspace or --root-page <page-id>",
        ),
        (
            "google-docs",
            vec!["--workspace"],
            "loc mount google-docs uses --workspace-folder <name-or-id>, not Notion root flags",
        ),
        (
            "google-docs",
            vec![],
            "loc mount google-docs requires --workspace-folder <name-or-id>",
        ),
        (
            "linear",
            vec![],
            "loc mount linear is not supported by this build",
        ),
    ] {
        let error = mount_root(connector, &strings(&args)).expect_err("refused");
        assert_eq!(error.code, "usage");
        assert_eq!(error.message, message);
    }
}
