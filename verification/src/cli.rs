//! The parsed command line and the argument list that each command runs on.
use vstd::prelude::*;

use crate::text;

verus! {

/// The exit code of a command that did what it was asked to.
pub const EXIT_SUCCESS: i32 = 0;

/// The exit code of a command that failed on its own side.
pub const EXIT_INTERNAL: i32 = 1;

/// The exit code of a command that was called wrongly.
pub const EXIT_USAGE: i32 = 2;

/// The exit code of a command whose input does not validate.
pub const EXIT_VALIDATION: i32 = 3;

/// A subcommand of `loc`, as parsed.
#[allow(inconsistent_fields)]
#[derive(Debug, PartialEq, Eq)]
pub enum LocalityCommand {
    Connect { command: ConnectCommand },
    Connections,
    Profiles,
    Connection { command: ConnectionCommand },
    Disconnect(DisconnectArgs),
    Daemon { command: DaemonCommand },
    Mount { command: MountCommand },
    Info(PathArg),
    Status(PathArg),
    Doctor,
    Search(SearchArgs),
    Create { command: CreateCommand },
    Templates { command: TemplatesCommand },
    Okf { command: OkfCommand },
    Inspect(PathArg),
    Pull(RequiredPathArg),
    Push(PushArgs),
    Diff(RequiredPathArg),
    Undo(UndoArgs),
    Log(PathArg),
    Restore(RestoreCliArgs),
    Config,
    Mcp,
    FileProvider { command: FileProviderCommand },
}

#[derive(Debug, PartialEq, Eq)]
pub enum ConnectCommand {
    Notion(ConnectNotionArgs),
    GoogleDocs(ConnectGoogleDocsArgs),
}

#[derive(Debug, PartialEq, Eq)]
pub struct ConnectNotionArgs {
    pub name: Option<String>,
    pub token_stdin: bool,
    pub no_browser: bool,
    pub direct_oauth: bool,
    pub broker_url: Option<String>,
    pub redirect_uri: Option<String>,
}

#[derive(Debug, PartialEq, Eq)]
pub struct ConnectGoogleDocsArgs {
    pub name: Option<String>,
    pub no_browser: bool,
    pub broker_url: Option<String>,
    pub redirect_uri: Option<String>,
}

#[derive(Debug, PartialEq, Eq)]
pub enum ConnectionCommand {
    Show(ConnectionShowArgs),
}

#[derive(Debug, PartialEq, Eq)]
pub struct ConnectionShowArgs {
    pub id: String,
}

#[derive(Debug, PartialEq, Eq)]
pub struct DisconnectArgs {
    pub id: String,
}

#[derive(Debug, PartialEq, Eq)]
pub enum DaemonCommand {
    Start(DaemonArgs),
    Stop(DaemonArgs),
    Status(DaemonArgs),
    Reload(DaemonArgs),
    Restart(DaemonArgs),
}

#[derive(Debug, PartialEq, Eq)]
pub struct DaemonArgs {
    pub session: bool,
    pub launchd: bool,
    pub localityd_bin: Option<String>,
    pub state_dir: Option<String>,
    pub tcp_addr: Option<String>,
    pub include_env: Vec<String>,
}

#[derive(Debug, PartialEq, Eq)]
pub enum MountCommand {
    Notion(MountNotionArgs),
    GoogleDocs(MountGoogleDocsArgs),
}

#[derive(Debug, PartialEq, Eq)]
pub struct MountNotionArgs {
    pub path: String,
    pub workspace: bool,
    pub root_page: Option<String>,
    pub connection: Option<String>,
    pub mount_id: Option<String>,
    pub projection: Option<String>,
    pub read_only: bool,
}

#[derive(Debug, PartialEq, Eq)]
pub struct MountGoogleDocsArgs {
    pub path: String,
    pub workspace_folder: String,
    pub connection: Option<String>,
    pub mount_id: Option<String>,
    pub projection: Option<String>,
    pub read_only: bool,
}

#[derive(Debug, PartialEq, Eq)]
pub struct PathArg {
    pub path: Option<String>,
}

#[derive(Debug, PartialEq, Eq)]
pub struct RequiredPathArg {
    pub path: String,
}

#[derive(Debug, PartialEq, Eq)]
pub struct PushArgs {
    pub path: String,
    pub yes: bool,
    pub confirm: bool,
}

#[derive(Debug, PartialEq, Eq)]
pub struct UndoArgs {
    pub push_id: String,
}

#[derive(Debug, PartialEq, Eq)]
pub struct RestoreCliArgs {
    pub path: String,
    pub force: bool,
}

#[derive(Debug, PartialEq, Eq)]
pub struct SearchArgs {
    pub query: Vec<String>,
    pub connector: Option<String>,
    pub limit: usize,
    pub all: bool,
}

#[derive(Debug, PartialEq, Eq)]
pub enum CreateCommand {
    Page(CreatePageArgs),
}

#[derive(Debug, PartialEq, Eq)]
pub struct CreatePageArgs {
    pub title: String,
    pub parent: Option<String>,
}

#[derive(Debug, PartialEq, Eq)]
pub enum TemplatesCommand {
    List,
    Validate(TemplateValidateArgs),
    New(TemplateNewArgs),
    Apply(TemplateApplyArgs),
}

#[derive(Debug, PartialEq, Eq)]
pub struct TemplateValidateArgs {
    pub path: String,
}

#[derive(Debug, PartialEq, Eq)]
pub struct TemplateNewArgs {
    pub pack: String,
    pub path: String,
    pub force: bool,
}

#[derive(Debug, PartialEq, Eq)]
pub struct TemplateApplyArgs {
    pub pack: String,
    pub template: String,
    pub to: String,
    pub title: Option<String>,
    pub force: bool,
}

#[derive(Debug, PartialEq, Eq)]
pub enum OkfCommand {
    Export(OkfExportArgs),
}

#[derive(Debug, PartialEq, Eq)]
pub struct OkfExportArgs {
    pub path: String,
    pub out: String,
}

#[derive(Debug, PartialEq, Eq)]
pub enum FileProviderCommand {
    Register(FileProviderTargetArg),
    Start(FileProviderTargetArg),
    Run(FileProviderTargetArg),
    Stop(FileProviderTargetArg),
    Status(FileProviderTargetArg),
    Restart(FileProviderTargetArg),
    Open(FileProviderTargetArg),
    Unregister(FileProviderTargetArg),
    List,
    Reset,
}

#[derive(Debug, PartialEq, Eq)]
pub struct FileProviderTargetArg {
    pub target: String,
}

/// `flag` on its own, where it is set.
pub open spec fn switch(flag: Seq<char>, on: bool) -> Seq<Seq<char>> {
    if on {
        seq![flag]
    } else {
        Seq::empty()
    }
}

/// `flag` and its value, where there is one.
pub open spec fn option(flag: Seq<char>, value: Option<String>) -> Seq<Seq<char>> {
    match value {
        Some(v) => seq![flag, v@],
        None => Seq::empty(),
    }
}

/// A positional, where there is one.
pub open spec fn positional(value: Option<String>) -> Seq<Seq<char>> {
    match value {
        Some(v) => seq![v@],
        None => Seq::empty(),
    }
}

/// `flag` in front of each of `values`.
pub open spec fn repeated(flag: Seq<char>, values: Seq<Seq<char>>) -> Seq<Seq<char>>
    decreases values.len(),
{
    if values.len() == 0 {
        Seq::empty()
    } else {
        repeated(flag, values.drop_last()) + seq![flag, values.last()]
    }
}

impl ConnectCommand {
    pub open spec fn arguments(self) -> Seq<Seq<char>> {
        match self {
            ConnectCommand::Notion(o) => seq!["connect"@, "notion"@] + option("--name"@, o.name)
                + switch("--token-stdin"@, o.token_stdin) + switch("--no-browser"@, o.no_browser)
                + switch("--direct-oauth"@, o.direct_oauth) + option("--broker-url"@, o.broker_url)
                + option("--redirect-uri"@, o.redirect_uri),
            ConnectCommand::GoogleDocs(o) => seq!["connect"@, "google-docs"@] + option(
                "--name"@,
                o.name,
            ) + switch("--no-browser"@, o.no_browser) + option("--broker-url"@, o.broker_url)
                + option("--redirect-uri"@, o.redirect_uri),
        }
    }
}

impl DaemonArgs {
    pub open spec fn arguments(self) -> Seq<Seq<char>> {
        switch("--session"@, self.session) + switch("--launchd"@, self.launchd) + option(
            "--localityd-bin"@,
            self.localityd_bin,
        ) + option("--state-dir"@, self.state_dir) + option("--tcp-addr"@, self.tcp_addr)
            + repeated("--include-env"@, text::texts(self.include_env@))
    }
}

impl DaemonCommand {
    pub open spec fn arguments(self) -> Seq<Seq<char>> {
        match self {
            DaemonCommand::Start(o) => seq!["daemon"@, "start"@] + o.arguments(),
            DaemonCommand::Stop(o) => seq!["daemon"@, "stop"@] + o.arguments(),
            DaemonCommand::Status(o) => seq!["daemon"@, "status"@] + o.arguments(),
            DaemonCommand::Reload(o) => seq!["daemon"@, "reload"@] + o.arguments(),
            DaemonCommand::Restart(o) => seq!["daemon"@, "restart"@] + o.arguments(),
        }
    }
}

impl MountCommand {
    pub open spec fn arguments(self) -> Seq<Seq<char>> {
        match self {
            MountCommand::Notion(o) => seq!["mount"@, "notion"@, o.path@] + switch(
                "--workspace"@,
                o.workspace,
            ) + option("--root-page"@, o.root_page) + option("--connection"@, o.connection)
                + option("--mount-id"@, o.mount_id) + option("--projection"@, o.projection)
                + switch("--read-only"@, o.read_only),
            MountCommand::GoogleDocs(o) => seq![
                "mount"@,
                "google-docs"@,
                o.path@,
                "--workspace-folder"@,
                o.workspace_folder@,
            ] + option("--connection"@, o.connection) + option("--mount-id"@, o.mount_id)
                + option("--projection"@, o.projection) + switch("--read-only"@, o.read_only),
        }
    }
}

impl TemplatesCommand {
    pub open spec fn arguments(self) -> Seq<Seq<char>> {
        match self {
            TemplatesCommand::List => seq!["templates"@, "list"@],
            TemplatesCommand::Validate(o) => seq!["templates"@, "validate"@, o.path@],
            TemplatesCommand::New(o) => seq!["templates"@, "new"@, o.pack@, o.path@] + switch(
                "--force"@,
                o.force,
            ),
            TemplatesCommand::Apply(o) => seq![
                "templates"@,
                "apply"@,
                o.pack@,
                o.template@,
                "--to"@,
                o.to@,
            ] + option("--title"@, o.title) + switch("--force"@, o.force),
        }
    }
}

impl FileProviderCommand {
    pub open spec fn arguments(self) -> Seq<Seq<char>> {
        match self {
            FileProviderCommand::Register(o) => seq!["file-provider"@, "register"@, o.target@],
            FileProviderCommand::Start(o) => seq!["file-provider"@, "start"@, o.target@],
            FileProviderCommand::Run(o) => seq!["file-provider"@, "run"@, o.target@],
            FileProviderCommand::Stop(o) => seq!["file-provider"@, "stop"@, o.target@],
            FileProviderCommand::Status(o) => seq!["file-provider"@, "status"@, o.target@],
            FileProviderCommand::Restart(o) => seq!["file-provider"@, "restart"@, o.target@],
            FileProviderCommand::Open(o) => seq!["file-provider"@, "open"@, o.target@],
            FileProviderCommand::Unregister(o) => seq!["file-provider"@, "unregister"@, o.target@],
            FileProviderCommand::List => seq!["file-provider"@, "list"@],
            FileProviderCommand::Reset => seq!["file-provider"@, "reset"@],
        }
    }
}

impl SearchArgs {
    pub open spec fn arguments(self) -> Seq<Seq<char>> {
        seq!["search"@] + text::texts(self.query@) + option("--connector"@, self.connector) + seq![
            "--limit"@,
            text::decimal(self.limit as nat),
        ] + switch("--all"@, self.all)
    }
}

impl LocalityCommand {
    /// The arguments that the command runs on: its name, its positionals and
    /// its flags, in a fixed order.
    pub open spec fn arguments(self) -> Seq<Seq<char>> {
        match self {
            LocalityCommand::Connect { command } => command.arguments(),
            LocalityCommand::Connections => seq!["connections"@],
            LocalityCommand::Profiles => seq!["profiles"@],
            LocalityCommand::Connection { command: ConnectionCommand::Show(o) } => seq![
                "connection"@,
                "show"@,
                o.id@,
            ],
            LocalityCommand::Disconnect(o) => seq!["disconnect"@, o.id@],
            LocalityCommand::Daemon { command } => command.arguments(),
            LocalityCommand::Mount { command } => command.arguments(),
            LocalityCommand::Info(o) => seq!["info"@] + positional(o.path),
            LocalityCommand::Status(o) => seq!["status"@] + positional(o.path),
            LocalityCommand::Doctor => seq!["doctor"@],
            LocalityCommand::Search(o) => o.arguments(),
            LocalityCommand::Create { command: CreateCommand::Page(o) } => seq![
                "create"@,
                "page"@,
                "--title"@,
                o.title@,
            ] + option("--parent"@, o.parent),
            LocalityCommand::Templates { command } => command.arguments(),
            LocalityCommand::Okf { command: OkfCommand::Export(o) } => seq![
                "okf"@,
                "export"@,
                o.path@,
                "--out"@,
                o.out@,
            ],
            LocalityCommand::Inspect(o) => seq!["inspect"@] + positional(o.path),
            LocalityCommand::Pull(o) => seq!["pull"@, o.path@],
            LocalityCommand::Push(o) => seq!["push"@, o.path@] + switch("--yes"@, o.yes) + switch(
                "--confirm"@,
                o.confirm,
            ),
            LocalityCommand::Diff(o) => seq!["diff"@, o.path@],
            LocalityCommand::Undo(o) => seq!["undo"@, o.push_id@],
            LocalityCommand::Log(o) => seq!["log"@] + positional(o.path),
            LocalityCommand::Restore(o) => seq!["restore"@, o.path@] + switch("--force"@, o.force),
            LocalityCommand::Config => seq!["config"@],
            LocalityCommand::Mcp => seq!["mcp"@],
            LocalityCommand::FileProvider { command } => command.arguments(),
        }
    }
}

/// Appends `flag` where it is set.
pub fn push_flag(args: &mut Vec<String>, flag: &str, enabled: bool)
    ensures
        text::texts(final(args)@) == text::texts(old(args)@) + switch(flag@, enabled),
{
    if enabled {
        text::push_text(args, flag);
    }
}

/// Appends a positional where there is one.
pub fn push_optional_positional(args: &mut Vec<String>, value: &Option<String>)
    ensures
        text::texts(final(args)@) == text::texts(old(args)@) + positional(*value),
{
    if let Some(value) = value {
        text::push_text(args, value);
    }
}

/// Appends `flag` and its value.
pub fn push_flag_value(args: &mut Vec<String>, flag: &str, value: &str)
    ensures
        text::texts(final(args)@) == text::texts(old(args)@) + seq![flag@, value@],
{
    text::push_text(args, flag);
    text::push_text(args, value);
}

/// Appends `flag` and its value where there is one.
pub fn push_optional_flag_value(args: &mut Vec<String>, flag: &str, value: &Option<String>)
    ensures
        text::texts(final(args)@) == text::texts(old(args)@) + option(flag@, *value),
{
    if let Some(value) = value {
        push_flag_value(args, flag, value);
    }
}

/// Appends the flags of a daemon subcommand.
pub fn push_daemon_args(args: &mut Vec<String>, options: &DaemonArgs)
    ensures
        text::texts(final(args)@) == text::texts(old(args)@) + options.arguments(),
{
    push_flag(args, "--session", options.session);
    push_flag(args, "--launchd", options.launchd);
    push_optional_flag_value(args, "--localityd-bin", &options.localityd_bin);
    push_optional_flag_value(args, "--state-dir", &options.state_dir);
    push_optional_flag_value(args, "--tcp-addr", &options.tcp_addr);
    let ghost before = text::texts(args@);
    let ghost envs = text::texts(options.include_env@);
    let mut i: usize = 0;
    assert(envs.take(0) == Seq::<Seq<char>>::empty());
    while i < options.include_env.len()
        invariant
            i <= options.include_env.len(),
            envs == text::texts(options.include_env@),
            text::texts(args@) == before + repeated("--include-env"@, envs.take(i as int)),
        decreases options.include_env.len() - i,
    {
        push_flag_value(args, "--include-env", &options.include_env[i]);
        assert(envs.take(i + 1).drop_last() == envs.take(i as int));
        i += 1;
    }
    assert(envs.take(i as int) == envs);
    assert(text::texts(args@) == text::texts(old(args)@) + options.arguments());
}

fn one(a: &str) -> (r: Vec<String>)
    ensures
        text::texts(r@) == seq![a@],
{
    let mut args: Vec<String> = Vec::new();
    text::push_text(&mut args, a);
    assert(text::texts(args@) =~= seq![a@]);
    args
}

fn two(a: &str, b: &str) -> (r: Vec<String>)
    ensures
        text::texts(r@) == seq![a@, b@],
{
    let mut args = one(a);
    text::push_text(&mut args, b);
    args
}

fn three(a: &str, b: &str, c: &str) -> (r: Vec<String>)
    ensures
        text::texts(r@) == seq![a@, b@, c@],
{
    let mut args = two(a, b);
    text::push_text(&mut args, c);
    args
}

fn connect_arguments(command: &ConnectCommand) -> (r: Vec<String>)
    ensures
        text::texts(r@) == command.arguments(),
{
    match command {
        ConnectCommand::Notion(options) => {
            let mut args = two("connect", "notion");
            push_optional_flag_value(&mut args, "--name", &options.name);
            push_flag(&mut args, "--token-stdin", options.token_stdin);
            push_flag(&mut args, "--no-browser", options.no_browser);
            push_flag(&mut args, "--direct-oauth", options.direct_oauth);
            push_optional_flag_value(&mut args, "--broker-url", &options.broker_url);
            push_optional_flag_value(&mut args, "--redirect-uri", &options.redirect_uri);
            args
        },
        ConnectCommand::GoogleDocs(options) => {
            let mut args = two("connect", "google-docs");
            push_optional_flag_value(&mut args, "--name", &options.name);
            push_flag(&mut args, "--no-browser", options.no_browser);
            push_optional_flag_value(&mut args, "--broker-url", &options.broker_url);
            push_optional_flag_value(&mut args, "--redirect-uri", &options.redirect_uri);
            args
        },
    }
}

fn daemon_arguments(command: &DaemonCommand) -> (r: Vec<String>)
    ensures
        text::texts(r@) == command.arguments(),
{
    let (name, options) = match command {
        DaemonCommand::Start(options) => ("start", options),
        DaemonCommand::Stop(options) => ("stop", options),
        DaemonCommand::Status(options) => ("status", options),
        DaemonCommand::Reload(options) => ("reload", options),
        DaemonCommand::Restart(options) => ("restart", options),
    };
    let mut args = two("daemon", name);
    push_daemon_args(&mut args, options);
    args
}

fn mount_arguments(command: &MountCommand) -> (r: Vec<String>)
    ensures
        text::texts(r@) == command.arguments(),
{
    match command {
        MountCommand::Notion(options) => {
            let mut args = three("mount", "notion", &options.path);
            push_flag(&mut args, "--workspace", options.workspace);
            push_optional_flag_value(&mut args, "--root-page", &options.root_page);
            push_optional_flag_value(&mut args, "--connection", &options.connection);
            push_optional_flag_value(&mut args, "--mount-id", &options.mount_id);
            push_optional_flag_value(&mut args, "--projection", &options.projection);
            push_flag(&mut args, "--read-only", options.read_only);
            args
        },
        MountCommand::GoogleDocs(options) => {
            let mut args = three("mount", "google-docs", &options.path);
            push_flag_value(&mut args, "--workspace-folder", &options.workspace_folder);
            assert(text::texts(args@) =~= seq![
                "mount"@,
                "google-docs"@,
                options.path@,
                "--workspace-folder"@,
                options.workspace_folder@,
            ]);
            push_optional_flag_value(&mut args, "--connection", &options.connection);
            push_optional_flag_value(&mut args, "--mount-id", &options.mount_id);
            push_optional_flag_value(&mut args, "--projection", &options.projection);
            push_flag(&mut args, "--read-only", options.read_only);
            args
        },
    }
}

fn search_arguments(options: &SearchArgs) -> (r: Vec<String>)
    ensures
        text::texts(r@) == options.arguments(),
{
    let mut args = one("search");
    let ghost parts = text::texts(options.query@);
    let mut i: usize = 0;
    while i < options.query.len()
        invariant
            i <= options.query.len(),
            parts == text::texts(options.query@),
            text::texts(args@) == seq!["search"@] + parts.take(i as int),
        decreases options.query.len() - i,
    {
        text::push_text(&mut args, &options.query[i]);
        assert(parts.take(i + 1) == parts.take(i as int).push(parts[i as int]));
        i += 1;
    }
    assert(parts.take(i as int) == parts);
    push_optional_flag_value(&mut args, "--connector", &options.connector);
    let limit = text::decimal_text(options.limit as u128);
    push_flag_value(&mut args, "--limit", &limit);
    push_flag(&mut args, "--all", options.all);
    args
}

fn templates_arguments(command: &TemplatesCommand) -> (r: Vec<String>)
    ensures
        text::texts(r@) == command.arguments(),
{
    match command {
        TemplatesCommand::List => two("templates", "list"),
        TemplatesCommand::Validate(options) => three("templates", "validate", &options.path),
        TemplatesCommand::New(options) => {
            let mut args = three("templates", "new", &options.pack);
            text::push_text(&mut args, &options.path);
            push_flag(&mut args, "--force", options.force);
            args
        },
        TemplatesCommand::Apply(options) => {
            let mut args = three("templates", "apply", &options.pack);
            text::push_text(&mut args, &options.template);
            push_flag_value(&mut args, "--to", &options.to);
            assert(text::texts(args@) =~= seq![
                "templates"@,
                "apply"@,
                options.pack@,
                options.template@,
                "--to"@,
                options.to@,
            ]);
            push_optional_flag_value(&mut args, "--title", &options.title);
            push_flag(&mut args, "--force", options.force);
            args
        },
    }
}

fn file_provider_arguments(command: &FileProviderCommand) -> (r: Vec<String>)
    ensures
        text::texts(r@) == command.arguments(),
{
    let (name, options) = match command {
        FileProviderCommand::Register(options) => ("register", options),
        FileProviderCommand::Start(options) => ("start", options),
        FileProviderCommand::Run(options) => ("run", options),
        FileProviderCommand::Stop(options) => ("stop", options),
        FileProviderCommand::Status(options) => ("status", options),
        FileProviderCommand::Restart(options) => ("restart", options),
        FileProviderCommand::Open(options) => ("open", options),
        FileProviderCommand::Unregister(options) => ("unregister", options),
        FileProviderCommand::List => {
            return two("file-provider", "list");
        },
        FileProviderCommand::Reset => {
            return two("file-provider", "reset");
        },
    };
    three("file-provider", name, &options.target)
}

fn named_with_path(name: &str, path: &Option<String>) -> (r: Vec<String>)
    ensures
        text::texts(r@) == seq![name@] + positional(*path),
{
    let mut args = one(name);
    push_optional_positional(&mut args, path);
    args
}

/// The argument list that a parsed command runs on.
pub fn legacy_args_for_command(command: &LocalityCommand) -> (r: Vec<String>)
    ensures
        text::texts(r@) == command.arguments(),
{
    match command {
        LocalityCommand::Connect { command } => connect_arguments(command),
        LocalityCommand::Connections => one("connections"),
        LocalityCommand::Profiles => one("profiles"),
        LocalityCommand::Connection { command: ConnectionCommand::Show(options) } => three(
            "connection",
            "show",
            &options.id,
        ),
        LocalityCommand::Disconnect(options) => two("disconnect", &options.id),
        LocalityCommand::Daemon { command } => daemon_arguments(command),
        LocalityCommand::Mount { command } => mount_arguments(command),
        LocalityCommand::Info(options) => named_with_path("info", &options.path),
        LocalityCommand::Status(options) => named_with_path("status", &options.path),
        LocalityCommand::Doctor => one("doctor"),
        LocalityCommand::Search(options) => search_arguments(options),
        LocalityCommand::Create { command: CreateCommand::Page(options) } => {
            let mut args = two("create", "page");
            push_flag_value(&mut args, "--title", &options.title);
            assert(text::texts(args@) =~= seq!["create"@, "page"@, "--title"@, options.title@]);
            push_optional_flag_value(&mut args, "--parent", &options.parent);
            args
        },
        LocalityCommand::Templates { command } => templates_arguments(command),
        LocalityCommand::Okf { command: OkfCommand::Export(options) } => {
            let mut args = three("okf", "export", &options.path);
            push_flag_value(&mut args, "--out", &options.out);
            args
        },
        LocalityCommand::Inspect(options) => named_with_path("inspect", &options.path),
        LocalityCommand::Pull(options) => two("pull", &options.path),
        LocalityCommand::Push(options) => {
            let mut args = two("push", &options.path);
            push_flag(&mut args, "--yes", options.yes);
            push_flag(&mut args, "--confirm", options.confirm);
            args
        },
        LocalityCommand::Diff(options) => two("diff", &options.path),
        LocalityCommand::Undo(options) => two("undo", &options.push_id),
        LocalityCommand::Log(options) => named_with_path("log", &options.path),
        LocalityCommand::Restore(options) => {
            let mut args = two("restore", &options.path);
            push_flag(&mut args, "--force", options.force);
            args
        },
        LocalityCommand::Config => one("config"),
        LocalityCommand::Mcp => one("mcp"),
        LocalityCommand::FileProvider { command } => file_provider_arguments(command),
    }
}

/// Which command runs.
#[derive(Clone, Copy, Debug, PartialEq, Eq, Structural)]
pub enum Handler {
    Connect,
    Connections,
    Profiles,
    Connection,
    Disconnect,
    Daemon,
    Mount,
    Info,
    Status,
    Doctor,
    Search,
    Create,
    Templates,
    Okf,
    Inspect,
    Pull,
    Push,
    Diff,
    Undo,
    Log,
    Restore,
    Config,
    Mcp,
    FileProvider,
}

impl LocalityCommand {
    /// The command that runs for this parse.
    pub open spec fn handler_spec(self) -> Handler {
        match self {
            LocalityCommand::Connect { .. } => Handler::Connect,
            LocalityCommand::Connections => Handler::Connections,
            LocalityCommand::Profiles => Handler::Profiles,
            LocalityCommand::Connection { .. } => Handler::Connection,
            LocalityCommand::Disconnect(_) => Handler::Disconnect,
            LocalityCommand::Daemon { .. } => Handler::Daemon,
            LocalityCommand::Mount { .. } => Handler::Mount,
            LocalityCommand::Info(_) => Handler::Info,
            LocalityCommand::Status(_) => Handler::Status,
            LocalityCommand::Doctor => Handler::Doctor,
            LocalityCommand::Search(_) => Handler::Search,
            LocalityCommand::Create { .. } => Handler::Create,
            LocalityCommand::Templates { .. } => Handler::Templates,
            LocalityCommand::Okf { .. } => Handler::Okf,
            LocalityCommand::Inspect(_) => Handler::Inspect,
            LocalityCommand::Pull(_) => Handler::Pull,
            LocalityCommand::Push(_) => Handler::Push,
            LocalityCommand::Diff(_) => Handler::Diff,
            LocalityCommand::Undo(_) => Handler::Undo,
            LocalityCommand::Log(_) => Handler::Log,
            LocalityCommand::Restore(_) => Handler::Restore,
            LocalityCommand::Config => Handler::Config,
            LocalityCommand::Mcp => Handler::Mcp,
            LocalityCommand::FileProvider { .. } => Handler::FileProvider,
        }
    }

    /// The command that runs for this parse.
    pub fn handler(&self) -> (r: Handler)
        ensures
            r == self.handler_spec(),
    {
        match self {
            LocalityCommand::Connect { .. } => Handler::Connect,
            LocalityCommand::Connections => Handler::Connections,
            LocalityCommand::Profiles => Handler::Profiles,
            LocalityCommand::Connection { .. } => Handler::Connection,
            LocalityCommand::Disconnect(_) => Handler::Disconnect,
            LocalityCommand::Daemon { .. } => Handler::Daemon,
            LocalityCommand::Mount { .. } => Handler::Mount,
            LocalityCommand::Info(_) => Handler::Info,
            LocalityCommand::Status(_) => Handler::Status,
            LocalityCommand::Doctor => Handler::Doctor,
            LocalityCommand::Search(_) => Handler::Search,
            LocalityCommand::Create { .. } => Handler::Create,
            LocalityCommand::Templates { .. } => Handler::Templates,
            LocalityCommand::Okf { .. } => Handler::Okf,
            LocalityCommand::Inspect(_) => Handler::Inspect,
            LocalityCommand::Pull(_) => Handler::Pull,
            LocalityCommand::Push(_) => Handler::Push,
            LocalityCommand::Diff(_) => Handler::Diff,
            LocalityCommand::Undo(_) => Handler::Undo,
            LocalityCommand::Log(_) => Handler::Log,
            LocalityCommand::Restore(_) => Handler::Restore,
            LocalityCommand::Config => Handler::Config,
            LocalityCommand::Mcp => Handler::Mcp,
            LocalityCommand::FileProvider { .. } => Handler::FileProvider,
        }
    }
}

/// What parsing the command line gave.
#[derive(Debug, PartialEq, Eq)]
pub enum ParsedCli {
    /// The arguments do not parse (or ask for help); the parser has its exit code.
    Refused { exit_code: i32 },
    /// No subcommand was named.
    Bare,
    /// A subcommand.
    Command { json: bool, command: LocalityCommand },
}

/// What to do for a command line.
#[derive(Debug, PartialEq, Eq)]
pub enum Dispatch {
    /// Print what the parser said and leave with its exit code.
    Refuse { exit_code: i32 },
    /// Print the help text and leave with success.
    Help { exit_code: i32 },
    /// Run a command on these arguments, its own name left off.
    Run { handler: Handler, args: Vec<String>, json: bool },
}

/// What to do for a parsed command line.
pub fn dispatch(cli: &ParsedCli) -> (r: Dispatch)
    ensures
        match cli {
            ParsedCli::Refused { exit_code } => r == (Dispatch::Refuse { exit_code: *exit_code }),
            ParsedCli::Bare => r == (Dispatch::Help { exit_code: EXIT_SUCCESS }),
            ParsedCli::Command { json, command } => r matches Dispatch::Run {
                handler,
                args,
                json: as_json,
            } && handler == command.handler_spec() && as_json == json && text::texts(args@)
                == command.arguments().skip(1),
        },
{
    match cli {
        ParsedCli::Refused { exit_code } => Dispatch::Refuse { exit_code: *exit_code },
        ParsedCli::Bare => Dispatch::Help { exit_code: EXIT_SUCCESS },
        ParsedCli::Command { json, command } => {
            let mut args = legacy_args_for_command(command);
            let ghost all = args@;
            assert(text::texts(all).len() > 0);
            let _name = args.remove(0);
            assert(args@ == all.remove(0));
            assert(text::texts(args@) =~= text::texts(all).skip(1));
            Dispatch::Run { handler: command.handler(), args, json: *json }
        },
    }
}

/// Whether and with which words a spinner runs.
#[derive(Debug, PartialEq, Eq)]
pub struct SpinnerConfig {
    pub enabled: bool,
    pub label: String,
}

/// A spinner runs only for a person at a terminal.
pub fn spinner_enabled(json: bool, stderr_is_terminal: bool) -> (r: bool)
    ensures
        r == (!json && stderr_is_terminal),
{
    !json && stderr_is_terminal
}

/// What a spinner calls the running command.
pub open spec fn spinner_verb(command: Seq<char>) -> Seq<char> {
    if command == "pull"@ {
        "pulling"@
    } else if command == "push"@ {
        "pushing"@
    } else {
        command
    }
}

/// The spinner for `command` on `path`.
pub fn spinner_config_for_command(
    command: &str,
    path: &str,
    json: bool,
    stderr_is_terminal: bool,
) -> (r: SpinnerConfig)
    ensures
        r.enabled == (!json && stderr_is_terminal),
        r.label@ == spinner_verb(command@) + " "@ + path@,
{
    let verb = if text::same_text(command, "pull") {
        "pulling"
    } else if text::same_text(command, "push") {
        "pushing"
    } else {
        command
    };
    let mut label = verb.to_string();
    label.append(" ");
    label.append(path);
    SpinnerConfig { enabled: spinner_enabled(json, stderr_is_terminal), label }
}

} // verus!
