//! What each command reads out of its arguments.
use vstd::prelude::*;

use crate::args;
use crate::file_provider::WindowsCloudFilesLifecycleAction;
use crate::model;
use crate::model::Failure;
use crate::text;

verus! {

/// How a connection is made.
#[derive(Clone, Copy, Debug, PartialEq, Eq, Structural)]
pub enum ConnectRoute {
    /// A Google Docs account, through the broker.
    GoogleDocs,
    /// A Notion token from standard input.
    NotionToken,
    /// A Notion workspace, through the broker.
    NotionBroker,
    /// A Notion workspace, with a client of one's own.
    NotionDirect,
}

/// How the arguments ask for a connection to be made.
pub open spec fn connect_route(all: Seq<Seq<char>>) -> Option<ConnectRoute> {
    if args::positional_at(all, 0) == Some("google-docs"@) {
        Some(ConnectRoute::GoogleDocs)
    } else if args::positional_at(all, 0) != Some("notion"@) {
        None
    } else if all.contains("--token-stdin"@) {
        Some(ConnectRoute::NotionToken)
    } else if !all.contains("--direct-oauth"@) {
        Some(ConnectRoute::NotionBroker)
    } else {
        Some(ConnectRoute::NotionDirect)
    }
}

/// What the arguments of `connect` ask for.
#[derive(Debug, PartialEq, Eq)]
pub struct ConnectRequest {
    pub route: ConnectRoute,
    pub name: Option<String>,
    pub no_browser: bool,
}

/// Whether arguments ask for a connection in this way.
pub open spec fn asks_to_connect(
    all: Seq<Seq<char>>,
    route: ConnectRoute,
    name: Option<Seq<char>>,
    no_browser: bool,
) -> bool {
    &&& connect_route(all) == Some(route)
    &&& args::value_of(all, "--name"@) == name
    &&& all.contains("--no-browser"@) == no_browser
}

/// What the arguments of `connect` ask for.
pub fn connect_request(args: &[String]) -> (r: Result<ConnectRequest, Failure>)
    ensures
        match r {
            Ok(q) => asks_to_connect(
                text::texts(args@),
                q.route,
                text::opt_text(q.name),
                q.no_browser,
            ),
            Err(e) => connect_route(text::texts(args@)) is None && model::is_failure(
                e,
                "connect"@,
                "usage"@,
                "usage: loc connect <notion|google-docs> [options] [--json]"@,
                2,
            ),
        },
{
    let connector = args::first_positional(args);
    let google_docs = match connector {
        Some(c) => text::same_text(c, "google-docs"),
        None => false,
    };
    let notion = match connector {
        Some(c) => text::same_text(c, "notion"),
        None => false,
    };
    let route = if google_docs {
        ConnectRoute::GoogleDocs
    } else if !notion {
        return Err(
            Failure::usage(
                "connect",
                "usage: loc connect <notion|google-docs> [options] [--json]",
            ),
        );
    } else if args::has_flag(args, "--token-stdin") {
        ConnectRoute::NotionToken
    } else if !args::has_flag(args, "--direct-oauth") {
        ConnectRoute::NotionBroker
    } else {
        ConnectRoute::NotionDirect
    };
    let name = match args::flag_value(args, "--name") {
        Some(name) => Some(name.to_string()),
        None => None,
    };
    Ok(ConnectRequest { route, name, no_browser: args::has_flag(args, "--no-browser") })
}

/// The refusal of a token that was read and is empty.
pub fn empty_token_failure() -> (r: Failure)
    ensures
        model::is_suggesting_error(
            r.error,
            "connect"@,
            "auth_required"@,
            "empty Notion token"@,
            "loc connect notion --token-stdin"@,
        ),
        r.exit_code == 1,
{
    Failure {
        error: model::CommandError::new(
            "connect",
            "auth_required",
            "empty Notion token".to_string(),
        ).with_suggested_command("loc connect notion --token-stdin".to_string()),
        exit_code: 1,
    }
}

/// The commands that take no positional.
#[derive(Clone, Copy, Debug, PartialEq, Eq, Structural)]
pub enum Listing {
    Connections,
    Profiles,
}

impl Listing {
    /// The name of the command.
    pub open spec fn name(self) -> Seq<char> {
        match self {
            Listing::Connections => "connections"@,
            Listing::Profiles => "profiles"@,
        }
    }

    /// How the command is called.
    pub open spec fn usage(self) -> Seq<char> {
        match self {
            Listing::Connections => "usage: loc connections [--json]"@,
            Listing::Profiles => "usage: loc profiles [--json]"@,
        }
    }

    /// Whether the arguments are those of a command without positionals.
    pub fn check(self, args: &[String]) -> (r: Result<(), Failure>)
        ensures
            match r {
                Ok(_) => args::positionals(text::texts(args@)).len() == 0,
                Err(e) => args::positionals(text::texts(args@)).len() > 0 && model::is_failure(
                    e,
                    self.name(),
                    "usage"@,
                    self.usage(),
                    2,
                ),
            },
    {
        match args::first_positional(args) {
            None => Ok(()),
            Some(_) => match self {
                Listing::Connections => Err(
                    Failure::usage("connections", "usage: loc connections [--json]"),
                ),
                Listing::Profiles => Err(
                    Failure::usage("profiles", "usage: loc profiles [--json]"),
                ),
            },
        }
    }
}

/// The commands that work on one thing, named by their first positional.
#[derive(Clone, Copy, Debug, PartialEq, Eq, Structural)]
pub enum OnOne {
    Disconnect,
    Pull,
    Inspect,
    Undo,
    Diff,
}

impl OnOne {
    /// The name of the command.
    pub open spec fn name(self) -> Seq<char> {
        match self {
            OnOne::Disconnect => "disconnect"@,
            OnOne::Pull => "pull"@,
            OnOne::Inspect => "inspect"@,
            OnOne::Undo => "undo"@,
            OnOne::Diff => "diff"@,
        }
    }

    /// How the command is called.
    pub open spec fn usage(self) -> Seq<char> {
        match self {
            OnOne::Disconnect => "usage: loc disconnect <id> [--json]"@,
            OnOne::Pull => "usage: loc pull <path> [--json]"@,
            OnOne::Inspect => "usage: loc inspect <path> [--json]"@,
            OnOne::Undo => "usage: loc undo <push-id> [--json]"@,
            OnOne::Diff => "usage: loc diff <path> [--json]"@,
        }
    }

    /// What the command works on.
    pub fn request(self, args: &[String]) -> (r: Result<String, Failure>)
        ensures
            match args::positional_at(text::texts(args@), 0) {
                Some(target) => r matches Ok(t) && t@ == target,
                None => r matches Err(e) && model::is_failure(
                    e,
                    self.name(),
                    "usage"@,
                    self.usage(),
                    2,
                ),
            },
    {
        match args::first_positional(args) {
            Some(target) => Ok(target.to_string()),
            None => match self {
                OnOne::Disconnect => Err(
                    Failure::usage("disconnect", "usage: loc disconnect <id> [--json]"),
                ),
                OnOne::Pull => Err(Failure::usage("pull", "usage: loc pull <path> [--json]")),
                OnOne::Inspect => Err(
                    Failure::usage("inspect", "usage: loc inspect <path> [--json]"),
                ),
                OnOne::Undo => Err(Failure::usage("undo", "usage: loc undo <push-id> [--json]")),
                OnOne::Diff => Err(Failure::usage("diff", "usage: loc diff <path> [--json]")),
            },
        }
    }
}

/// The path that `status`, `info` and `log` may be narrowed to.
pub fn optional_path(args: &[String]) -> (r: Option<String>)
    ensures
        text::opt_text(r) == args::positional_at(text::texts(args@), 0),
{
    match args::first_positional(args) {
        Some(path) => Some(path.to_string()),
        None => None,
    }
}

/// The connection that `connection show` is asked for.
pub open spec fn shown_connection(all: Seq<Seq<char>>) -> Option<Seq<char>> {
    if args::positional_at(all, 0) == Some("show"@) {
        args::positional_at(all, 1)
    } else {
        None
    }
}

/// The connection that `connection show` is asked for.
pub fn connection_request(args: &[String]) -> (r: Result<String, Failure>)
    ensures
        match shown_connection(text::texts(args@)) {
            Some(id) => r matches Ok(i) && i@ == id,
            None => r matches Err(e) && model::is_failure(
                e,
                "connection"@,
                "usage"@,
                "usage: loc connection show <id> [--json]"@,
                2,
            ),
        },
{
    let show = match args::first_positional(args) {
        Some(action) => text::same_text(action, "show"),
        None => false,
    };
    if !show {
        return Err(Failure::usage("connection", "usage: loc connection show <id> [--json]"));
    }
    match args::nth_positional(args, 1) {
        Some(id) => Ok(id.to_string()),
        None => Err(Failure::usage("connection", "usage: loc connection show <id> [--json]")),
    }
}

/// What the arguments of `restore` ask for.
#[derive(Debug, PartialEq, Eq)]
pub struct RestoreRequest {
    pub path: String,
    pub force: bool,
}

/// Whether arguments ask for a path to be restored in this way.
pub open spec fn asks_to_restore(all: Seq<Seq<char>>, path: Seq<char>, force: bool) -> bool {
    &&& args::positional_at(all, 0) == Some(path)
    &&& all.contains("--force"@) == force
}

/// What the arguments of `restore` ask for.
pub fn restore_request(args: &[String]) -> (r: Result<RestoreRequest, Failure>)
    ensures
        match r {
            Ok(q) => asks_to_restore(text::texts(args@), q.path@, q.force),
            Err(e) => args::positional_at(text::texts(args@), 0) is None && model::is_failure(
                e,
                "restore"@,
                "usage"@,
                "usage: loc restore <path> [--force] [--json]"@,
                2,
            ),
        },
{
    match args::first_positional(args) {
        Some(path) => Ok(
            RestoreRequest { path: path.to_string(), force: args::has_flag(args, "--force") },
        ),
        None => Err(Failure::usage("restore", "usage: loc restore <path> [--force] [--json]")),
    }
}

/// What a push was allowed beforehand.
#[derive(Clone, Copy, Debug, PartialEq, Eq, Structural)]
pub struct PushOptions {
    pub assume_yes: bool,
    pub confirm_dangerous: bool,
}

/// What the arguments of `push` ask for.
#[derive(Debug, PartialEq, Eq)]
pub struct PushRequest {
    pub path: String,
    pub options: PushOptions,
}

/// Whether arguments ask for a path to be pushed in this way.
pub open spec fn asks_to_push(all: Seq<Seq<char>>, path: Seq<char>, options: PushOptions) -> bool {
    &&& args::positional_at(all, 0) == Some(path)
    &&& options.assume_yes == (all.contains("-y"@) || all.contains("--yes"@))
    &&& options.confirm_dangerous == all.contains("--confirm"@)
}

/// What the arguments of `push` ask for.
pub fn push_request(args: &[String]) -> (r: Result<PushRequest, Failure>)
    ensures
        match r {
            Ok(q) => asks_to_push(text::texts(args@), q.path@, q.options),
            Err(e) => args::positional_at(text::texts(args@), 0) is None && model::is_failure(
                e,
                "push"@,
                "usage"@,
                "usage: loc push <path> [-y|--yes] [--confirm] [--json]"@,
                2,
            ),
        },
{
    match args::first_positional(args) {
        Some(path) => Ok(
            PushRequest {
                path: path.to_string(),
                options: PushOptions {
                    assume_yes: args::has_flag(args, "-y") || args::has_flag(args, "--yes"),
                    confirm_dangerous: args::has_flag(args, "--confirm"),
                },
            },
        ),
        None => Err(
            Failure::usage("push", "usage: loc push <path> [-y|--yes] [--confirm] [--json]"),
        ),
    }
}

/// What is searched for.
#[derive(Debug, PartialEq, Eq)]
pub struct SearchOptions {
    pub query: String,
    pub connector: Option<String>,
    pub limit: usize,
    pub include_stale_access: bool,
}

/// The number of results that the arguments of `search` allow: ten unless they
/// say otherwise, nothing where what they say is no number.
pub open spec fn search_limit(all: Seq<Seq<char>>) -> Option<usize> {
    match args::value_of(all, "--limit"@) {
        None => Some(10),
        Some(value) => match text::parsed_u64(value) {
            Some(n) => if n <= usize::MAX {
                Some(n as usize)
            } else {
                None
            },
            None => None,
        },
    }
}

/// Whether arguments ask for a search with these options.
pub open spec fn asks_to_search(
    all: Seq<Seq<char>>,
    query: Seq<char>,
    connector: Option<Seq<char>>,
    limit: usize,
    include_stale_access: bool,
) -> bool {
    &&& query == text::joined(args::positionals(all), " "@)
    &&& connector == args::value_of(all, "--connector"@)
    &&& search_limit(all) == Some(limit)
    &&& include_stale_access == all.contains("--all"@)
}

/// What the arguments of `search` ask for.
pub fn search_request(args: &[String]) -> (r: Result<SearchOptions, Failure>)
    ensures
        match r {
            Ok(q) => asks_to_search(
                text::texts(args@),
                q.query@,
                text::opt_text(q.connector),
                q.limit,
                q.include_stale_access,
            ),
            Err(e) => search_limit(text::texts(args@)) is None && model::is_failure(
                e,
                "search"@,
                "invalid_limit"@,
                "--limit must be a positive integer"@,
                2,
            ),
        },
{
    let words = args::positional_args(args);
    let query = text::join(&words, " ");
    let limit: Option<usize> = match args::flag_value(args, "--limit") {
        None => Some(10),
        Some(value) => match text::parse_u64(value) {
            Some(n) => if n <= usize::MAX as u64 {
                Some(n as usize)
            } else {
                None
            },
            None => None,
        },
    };
    let limit: usize = match limit {
        Some(limit) => limit,
        None => {
            return Err(
                Failure::new(
                    "search",
                    "invalid_limit",
                    "--limit must be a positive integer".to_string(),
                    2,
                ),
            );
        },
    };
    let connector = match args::flag_value(args, "--connector") {
        Some(connector) => Some(connector.to_string()),
        None => None,
    };
    Ok(
        SearchOptions {
            query,
            connector,
            limit,
            include_stale_access: args::has_flag(args, "--all"),
        },
    )
}

/// What the arguments of `create page` ask for.
#[derive(Debug, PartialEq, Eq)]
pub struct CreatePageRequest {
    pub title: String,
    pub parent: Option<String>,
}

/// Whether arguments ask for a page to be created in this way.
pub open spec fn asks_to_create_page(
    all: Seq<Seq<char>>,
    title: Seq<char>,
    parent: Option<Seq<char>>,
) -> bool {
    &&& args::positional_at(all, 0) == Some("page"@)
    &&& args::value_of(all, "--title"@) == Some(title)
    &&& args::value_of(all, "--parent"@) == parent
}

/// What the arguments of `create` ask for.
pub fn create_request(args: &[String]) -> (r: Result<CreatePageRequest, Failure>)
    ensures
        match r {
            Ok(q) => asks_to_create_page(text::texts(args@), q.title@, text::opt_text(q.parent)),
            Err(e) => if args::positional_at(text::texts(args@), 0) == Some("page"@) {
                args::value_of(text::texts(args@), "--title"@) is None && model::is_failure(
                    e,
                    "create_page"@,
                    "missing_title"@,
                    "--title is required"@,
                    2,
                )
            } else {
                model::is_failure(
                    e,
                    "create"@,
                    "usage"@,
                    "usage: loc create <page> [options] [--json]"@,
                    2,
                )
            },
        },
{
    let page = match args::first_positional(args) {
        Some(what) => text::same_text(what, "page"),
        None => false,
    };
    if !page {
        return Err(Failure::usage("create", "usage: loc create <page> [options] [--json]"));
    }
    let title = match args::flag_value(args, "--title") {
        Some(title) => title.to_string(),
        None => {
            return Err(
                Failure::new("create_page", "missing_title", "--title is required".to_string(), 2),
            );
        },
    };
    let parent = match args::flag_value(args, "--parent") {
        Some(parent) => Some(parent.to_string()),
        None => None,
    };
    Ok(CreatePageRequest { title, parent })
}

/// What the arguments of `templates` ask for.
#[derive(Debug, PartialEq, Eq)]
pub enum TemplatesRequest {
    List,
    Validate(TemplateValidateRequest),
    New(TemplateNewRequest),
    Apply(TemplateApplyRequest),
}

#[derive(Debug, PartialEq, Eq)]
pub struct TemplateValidateRequest {
    pub path: String,
}

#[derive(Debug, PartialEq, Eq)]
pub struct TemplateNewRequest {
    pub pack: String,
    pub path: String,
    pub force: bool,
}

#[derive(Debug, PartialEq, Eq)]
pub struct TemplateApplyRequest {
    pub pack: String,
    pub template: String,
    pub target_dir: String,
    pub title: Option<String>,
    pub force: bool,
}

/// Whether arguments ask for this.
pub open spec fn asks_of_templates(all: Seq<Seq<char>>, request: TemplatesRequest) -> bool {
    match request {
        TemplatesRequest::List => args::positional_at(all, 0) == Some("list"@),
        TemplatesRequest::Validate(q) => {
            &&& args::positional_at(all, 0) == Some("validate"@)
            &&& args::positional_at(all, 1) == Some(q.path@)
        },
        TemplatesRequest::New(q) => {
            &&& args::positional_at(all, 0) == Some("new"@)
            &&& args::positional_at(all, 1) == Some(q.pack@)
            &&& args::positional_at(all, 2) == Some(q.path@)
            &&& q.force == all.contains("--force"@)
        },
        TemplatesRequest::Apply(q) => {
            &&& args::positional_at(all, 0) == Some("apply"@)
            &&& args::positional_at(all, 1) == Some(q.pack@)
            &&& args::positional_at(all, 2) == Some(q.template@)
            &&& args::value_of(all, "--to"@) == Some(q.target_dir@)
            &&& text::opt_text(q.title) == args::value_of(all, "--title"@)
            &&& q.force == all.contains("--force"@)
        },
    }
}

/// How `templates` should have been called, where the arguments ask for nothing
/// that it does.
pub open spec fn templates_usage(all: Seq<Seq<char>>) -> Option<Seq<char>> {
    let action = args::positional_at(all, 0);
    if action == Some("list"@) {
        None
    } else if action == Some("validate"@) {
        if args::positional_at(all, 1) is Some {
            None
        } else {
            Some("usage: loc templates validate <path> [--json]"@)
        }
    } else if action == Some("new"@) {
        if args::positional_at(all, 2) is Some {
            None
        } else {
            Some("usage: loc templates new <pack> <path> [--force] [--json]"@)
        }
    } else if action == Some("apply"@) {
        if args::positional_at(all, 2) is Some && args::value_of(all, "--to"@) is Some {
            None
        } else {
            Some(
                "usage: loc templates apply <pack> <template> --to <dir> [--title <title>] [--force] [--json]"@,
            )
        }
    } else {
        Some("usage: loc templates list|validate|new|apply [--json]"@)
    }
}

fn new_template_request(args: &[String]) -> (r: Option<TemplateNewRequest>)
    requires
        args::positional_at(text::texts(args@), 0) == Some("new"@),
    ensures
        match r {
            Some(q) => asks_of_templates(text::texts(args@), TemplatesRequest::New(q)),
            None => args::positional_at(text::texts(args@), 2) is None,
        },
{
    match (args::nth_positional(args, 1), args::nth_positional(args, 2)) {
        (Some(pack), Some(path)) => Some(
            TemplateNewRequest {
                pack: pack.to_string(),
                path: path.to_string(),
                force: args::has_flag(args, "--force"),
            },
        ),
        _ => None,
    }
}

fn apply_template_request(args: &[String]) -> (r: Option<TemplateApplyRequest>)
    requires
        args::positional_at(text::texts(args@), 0) == Some("apply"@),
    ensures
        match r {
            Some(q) => asks_of_templates(text::texts(args@), TemplatesRequest::Apply(q)),
            None => args::positional_at(text::texts(args@), 2) is None || args::value_of(
                text::texts(args@),
                "--to"@,
            ) is None,
        },
{
    let (pack, template) = match (args::nth_positional(args, 1), args::nth_positional(args, 2)) {
        (Some(pack), Some(template)) => (pack, template),
        _ => {
            return None;
        },
    };
    let target_dir = match args::flag_value(args, "--to") {
        Some(dir) => dir,
        None => {
            return None;
        },
    };
    let title = match args::flag_value(args, "--title") {
        Some(title) => Some(title.to_string()),
        None => None,
    };
    Some(
        TemplateApplyRequest {
            pack: pack.to_string(),
            template: template.to_string(),
            target_dir: target_dir.to_string(),
            title,
            force: args::has_flag(args, "--force"),
        },
    )
}

/// What the arguments of `templates` ask for.
pub fn templates_request(args: &[String]) -> (r: Result<TemplatesRequest, Failure>)
    ensures
        match r {
            Ok(q) => asks_of_templates(text::texts(args@), q) && templates_usage(
                text::texts(args@),
            ) is None,
            Err(e) => templates_usage(text::texts(args@)) is Some && model::is_failure(
                e,
                "templates"@,
                "usage"@,
                templates_usage(text::texts(args@))->0,
                2,
            ),
        },
{
    let action = match args::first_positional(args) {
        Some(action) => action,
        None => {
            return Err(
                Failure::usage("templates", "usage: loc templates list|validate|new|apply [--json]"),
            );
        },
    };
    if text::same_text(action, "list") {
        return Ok(TemplatesRequest::List);
    }
    if text::same_text(action, "validate") {
        return match args::nth_positional(args, 1) {
            Some(path) => Ok(
                TemplatesRequest::Validate(TemplateValidateRequest { path: path.to_string() }),
            ),
            None => Err(
                Failure::usage("templates", "usage: loc templates validate <path> [--json]"),
            ),
        };
    }
    if text::same_text(action, "new") {
        return match new_template_request(args) {
            Some(q) => Ok(TemplatesRequest::New(q)),
            None => Err(
                Failure::usage(
                    "templates",
                    "usage: loc templates new <pack> <path> [--force] [--json]",
                ),
            ),
        };
    }
    if text::same_text(action, "apply") {
        return match apply_template_request(args) {
            Some(q) => Ok(TemplatesRequest::Apply(q)),
            None => Err(
                Failure::usage(
                    "templates",
                    "usage: loc templates apply <pack> <template> --to <dir> [--title <title>] [--force] [--json]",
                ),
            ),
        };
    }
    Err(Failure::usage("templates", "usage: loc templates list|validate|new|apply [--json]"))
}

/// What the arguments of `okf export` ask for.
#[derive(Debug, PartialEq, Eq)]
pub struct OkfExportRequest {
    pub source: String,
    pub output: String,
}

/// Whether arguments ask for this export.
pub open spec fn asks_to_export(all: Seq<Seq<char>>, source: Seq<char>, output: Seq<char>) -> bool {
    &&& args::positional_at(all, 0) == Some("export"@)
    &&& args::positional_at(all, 1) == Some(source)
    &&& args::value_of(all, "--out"@) == Some(output)
}

/// What the arguments of `okf` ask for.
pub fn okf_request(args: &[String]) -> (r: Result<OkfExportRequest, Failure>)
    ensures
        match r {
            Ok(q) => asks_to_export(text::texts(args@), q.source@, q.output@),
            Err(e) => if args::positional_at(text::texts(args@), 0) != Some("export"@) {
                model::is_failure(
                    e,
                    "okf"@,
                    "usage"@,
                    "usage: loc okf export <path> --out <dir> [--json]"@,
                    2,
                )
            } else if args::positional_at(text::texts(args@), 1) is None {
                model::is_failure(
                    e,
                    "okf_export"@,
                    "missing_path"@,
                    "source path is required: loc okf export <path> --out <dir>"@,
                    2,
                )
            } else {
                args::value_of(text::texts(args@), "--out"@) is None && model::is_failure(
                    e,
                    "okf_export"@,
                    "missing_output"@,
                    "--out <dir> is required"@,
                    2,
                )
            },
        },
{
    let export = match args::first_positional(args) {
        Some(what) => text::same_text(what, "export"),
        None => false,
    };
    if !export {
        return Err(Failure::usage("okf", "usage: loc okf export <path> --out <dir> [--json]"));
    }
    let source = match args::nth_positional(args, 1) {
        Some(source) => source.to_string(),
        None => {
            return Err(
                Failure::new(
                    "okf_export",
                    "missing_path",
                    "source path is required: loc okf export <path> --out <dir>".to_string(),
                    2,
                ),
            );
        },
    };
    match args::flag_value(args, "--out") {
        Some(output) => Ok(OkfExportRequest { source, output: output.to_string() }),
        None => Err(
            Failure::new(
                "okf_export",
                "missing_output",
                "--out <dir> is required".to_string(),
                2,
            ),
        ),
    }
}

/// What is done to a file provider.
#[derive(Clone, Copy, Debug, PartialEq, Eq, Structural)]
pub enum ProviderAction {
    Register,
    Lifecycle(WindowsCloudFilesLifecycleAction),
    Run,
    Open,
    Unregister,
}

impl ProviderAction {
    /// The name of the action.
    pub open spec fn name(self) -> Seq<char> {
        match self {
            ProviderAction::Register => "register"@,
            ProviderAction::Lifecycle(action) => action.name(),
            ProviderAction::Run => "run"@,
            ProviderAction::Open => "open"@,
            ProviderAction::Unregister => "unregister"@,
        }
    }

    /// The name of the action.
    pub fn as_str(self) -> (r: &'static str)
        ensures
            r@ == self.name(),
    {
        match self {
            ProviderAction::Register => "register",
            ProviderAction::Lifecycle(action) => action.as_str(),
            ProviderAction::Run => "run",
            ProviderAction::Open => "open",
            ProviderAction::Unregister => "unregister",
        }
    }
}

/// What a word asks to be done to the provider of one mount.
pub open spec fn provider_action(word: Seq<char>) -> Option<ProviderAction> {
    if word == "register"@ {
        Some(ProviderAction::Register)
    } else if word == "start"@ {
        Some(ProviderAction::Lifecycle(WindowsCloudFilesLifecycleAction::Start))
    } else if word == "run"@ {
        Some(ProviderAction::Run)
    } else if word == "stop"@ {
        Some(ProviderAction::Lifecycle(WindowsCloudFilesLifecycleAction::Stop))
    } else if word == "status"@ {
        Some(ProviderAction::Lifecycle(WindowsCloudFilesLifecycleAction::Status))
    } else if word == "restart"@ {
        Some(ProviderAction::Lifecycle(WindowsCloudFilesLifecycleAction::Restart))
    } else if word == "open"@ {
        Some(ProviderAction::Open)
    } else if word == "unregister"@ {
        Some(ProviderAction::Unregister)
    } else {
        None
    }
}

fn parse_provider_action(word: &str) -> (r: Option<ProviderAction>)
    ensures
        r == provider_action(word@),
{
    if text::same_text(word, "register") {
        Some(ProviderAction::Register)
    } else if text::same_text(word, "start") {
        Some(ProviderAction::Lifecycle(WindowsCloudFilesLifecycleAction::Start))
    } else if text::same_text(word, "run") {
        Some(ProviderAction::Run)
    } else if text::same_text(word, "stop") {
        Some(ProviderAction::Lifecycle(WindowsCloudFilesLifecycleAction::Stop))
    } else if text::same_text(word, "status") {
        Some(ProviderAction::Lifecycle(WindowsCloudFilesLifecycleAction::Status))
    } else if text::same_text(word, "restart") {
        Some(ProviderAction::Lifecycle(WindowsCloudFilesLifecycleAction::Restart))
    } else if text::same_text(word, "open") {
        Some(ProviderAction::Open)
    } else if text::same_text(word, "unregister") {
        Some(ProviderAction::Unregister)
    } else {
        None
    }
}

/// What the arguments of `file-provider` ask for.
#[derive(Debug, PartialEq, Eq)]
pub enum FileProviderRequest {
    /// Something to be done to the provider of one mount.
    OnMount(MountProviderRequest),
    List,
    Reset,
}

#[derive(Debug, PartialEq, Eq)]
pub struct MountProviderRequest {
    pub action: ProviderAction,
    pub target: String,
}

/// Whether arguments ask for this.
pub open spec fn asks_of_provider(all: Seq<Seq<char>>, request: FileProviderRequest) -> bool {
    match args::positional_at(all, 0) {
        None => false,
        Some(word) => match request {
            FileProviderRequest::OnMount(q) => {
                &&& provider_action(word) == Some(q.action)
                &&& args::positional_at(all, 1) == Some(q.target@)
            },
            FileProviderRequest::List => word == "list"@,
            FileProviderRequest::Reset => word == "reset"@,
        },
    }
}

/// How `file-provider` should have been called, where the arguments ask for
/// nothing that it does.
pub open spec fn provider_usage(all: Seq<Seq<char>>) -> Option<Seq<char>> {
    match args::positional_at(all, 0) {
        None => Some(
            "usage: loc file-provider register|start|run|stop|status|restart|open|unregister <mount-id-or-path> [--json]"@,
        ),
        Some(word) => match provider_action(word) {
            Some(action) => if args::positional_at(all, 1) is Some {
                None
            } else {
                Some("usage: loc file-provider "@ + action.name() + " <mount-id-or-path> [--json]"@)
            },
            None => if word == "list"@ || word == "reset"@ {
                None
            } else {
                Some(
                    "usage: loc file-provider register|start|run|stop|status|restart|open|unregister|list|reset"@,
                )
            },
        },
    }
}

/// What the arguments of `file-provider` ask for.
pub fn file_provider_request(args: &[String]) -> (r: Result<FileProviderRequest, Failure>)
    ensures
        match r {
            Ok(q) => asks_of_provider(text::texts(args@), q) && provider_usage(
                text::texts(args@),
            ) is None,
            Err(e) => provider_usage(text::texts(args@)) is Some && model::is_failure(
                e,
                "file-provider"@,
                "usage"@,
                provider_usage(text::texts(args@))->0,
                2,
            ),
        },
{
    let word = match args::first_positional(args) {
        Some(word) => word,
        None => {
            return Err(
                Failure::usage(
                    "file-provider",
                    "usage: loc file-provider register|start|run|stop|status|restart|open|unregister <mount-id-or-path> [--json]",
                ),
            );
        },
    };
    if let Some(action) = parse_provider_action(word) {
        return match args::nth_positional(args, 1) {
            Some(target) => Ok(
                FileProviderRequest::OnMount(
                    MountProviderRequest { action, target: target.to_string() },
                ),
            ),
            None => Err(
                Failure::usage(
                    "file-provider",
                    text::concat3(
                        "usage: loc file-provider ",
                        action.as_str(),
                        " <mount-id-or-path> [--json]",
                    ).as_str(),
                ),
            ),
        };
    }
    if text::same_text(word, "list") {
        return Ok(FileProviderRequest::List);
    }
    if text::same_text(word, "reset") {
        return Ok(FileProviderRequest::Reset);
    }
    Err(
        Failure::usage(
            "file-provider",
            "usage: loc file-provider register|start|run|stop|status|restart|open|unregister|list|reset",
        ),
    )
}

} // verus!
