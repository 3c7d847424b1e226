//! A parsed command says in its arguments what the command then reads out of
//! them.
use vstd::prelude::*;

use crate::args;
use crate::cli;
use crate::cli::{
    ConnectCommand, ConnectGoogleDocsArgs, ConnectNotionArgs, ConnectionCommand,
    ConnectionShowArgs, CreateCommand, CreatePageArgs, DaemonArgs, DaemonCommand,
    FileProviderCommand, FileProviderTargetArg,
    LocalityCommand, MountCommand, MountGoogleDocsArgs, MountNotionArgs, OkfCommand, OkfExportArgs,
    PushArgs, RestoreCliArgs, SearchArgs, TemplateApplyArgs, TemplateNewArgs,
    TemplateValidateArgs, TemplatesCommand,
};
use crate::daemon;
use crate::daemon::DaemonAction;
use crate::file_provider::WindowsCloudFilesLifecycleAction;
use crate::mounting;
use crate::requests;
use crate::requests::{
    ConnectRoute, FileProviderRequest, ProviderAction, PushOptions, TemplatesRequest,
};
use crate::text;

verus! {

/// Whether an optional value cannot be taken for a flag.
pub open spec fn plain_option(value: Option<String>) -> bool {
    match value {
        Some(v) => args::is_plain(v@),
        None => true,
    }
}

proof fn lemma_contains_concat(a: Seq<Seq<char>>, b: Seq<Seq<char>>, x: Seq<char>)
    ensures
        (a + b).contains(x) == (a.contains(x) || b.contains(x)),
{
    if a.contains(x) {
        let i = choose|i: int| 0 <= i < a.len() && a[i] == x;
        assert((a + b)[i] == x);
    }
    if b.contains(x) {
        let i = choose|i: int| 0 <= i < b.len() && b[i] == x;
        assert((a + b)[a.len() + i] == x);
    }
    if (a + b).contains(x) {
        let i = choose|i: int| 0 <= i < (a + b).len() && (a + b)[i] == x;
        if i < a.len() {
            assert(a[i] == x);
        } else {
            assert(b[i - a.len()] == x);
        }
    }
}

/// What a positional in front of other arguments changes.
proof fn lemma_plain(value: Seq<char>, rest: Seq<Seq<char>>, flag: Seq<char>)
    requires
        args::is_plain(value),
        !args::is_plain(flag),
    ensures
        args::positionals(seq![value] + rest) == seq![value] + args::positionals(rest),
        (seq![value] + rest).contains(flag) == rest.contains(flag),
        args::value_of(seq![value] + rest, flag) == args::value_of(rest, flag),
{
    args::lemma_positionals_plain(value, rest);
    lemma_contains_concat(seq![value], rest, flag);
    if seq![value].contains(flag) {
        let i = choose|i: int| 0 <= i < seq![value].len() && seq![value][i] == flag;
        assert(value == flag);
    }
    args::lemma_value_of_behind(seq![value], rest, flag);
}

/// What a flag on its own in front of other arguments changes.
proof fn lemma_switch(name: Seq<char>, on: bool, rest: Seq<Seq<char>>, flag: Seq<char>)
    requires
        !args::is_plain(name),
        !args::is_value_flag(name),
    ensures
        args::positionals(cli::switch(name, on) + rest) == args::positionals(rest),
        (cli::switch(name, on) + rest).contains(flag) == (on && flag == name || rest.contains(
            flag,
        )),
        flag != name ==> args::value_of(cli::switch(name, on) + rest, flag) == args::value_of(
            rest,
            flag,
        ),
{
    let front = cli::switch(name, on);
    lemma_contains_concat(front, rest, flag);
    if on {
        args::lemma_positionals_switch(name, rest);
        if flag == name {
            assert(front[0] == flag);
        } else {
            assert(!front.contains(flag)) by {
                if front.contains(flag) {
                    let i = choose|i: int| 0 <= i < front.len() && front[i] == flag;
                    assert(front[i] == name);
                }
            }
            args::lemma_value_of_behind(front, rest, flag);
        }
    } else {
        assert(front + rest == rest);
    }
}

/// What a flag with its value in front of other arguments changes.
proof fn lemma_option(
    name: Seq<char>,
    value: Option<String>,
    rest: Seq<Seq<char>>,
    flag: Seq<char>,
)
    requires
        !args::is_plain(flag),
        plain_option(value),
    ensures
        args::is_value_flag(name) ==> args::positionals(cli::option(name, value) + rest)
            == args::positionals(rest),
        (cli::option(name, value) + rest).contains(flag) == (value is Some && flag == name
            || rest.contains(flag)),
        flag != name ==> args::value_of(cli::option(name, value) + rest, flag) == args::value_of(
            rest,
            flag,
        ),
        flag == name ==> args::value_of(cli::option(name, value) + rest, flag) == (match value {
            Some(v) => Some(v@),
            None => args::value_of(rest, flag),
        }),
{
    let front = cli::option(name, value);
    match value {
        None => {
            assert(front + rest == rest);
        },
        Some(v) => {
            lemma_contains_concat(front, rest, flag);
            if args::is_value_flag(name) {
                args::lemma_positionals_option(name, v@, rest);
            }
            if flag == name {
                assert(front[0] == flag);
                args::lemma_value_of_first(name, v@, rest);
            } else {
                assert(!front.contains(flag)) by {
                    if front.contains(flag) {
                        let i = choose|i: int| 0 <= i < front.len() && front[i] == flag;
                        assert(front[i] == name || front[i] == v@);
                    }
                }
                args::lemma_value_of_behind(front, rest, flag);
            }
        },
    }
}

/// Arguments that are put together from the left are those put together from
/// the right.
proof fn lemma_regrouped(
    front: Seq<Seq<char>>,
    a: Seq<Seq<char>>,
    b: Seq<Seq<char>>,
    c: Seq<Seq<char>>,
    d: Seq<Seq<char>>,
    e: Seq<Seq<char>>,
    f: Seq<Seq<char>>,
)
    requires
        front.len() > 0,
    ensures
        (front + a + b + c + d + e + f).skip(1) == front.skip(1) + (a + (b + (c + (d + (e + (f
            + Seq::<Seq<char>>::empty())))))),
{
    assert((front + a + b + c + d + e + f).skip(1) =~= front.skip(1) + (a + (b + (c + (d + (e + (f
        + Seq::<Seq<char>>::empty())))))));
}

/// What no arguments at all ask for.
proof fn lemma_nothing(flag: Seq<char>)
    ensures
        args::positionals(Seq::empty()) == Seq::<Seq<char>>::empty(),
        !Seq::<Seq<char>>::empty().contains(flag),
        args::value_of(Seq::empty(), flag) is None,
{
    args::lemma_value_of_absent(Seq::empty(), flag);
}

/// The length of a flag and the letters behind its dashes.
spec fn is_spelt(flag: Seq<char>, len: nat, a: char, b: char, c: Option<char>) -> bool {
    &&& flag.len() == len
    &&& flag[0] == '-'
    &&& flag[2] == a
    &&& flag[3] == b
    &&& c is Some ==> flag[4] == c->0
}

/// Enough of the spelling of each flag to tell it from the others.
proof fn lemma_flags()
    ensures
        is_spelt("--root-page"@, 11, 'r', 'o', Some('o')),
        is_spelt("--mount-id"@, 10, 'm', 'o', Some('u')),
        is_spelt("--connection"@, 12, 'c', 'o', Some('n')),
        is_spelt("--name"@, 6, 'n', 'a', Some('m')),
        is_spelt("--projection"@, 12, 'p', 'r', Some('o')),
        is_spelt("--helper"@, 8, 'h', 'e', Some('l')),
        is_spelt("--display-name"@, 14, 'd', 'i', Some('s')),
        is_spelt("--redirect-uri"@, 14, 'r', 'e', Some('d')),
        is_spelt("--broker-url"@, 12, 'b', 'r', Some('o')),
        is_spelt("--connector"@, 11, 'c', 'o', Some('n')),
        is_spelt("--limit"@, 7, 'l', 'i', Some('m')),
        is_spelt("--title"@, 7, 't', 'i', Some('t')),
        is_spelt("--parent"@, 8, 'p', 'a', Some('r')),
        is_spelt("--yes"@, 5, 'y', 'e', Some('s')),
        is_spelt("--confirm"@, 9, 'c', 'o', Some('n')),
        is_spelt("--force"@, 7, 'f', 'o', Some('r')),
        is_spelt("--all"@, 5, 'a', 'l', Some('l')),
        is_spelt("--no-browser"@, 12, 'n', 'o', Some('-')),
        is_spelt("--token-stdin"@, 13, 't', 'o', Some('k')),
        is_spelt("--direct-oauth"@, 14, 'd', 'i', Some('r')),
        is_spelt("--workspace"@, 11, 'w', 'o', Some('r')),
        is_spelt("--read-only"@, 11, 'r', 'e', Some('a')),
        is_spelt("--workspace-folder"@, 18, 'w', 'o', Some('r')),
        is_spelt("--to"@, 4, 't', 'o', None),
        is_spelt("--out"@, 5, 'o', 'u', Some('t')),
{
    reveal_strlit("--root-page");
    reveal_strlit("--mount-id");
    reveal_strlit("--connection");
    reveal_strlit("--name");
    reveal_strlit("--projection");
    reveal_strlit("--helper");
    reveal_strlit("--display-name");
    reveal_strlit("--redirect-uri");
    reveal_strlit("--broker-url");
    reveal_strlit("--connector");
    reveal_strlit("--limit");
    reveal_strlit("--title");
    reveal_strlit("--parent");
    reveal_strlit("--yes");
    reveal_strlit("--confirm");
    reveal_strlit("--force");
    reveal_strlit("--all");
    reveal_strlit("--no-browser");
    reveal_strlit("--token-stdin");
    reveal_strlit("--direct-oauth");
    reveal_strlit("--workspace");
    reveal_strlit("--read-only");
    reveal_strlit("--workspace-folder");
    reveal_strlit("--to");
    reveal_strlit("--out");
}

/// The flags that stand on their own.
proof fn lemma_switches()
    ensures
        !args::is_value_flag("--yes"@),
        !args::is_value_flag("--confirm"@),
        !args::is_value_flag("--force"@),
        !args::is_value_flag("--all"@),
        !args::is_value_flag("--no-browser"@),
        !args::is_value_flag("--token-stdin"@),
        !args::is_value_flag("--direct-oauth"@),
        !args::is_value_flag("--workspace"@),
        !args::is_value_flag("--read-only"@),
        !args::is_value_flag("--workspace-folder"@),
        !args::is_value_flag("--to"@),
        !args::is_value_flag("--out"@),
{
    lemma_flags();
}

/// What the arguments of `push` hold of a flag.
proof fn lemma_push_flags(o: PushArgs, flag: Seq<char>)
    requires
        args::is_plain(o.path@),
        !args::is_plain(flag),
    ensures
        ({
            let all = LocalityCommand::Push(o).arguments().skip(1);
            &&& args::positionals(all) == seq![o.path@]
            &&& all.contains(flag) == (o.yes && flag == "--yes"@ || o.confirm && flag
                == "--confirm"@)
        }),
{
    lemma_flags();
    lemma_switches();
    let none = Seq::<Seq<char>>::empty();
    let confirm = cli::switch("--confirm"@, o.confirm) + none;
    let yes = cli::switch("--yes"@, o.yes) + confirm;
    assert(LocalityCommand::Push(o).arguments().skip(1) =~= seq![o.path@] + yes);
    lemma_nothing(flag);
    lemma_switch("--confirm"@, o.confirm, none, flag);
    lemma_switch("--yes"@, o.yes, confirm, flag);
    lemma_plain(o.path@, yes, flag);
}

/// The arguments of `push` say what was parsed.
proof fn lemma_push_reads_back(o: PushArgs)
    requires
        args::is_plain(o.path@),
    ensures
        requests::asks_to_push(
            LocalityCommand::Push(o).arguments().skip(1),
            o.path@,
            PushOptions { assume_yes: o.yes, confirm_dangerous: o.confirm },
        ),
{
    reveal_strlit("-y");
    lemma_flags();
    lemma_push_flags(o, "-y"@);
    lemma_push_flags(o, "--yes"@);
    lemma_push_flags(o, "--confirm"@);
}

/// The arguments of `restore` say what was parsed.
proof fn lemma_restore_reads_back(o: RestoreCliArgs)
    requires
        args::is_plain(o.path@),
    ensures
        requests::asks_to_restore(
            LocalityCommand::Restore(o).arguments().skip(1),
            o.path@,
            o.force,
        ),
{
    lemma_flags();
    lemma_switches();
    let none = Seq::<Seq<char>>::empty();
    let force = cli::switch("--force"@, o.force) + none;
    assert(LocalityCommand::Restore(o).arguments().skip(1) =~= seq![o.path@] + force);
    lemma_nothing("--force"@);
    lemma_switch("--force"@, o.force, none, "--force"@);
    lemma_plain(o.path@, force, "--force"@);
}

/// A command with one positional says it in its arguments.
proof fn lemma_one_positional_reads_back(name: Seq<char>, value: Seq<char>)
    requires
        args::is_plain(value),
    ensures
        args::positional_at(seq![name, value].skip(1), 0) == Some(value),
{
    lemma_flags();
    assert(seq![name, value].skip(1) =~= seq![value] + Seq::<Seq<char>>::empty());
    lemma_plain(value, Seq::empty(), "--all"@);
}

/// A command with an optional positional says in its arguments whether it has it.
proof fn lemma_optional_positional_reads_back(name: Seq<char>, value: Option<String>)
    requires
        plain_option(value),
    ensures
        args::positional_at((seq![name] + cli::positional(value)).skip(1), 0) == text::opt_text(
            value,
        ),
{
    lemma_flags();
    lemma_nothing("--all"@);
    let all = (seq![name] + cli::positional(value)).skip(1);
    match value {
        Some(v) => {
            assert(all =~= seq![v@] + Seq::<Seq<char>>::empty());
            lemma_plain(v@, Seq::empty(), "--all"@);
        },
        None => {
            assert(all =~= Seq::<Seq<char>>::empty());
        },
    }
}

/// The arguments of `connection show` say what was parsed.
proof fn lemma_connection_reads_back(o: ConnectionShowArgs)
    requires
        args::is_plain(o.id@),
    ensures
        requests::shown_connection(
            (LocalityCommand::Connection {
                command: ConnectionCommand::Show(o),
            }).arguments().skip(1),
        ) == Some(o.id@),
{
    lemma_flags();
    reveal_strlit("show");
    let all = (LocalityCommand::Connection { command: ConnectionCommand::Show(o) }).arguments().skip(
        1,
    );
    let id = seq![o.id@] + Seq::<Seq<char>>::empty();
    assert(all =~= seq!["show"@] + id);
    lemma_plain(o.id@, Seq::empty(), "--all"@);
    lemma_plain("show"@, id, "--all"@);
}

/// What the arguments of `connect notion` hold of a flag.
proof fn lemma_connect_notion_flags(o: ConnectNotionArgs, flag: Seq<char>)
    requires
        plain_option(o.name),
        plain_option(o.broker_url),
        plain_option(o.redirect_uri),
        !args::is_plain(flag),
    ensures
        ({
            let all = ConnectCommand::Notion(o).arguments().skip(1);
            &&& args::positionals(all) == seq!["notion"@]
            &&& all.contains(flag) == (o.name is Some && flag == "--name"@ || o.token_stdin && flag
                == "--token-stdin"@ || o.no_browser && flag == "--no-browser"@ || o.direct_oauth
                && flag == "--direct-oauth"@ || o.broker_url is Some && flag == "--broker-url"@
                || o.redirect_uri is Some && flag == "--redirect-uri"@)
            &&& flag == "--name"@ ==> args::value_of(all, flag) == text::opt_text(o.name)
            &&& flag == "--broker-url"@ ==> args::value_of(all, flag) == text::opt_text(
                o.broker_url,
            )
            &&& flag == "--redirect-uri"@ ==> args::value_of(all, flag) == text::opt_text(
                o.redirect_uri,
            )
        }),
{
    lemma_flags();
    lemma_switches();
    reveal_strlit("notion");
    let none = Seq::<Seq<char>>::empty();
    let redirect = cli::option("--redirect-uri"@, o.redirect_uri) + none;
    let broker = cli::option("--broker-url"@, o.broker_url) + redirect;
    let direct = cli::switch("--direct-oauth"@, o.direct_oauth) + broker;
    let browser = cli::switch("--no-browser"@, o.no_browser) + direct;
    let token = cli::switch("--token-stdin"@, o.token_stdin) + browser;
    let name = cli::option("--name"@, o.name) + token;
    let all = seq!["notion"@] + name;
    lemma_regrouped(
        seq!["connect"@, "notion"@],
        cli::option("--name"@, o.name),
        cli::switch("--token-stdin"@, o.token_stdin),
        cli::switch("--no-browser"@, o.no_browser),
        cli::switch("--direct-oauth"@, o.direct_oauth),
        cli::option("--broker-url"@, o.broker_url),
        cli::option("--redirect-uri"@, o.redirect_uri),
    );
    assert(seq!["connect"@, "notion"@].skip(1) =~= seq!["notion"@]);
    lemma_nothing(flag);
    lemma_option("--redirect-uri"@, o.redirect_uri, none, flag);
    lemma_option("--broker-url"@, o.broker_url, redirect, flag);
    lemma_switch("--direct-oauth"@, o.direct_oauth, broker, flag);
    lemma_switch("--no-browser"@, o.no_browser, direct, flag);
    lemma_switch("--token-stdin"@, o.token_stdin, browser, flag);
    lemma_option("--name"@, o.name, token, flag);
    lemma_plain("notion"@, name, flag);
}

/// The arguments of `connect notion` say what was parsed.
proof fn lemma_connect_notion_reads_back(o: ConnectNotionArgs)
    requires
        plain_option(o.name),
        plain_option(o.broker_url),
        plain_option(o.redirect_uri),
    ensures
        ({
            let all = ConnectCommand::Notion(o).arguments().skip(1);
            &&& requests::asks_to_connect(
                all,
                if o.token_stdin {
                    ConnectRoute::NotionToken
                } else if !o.direct_oauth {
                    ConnectRoute::NotionBroker
                } else {
                    ConnectRoute::NotionDirect
                },
                text::opt_text(o.name),
                o.no_browser,
            )
            &&& args::value_of(all, "--broker-url"@) == text::opt_text(o.broker_url)
            &&& args::value_of(all, "--redirect-uri"@) == text::opt_text(o.redirect_uri)
        }),
{
    lemma_flags();
    reveal_strlit("notion");
    reveal_strlit("google-docs");
    lemma_connect_notion_flags(o, "--name"@);
    lemma_connect_notion_flags(o, "--token-stdin"@);
    lemma_connect_notion_flags(o, "--no-browser"@);
    lemma_connect_notion_flags(o, "--direct-oauth"@);
    lemma_connect_notion_flags(o, "--broker-url"@);
    lemma_connect_notion_flags(o, "--redirect-uri"@);
    assert(args::positionals(ConnectCommand::Notion(o).arguments().skip(1))[0] == "notion"@);
    assert("notion"@.len() != "google-docs"@.len());
}

/// What the arguments of `connect google-docs` hold of a flag.
proof fn lemma_connect_google_docs_flags(o: ConnectGoogleDocsArgs, flag: Seq<char>)
    requires
        plain_option(o.name),
        plain_option(o.broker_url),
        plain_option(o.redirect_uri),
        !args::is_plain(flag),
    ensures
        ({
            let all = ConnectCommand::GoogleDocs(o).arguments().skip(1);
            &&& args::positionals(all) == seq!["google-docs"@]
            &&& flag == "--no-browser"@ ==> all.contains(flag) == o.no_browser
            &&& flag == "--name"@ ==> args::value_of(all, flag) == text::opt_text(o.name)
            &&& flag == "--broker-url"@ ==> args::value_of(all, flag) == text::opt_text(
                o.broker_url,
            )
            &&& flag == "--redirect-uri"@ ==> args::value_of(all, flag) == text::opt_text(
                o.redirect_uri,
            )
        }),
{
    lemma_flags();
    lemma_switches();
    reveal_strlit("google-docs");
    let none = Seq::<Seq<char>>::empty();
    let redirect = cli::option("--redirect-uri"@, o.redirect_uri) + none;
    let broker = cli::option("--broker-url"@, o.broker_url) + redirect;
    let browser = cli::switch("--no-browser"@, o.no_browser) + broker;
    let name = cli::option("--name"@, o.name) + browser;
    let all = seq!["google-docs"@] + name;
    assert(ConnectCommand::GoogleDocs(o).arguments().skip(1) =~= all);
    lemma_nothing(flag);
    lemma_option("--redirect-uri"@, o.redirect_uri, none, flag);
    lemma_option("--broker-url"@, o.broker_url, redirect, flag);
    lemma_switch("--no-browser"@, o.no_browser, broker, flag);
    lemma_option("--name"@, o.name, browser, flag);
    lemma_plain("google-docs"@, name, flag);
}

/// The arguments of `connect google-docs` say what was parsed.
proof fn lemma_connect_google_docs_reads_back(o: ConnectGoogleDocsArgs)
    requires
        plain_option(o.name),
        plain_option(o.broker_url),
        plain_option(o.redirect_uri),
    ensures
        ({
            let all = ConnectCommand::GoogleDocs(o).arguments().skip(1);
            &&& requests::asks_to_connect(
                all,
                ConnectRoute::GoogleDocs,
                text::opt_text(o.name),
                o.no_browser,
            )
            &&& args::value_of(all, "--broker-url"@) == text::opt_text(o.broker_url)
            &&& args::value_of(all, "--redirect-uri"@) == text::opt_text(o.redirect_uri)
        }),
{
    lemma_flags();
    lemma_connect_google_docs_flags(o, "--name"@);
    lemma_connect_google_docs_flags(o, "--no-browser"@);
    lemma_connect_google_docs_flags(o, "--broker-url"@);
    lemma_connect_google_docs_flags(o, "--redirect-uri"@);
}

/// What the arguments of `mount notion` hold of a flag.
proof fn lemma_mount_notion_flags(o: MountNotionArgs, flag: Seq<char>)
    requires
        args::is_plain(o.path@),
        plain_option(o.root_page),
        plain_option(o.connection),
        plain_option(o.mount_id),
        plain_option(o.projection),
        !args::is_plain(flag),
    ensures
        ({
            let all = MountCommand::Notion(o).arguments().skip(1);
            &&& args::positionals(all) == seq!["notion"@, o.path@]
            &&& flag == "--workspace"@ ==> all.contains(flag) == o.workspace
            &&& flag == "--read-only"@ ==> all.contains(flag) == o.read_only
            &&& flag == "--root-page"@ ==> args::value_of(all, flag) == text::opt_text(o.root_page)
            &&& flag == "--connection"@ ==> args::value_of(all, flag) == text::opt_text(
                o.connection,
            )
            &&& flag == "--mount-id"@ ==> args::value_of(all, flag) == text::opt_text(o.mount_id)
            &&& flag == "--projection"@ ==> args::value_of(all, flag) == text::opt_text(
                o.projection,
            )
        }),
{
    lemma_flags();
    lemma_switches();
    reveal_strlit("notion");
    let none = Seq::<Seq<char>>::empty();
    let read_only = cli::switch("--read-only"@, o.read_only) + none;
    let projection = cli::option("--projection"@, o.projection) + read_only;
    let id = cli::option("--mount-id"@, o.mount_id) + projection;
    let connection = cli::option("--connection"@, o.connection) + id;
    let page = cli::option("--root-page"@, o.root_page) + connection;
    let workspace = cli::switch("--workspace"@, o.workspace) + page;
    let path = seq![o.path@] + workspace;
    let all = seq!["notion"@] + path;
    lemma_regrouped(
        seq!["mount"@, "notion"@, o.path@],
        cli::switch("--workspace"@, o.workspace),
        cli::option("--root-page"@, o.root_page),
        cli::option("--connection"@, o.connection),
        cli::option("--mount-id"@, o.mount_id),
        cli::option("--projection"@, o.projection),
        cli::switch("--read-only"@, o.read_only),
    );
    assert(seq!["mount"@, "notion"@, o.path@].skip(1) =~= seq!["notion"@] + seq![o.path@]);
    assert((seq!["notion"@] + seq![o.path@]) + workspace =~= all);
    lemma_nothing(flag);
    lemma_switch("--read-only"@, o.read_only, none, flag);
    lemma_option("--projection"@, o.projection, read_only, flag);
    lemma_option("--mount-id"@, o.mount_id, projection, flag);
    lemma_option("--connection"@, o.connection, id, flag);
    lemma_option("--root-page"@, o.root_page, connection, flag);
    lemma_switch("--workspace"@, o.workspace, page, flag);
    lemma_plain(o.path@, workspace, flag);
    lemma_plain("notion"@, path, flag);
}

/// Whether arguments ask for a mount with these values.
pub open spec fn asks_to_mount(
    all: Seq<Seq<char>>,
    connector: Seq<char>,
    path: Seq<char>,
    connection: Option<Seq<char>>,
    mount_id: Option<Seq<char>>,
    projection: Option<Seq<char>>,
    read_only: bool,
) -> bool {
    &&& args::positional_at(all, 0) == Some(connector)
    &&& args::positional_at(all, 1) == Some(path)
    &&& args::value_of(all, "--connection"@) == connection
    &&& args::value_of(all, "--mount-id"@) == mount_id
    &&& args::value_of(all, "--projection"@) == projection
    &&& all.contains("--read-only"@) == read_only
}

/// The arguments of `mount notion` say what was parsed. What is mounted is the
/// page or the workspace, where exactly one of them is named.
proof fn lemma_mount_notion_reads_back(o: MountNotionArgs)
    requires
        args::is_plain(o.path@),
        plain_option(o.root_page),
        plain_option(o.connection),
        plain_option(o.mount_id),
        plain_option(o.projection),
    ensures
        ({
            let all = MountCommand::Notion(o).arguments().skip(1);
            &&& asks_to_mount(
                all,
                "notion"@,
                o.path@,
                text::opt_text(o.connection),
                text::opt_text(o.mount_id),
                text::opt_text(o.projection),
                o.read_only,
            )
            &&& o.workspace && o.root_page is None ==> mounting::root_choice("notion"@, all)
                == mounting::RootChoice::Workspace
            &&& !o.workspace && o.root_page is Some ==> mounting::root_choice("notion"@, all)
                == mounting::RootChoice::Page(o.root_page->0@)
            &&& o.workspace == (o.root_page is Some) ==> mounting::root_choice(
                "notion"@,
                all,
            ) is Refuse
        }),
{
    lemma_flags();
    lemma_mount_notion_flags(o, "--workspace"@);
    lemma_mount_notion_flags(o, "--read-only"@);
    lemma_mount_notion_flags(o, "--root-page"@);
    lemma_mount_notion_flags(o, "--connection"@);
    lemma_mount_notion_flags(o, "--mount-id"@);
    lemma_mount_notion_flags(o, "--projection"@);
}

/// What the arguments of `mount google-docs` hold of a flag.
proof fn lemma_mount_google_docs_flags(o: MountGoogleDocsArgs, flag: Seq<char>)
    requires
        args::is_plain(o.path@),
        args::is_plain(o.workspace_folder@),
        plain_option(o.connection),
        plain_option(o.mount_id),
        plain_option(o.projection),
        !args::is_plain(flag),
    ensures
        ({
            let all = MountCommand::GoogleDocs(o).arguments().skip(1);
            &&& args::positionals(all) == seq!["google-docs"@, o.path@, o.workspace_folder@]
            &&& flag == "--workspace"@ ==> !all.contains(flag)
            &&& flag == "--read-only"@ ==> all.contains(flag) == o.read_only
            &&& flag == "--root-page"@ ==> args::value_of(all, flag) is None
            &&& flag == "--workspace-folder"@ ==> args::value_of(all, flag) == Some(
                o.workspace_folder@,
            )
            &&& flag == "--connection"@ ==> args::value_of(all, flag) == text::opt_text(
                o.connection,
            )
            &&& flag == "--mount-id"@ ==> args::value_of(all, flag) == text::opt_text(o.mount_id)
            &&& flag == "--projection"@ ==> args::value_of(all, flag) == text::opt_text(
                o.projection,
            )
        }),
{
    lemma_flags();
    lemma_switches();
    reveal_strlit("google-docs");
    let none = Seq::<Seq<char>>::empty();
    let read_only = cli::switch("--read-only"@, o.read_only) + none;
    let projection = cli::option("--projection"@, o.projection) + read_only;
    let id = cli::option("--mount-id"@, o.mount_id) + projection;
    let connection = cli::option("--connection"@, o.connection) + id;
    let folder = seq![o.workspace_folder@] + connection;
    let flagged = cli::option("--workspace-folder"@, Some(o.workspace_folder)) + connection;
    let path = seq![o.path@] + flagged;
    let all = seq!["google-docs"@] + path;
    assert(MountCommand::GoogleDocs(o).arguments().skip(1) =~= all);
    lemma_nothing(flag);
    lemma_switch("--read-only"@, o.read_only, none, flag);
    lemma_option("--projection"@, o.projection, read_only, flag);
    lemma_option("--mount-id"@, o.mount_id, projection, flag);
    lemma_option("--connection"@, o.connection, id, flag);
    lemma_plain(o.workspace_folder@, connection, flag);
    lemma_option("--workspace-folder"@, Some(o.workspace_folder), connection, flag);
    assert(flagged =~= seq!["--workspace-folder"@] + folder);
    args::lemma_positionals_switch("--workspace-folder"@, folder);
    lemma_plain(o.path@, flagged, flag);
    lemma_plain("google-docs"@, path, flag);
}

/// The arguments of `mount google-docs` say what was parsed.
proof fn lemma_mount_google_docs_reads_back(o: MountGoogleDocsArgs)
    requires
        args::is_plain(o.path@),
        args::is_plain(o.workspace_folder@),
        plain_option(o.connection),
        plain_option(o.mount_id),
        plain_option(o.projection),
    ensures
        ({
            let all = MountCommand::GoogleDocs(o).arguments().skip(1);
            &&& asks_to_mount(
                all,
                "google-docs"@,
                o.path@,
                text::opt_text(o.connection),
                text::opt_text(o.mount_id),
                text::opt_text(o.projection),
                o.read_only,
            )
            &&& mounting::root_choice("google-docs"@, all) == mounting::RootChoice::Folder(
                o.workspace_folder@,
            )
        }),
{
    lemma_flags();
    reveal_strlit("google-docs");
    reveal_strlit("notion");
    assert("google-docs"@.len() != "notion"@.len());
    lemma_mount_google_docs_flags(o, "--workspace"@);
    lemma_mount_google_docs_flags(o, "--workspace-folder"@);
    lemma_mount_google_docs_flags(o, "--read-only"@);
    lemma_mount_google_docs_flags(o, "--root-page"@);
    lemma_mount_google_docs_flags(o, "--connection"@);
    lemma_mount_google_docs_flags(o, "--mount-id"@);
    lemma_mount_google_docs_flags(o, "--projection"@);
}

/// The arguments of `create page` say what was parsed.
proof fn lemma_create_page_reads_back(o: CreatePageArgs)
    requires
        args::is_plain(o.title@),
        plain_option(o.parent),
    ensures
        requests::asks_to_create_page(
            (LocalityCommand::Create { command: CreateCommand::Page(o) }).arguments().skip(1),
            o.title@,
            text::opt_text(o.parent),
        ),
{
    lemma_flags();
    lemma_create_page_flags(o, "--title"@);
    lemma_create_page_flags(o, "--parent"@);
}

/// What the arguments of `create page` hold of a flag.
proof fn lemma_create_page_flags(o: CreatePageArgs, flag: Seq<char>)
    requires
        args::is_plain(o.title@),
        plain_option(o.parent),
        !args::is_plain(flag),
    ensures
        ({
            let all = (LocalityCommand::Create {
                command: CreateCommand::Page(o),
            }).arguments().skip(1);
            &&& args::positionals(all) == seq!["page"@]
            &&& flag == "--title"@ ==> args::value_of(all, flag) == Some(o.title@)
            &&& flag == "--parent"@ ==> args::value_of(all, flag) == text::opt_text(o.parent)
        }),
{
    lemma_flags();
    reveal_strlit("page");
    let none = Seq::<Seq<char>>::empty();
    let parent = cli::option("--parent"@, o.parent) + none;
    let title = cli::option("--title"@, Some(o.title)) + parent;
    let all = seq!["page"@] + title;
    assert((LocalityCommand::Create { command: CreateCommand::Page(o) }).arguments().skip(1) =~= all);
    lemma_nothing(flag);
    lemma_option("--parent"@, o.parent, none, flag);
    lemma_option("--title"@, Some(o.title), parent, flag);
    lemma_plain("page"@, title, flag);
}

/// The arguments of `templates new` say what was parsed.
proof fn lemma_template_new_reads_back(o: TemplateNewArgs)
    requires
        args::is_plain(o.pack@),
        args::is_plain(o.path@),
    ensures
        requests::asks_of_templates(
            TemplatesCommand::New(o).arguments().skip(1),
            TemplatesRequest::New(
                requests::TemplateNewRequest { pack: o.pack, path: o.path, force: o.force },
            ),
        ),
{
    lemma_flags();
    lemma_switches();
    reveal_strlit("new");
    let flag = "--force"@;
    let none = Seq::<Seq<char>>::empty();
    let force = cli::switch("--force"@, o.force) + none;
    let path = seq![o.path@] + force;
    let pack = seq![o.pack@] + path;
    let all = seq!["new"@] + pack;
    assert(TemplatesCommand::New(o).arguments().skip(1) =~= all);
    lemma_nothing(flag);
    lemma_switch("--force"@, o.force, none, flag);
    lemma_plain(o.path@, force, flag);
    lemma_plain(o.pack@, path, flag);
    lemma_plain("new"@, pack, flag);
}

/// The arguments of `templates list` say what was parsed.
proof fn lemma_template_list_reads_back()
    ensures
        requests::asks_of_templates(
            TemplatesCommand::List.arguments().skip(1),
            TemplatesRequest::List,
        ),
{
    lemma_flags();
    reveal_strlit("list");
    let flag = "--force"@;
    let none = Seq::<Seq<char>>::empty();
    assert(TemplatesCommand::List.arguments().skip(1) =~= seq!["list"@] + none);
    lemma_nothing(flag);
    lemma_plain("list"@, none, flag);
}

/// The arguments of `templates validate` say what was parsed.
proof fn lemma_template_validate_reads_back(o: TemplateValidateArgs)
    requires
        args::is_plain(o.path@),
    ensures
        requests::asks_of_templates(
            TemplatesCommand::Validate(o).arguments().skip(1),
            TemplatesRequest::Validate(requests::TemplateValidateRequest { path: o.path }),
        ),
{
    lemma_flags();
    reveal_strlit("validate");
    let flag = "--force"@;
    let none = Seq::<Seq<char>>::empty();
    let path = seq![o.path@] + none;
    assert(TemplatesCommand::Validate(o).arguments().skip(1) =~= seq!["validate"@] + path);
    lemma_nothing(flag);
    lemma_plain(o.path@, none, flag);
    lemma_plain("validate"@, path, flag);
}

/// What the arguments of `templates apply` hold of a flag.
proof fn lemma_template_apply_flags(o: TemplateApplyArgs, flag: Seq<char>)
    requires
        args::is_plain(o.pack@),
        args::is_plain(o.template@),
        args::is_plain(o.to@),
        plain_option(o.title),
        !args::is_plain(flag),
    ensures
        ({
            let all = TemplatesCommand::Apply(o).arguments().skip(1);
            &&& args::positionals(all) == seq!["apply"@, o.pack@, o.template@, o.to@]
            &&& flag == "--force"@ ==> all.contains(flag) == o.force
            &&& flag == "--to"@ ==> args::value_of(all, flag) == Some(o.to@)
            &&& flag == "--title"@ ==> args::value_of(all, flag) == text::opt_text(o.title)
        }),
{
    lemma_flags();
    lemma_switches();
    reveal_strlit("apply");
    let none = Seq::<Seq<char>>::empty();
    let force = cli::switch("--force"@, o.force) + none;
    let title = cli::option("--title"@, o.title) + force;
    let directory = seq![o.to@] + title;
    let to = cli::option("--to"@, Some(o.to)) + title;
    let template = seq![o.template@] + to;
    let pack = seq![o.pack@] + template;
    let all = seq!["apply"@] + pack;
    assert(TemplatesCommand::Apply(o).arguments().skip(1) =~= all);
    lemma_nothing(flag);
    lemma_switch("--force"@, o.force, none, flag);
    lemma_option("--title"@, o.title, force, flag);
    lemma_plain(o.to@, title, flag);
    lemma_option("--to"@, Some(o.to), title, flag);
    assert(to =~= seq!["--to"@] + directory);
    args::lemma_positionals_switch("--to"@, directory);
    lemma_plain(o.template@, to, flag);
    lemma_plain(o.pack@, template, flag);
    lemma_plain("apply"@, pack, flag);
}

/// The arguments of `templates apply` say what was parsed.
proof fn lemma_template_apply_reads_back(o: TemplateApplyArgs)
    requires
        args::is_plain(o.pack@),
        args::is_plain(o.template@),
        args::is_plain(o.to@),
        plain_option(o.title),
    ensures
        requests::asks_of_templates(
            TemplatesCommand::Apply(o).arguments().skip(1),
            TemplatesRequest::Apply(
                requests::TemplateApplyRequest {
                    pack: o.pack,
                    template: o.template,
                    target_dir: o.to,
                    title: o.title,
                    force: o.force,
                },
            ),
        ),
{
    lemma_flags();
    lemma_template_apply_flags(o, "--force"@);
    lemma_template_apply_flags(o, "--to"@);
    lemma_template_apply_flags(o, "--title"@);
}

/// The arguments of `okf export` say what was parsed.
proof fn lemma_okf_export_reads_back(o: OkfExportArgs)
    requires
        args::is_plain(o.path@),
        args::is_plain(o.out@),
    ensures
        requests::asks_to_export(
            (LocalityCommand::Okf { command: OkfCommand::Export(o) }).arguments().skip(1),
            o.path@,
            o.out@,
        ),
{
    lemma_flags();
    lemma_switches();
    reveal_strlit("export");
    let flag = "--out"@;
    let none = Seq::<Seq<char>>::empty();
    let directory = seq![o.out@] + none;
    let out = cli::option("--out"@, Some(o.out)) + none;
    let path = seq![o.path@] + out;
    let all = seq!["export"@] + path;
    assert((LocalityCommand::Okf { command: OkfCommand::Export(o) }).arguments().skip(1) =~= all);
    lemma_nothing(flag);
    lemma_plain(o.out@, none, flag);
    lemma_option("--out"@, Some(o.out), none, flag);
    assert(out =~= seq!["--out"@] + directory);
    args::lemma_positionals_switch("--out"@, directory);
    lemma_plain(o.path@, out, flag);
    lemma_plain("export"@, path, flag);
}

/// What several positionals in front of other arguments change.
proof fn lemma_words(words: Seq<Seq<char>>, rest: Seq<Seq<char>>, flag: Seq<char>)
    requires
        forall|i: int| 0 <= i < words.len() ==> args::is_plain(#[trigger] words[i]),
        !args::is_plain(flag),
    ensures
        args::positionals(words + rest) == words + args::positionals(rest),
        (words + rest).contains(flag) == rest.contains(flag),
        args::value_of(words + rest, flag) == args::value_of(rest, flag),
    decreases words.len(),
{
    if words.len() == 0 {
        assert(words + rest =~= rest);
        assert(words + args::positionals(rest) =~= args::positionals(rest));
    } else {
        let first = words[0];
        let others = words.skip(1);
        assert forall|i: int| 0 <= i < others.len() implies args::is_plain(
            #[trigger] others[i],
        ) by {
            assert(others[i] == words[i + 1]);
        }
        lemma_words(others, rest, flag);
        lemma_plain(first, others + rest, flag);
        assert(words + rest =~= seq![first] + (others + rest));
        assert(words + args::positionals(rest) =~= seq![first] + (others + args::positionals(
            rest,
        )));
    }
}

/// What the arguments of `search` hold of a flag.
proof fn lemma_search_flags(o: SearchArgs, flag: Seq<char>)
    requires
        forall|i: int| 0 <= i < o.query.len() ==> args::is_plain(#[trigger] o.query[i]@),
        plain_option(o.connector),
        !args::is_plain(flag),
    ensures
        ({
            let all = o.arguments().skip(1);
            &&& args::positionals(all) == text::texts(o.query@)
            &&& flag == "--all"@ ==> all.contains(flag) == o.all
            &&& flag == "--connector"@ ==> args::value_of(all, flag) == text::opt_text(o.connector)
            &&& flag == "--limit"@ ==> args::value_of(all, flag) == Some(
                text::decimal(o.limit as nat),
            )
        }),
{
    lemma_flags();
    lemma_switches();
    let digits = text::decimal(o.limit as nat);
    text::lemma_decimal_parses(o.limit as nat);
    assert(args::is_plain(digits));
    let none = Seq::<Seq<char>>::empty();
    let every = cli::switch("--all"@, o.all) + none;
    let limit = seq!["--limit"@, digits] + every;
    let connector = cli::option("--connector"@, o.connector) + limit;
    let words = text::texts(o.query@);
    assert(o.arguments().skip(1) =~= words + connector);
    lemma_nothing(flag);
    lemma_switch("--all"@, o.all, none, flag);
    args::lemma_positionals_option("--limit"@, digits, every);
    if flag == "--limit"@ {
        args::lemma_value_of_first(flag, digits, every);
    } else {
        let front = seq!["--limit"@, digits];
        assert(!front.contains(flag)) by {
            if front.contains(flag) {
                let i = choose|i: int| 0 <= i < front.len() && front[i] == flag;
                assert(front[i] == "--limit"@ || front[i] == digits);
            }
        }
        lemma_contains_concat(front, every, flag);
        args::lemma_value_of_behind(front, every, flag);
    }
    lemma_option("--connector"@, o.connector, limit, flag);
    assert forall|i: int| 0 <= i < words.len() implies args::is_plain(#[trigger] words[i]) by {
        assert(words[i] == o.query[i]@);
    }
    lemma_words(words, connector, flag);
    assert(words + none =~= words);
}

/// The arguments of `search` say what was parsed.
proof fn lemma_search_reads_back(o: SearchArgs)
    requires
        forall|i: int| 0 <= i < o.query.len() ==> args::is_plain(#[trigger] o.query[i]@),
        plain_option(o.connector),
    ensures
        requests::asks_to_search(
            LocalityCommand::Search(o).arguments().skip(1),
            text::joined(text::texts(o.query@), " "@),
            text::opt_text(o.connector),
            o.limit,
            o.all,
        ),
{
    lemma_flags();
    lemma_search_flags(o, "--all"@);
    lemma_search_flags(o, "--connector"@);
    lemma_search_flags(o, "--limit"@);
    text::lemma_decimal_parses(o.limit as nat);
}

/// What a parsed `file-provider` command asks for.
pub open spec fn provider_request(command: FileProviderCommand) -> FileProviderRequest {
    let on = |action: ProviderAction, o: FileProviderTargetArg|
        FileProviderRequest::OnMount(
            requests::MountProviderRequest { action, target: o.target },
        );
    match command {
        FileProviderCommand::Register(o) => on(ProviderAction::Register, o),
        FileProviderCommand::Start(o) => on(
            ProviderAction::Lifecycle(WindowsCloudFilesLifecycleAction::Start),
            o,
        ),
        FileProviderCommand::Run(o) => on(ProviderAction::Run, o),
        FileProviderCommand::Stop(o) => on(
            ProviderAction::Lifecycle(WindowsCloudFilesLifecycleAction::Stop),
            o,
        ),
        FileProviderCommand::Status(o) => on(
            ProviderAction::Lifecycle(WindowsCloudFilesLifecycleAction::Status),
            o,
        ),
        FileProviderCommand::Restart(o) => on(
            ProviderAction::Lifecycle(WindowsCloudFilesLifecycleAction::Restart),
            o,
        ),
        FileProviderCommand::Open(o) => on(ProviderAction::Open, o),
        FileProviderCommand::Unregister(o) => on(ProviderAction::Unregister, o),
        FileProviderCommand::List => FileProviderRequest::List,
        FileProviderCommand::Reset => FileProviderRequest::Reset,
    }
}

/// The words that `file-provider` knows.
proof fn lemma_provider_words()
    ensures
        requests::provider_action("register"@) == Some(ProviderAction::Register),
        requests::provider_action("start"@) == Some(
            ProviderAction::Lifecycle(WindowsCloudFilesLifecycleAction::Start),
        ),
        requests::provider_action("run"@) == Some(ProviderAction::Run),
        requests::provider_action("stop"@) == Some(
            ProviderAction::Lifecycle(WindowsCloudFilesLifecycleAction::Stop),
        ),
        requests::provider_action("status"@) == Some(
            ProviderAction::Lifecycle(WindowsCloudFilesLifecycleAction::Status),
        ),
        requests::provider_action("restart"@) == Some(
            ProviderAction::Lifecycle(WindowsCloudFilesLifecycleAction::Restart),
        ),
        requests::provider_action("open"@) == Some(ProviderAction::Open),
        requests::provider_action("unregister"@) == Some(ProviderAction::Unregister),
        args::is_plain("register"@),
        args::is_plain("start"@),
        args::is_plain("run"@),
        args::is_plain("stop"@),
        args::is_plain("status"@),
        args::is_plain("restart"@),
        args::is_plain("open"@),
        args::is_plain("unregister"@),
        args::is_plain("list"@),
        args::is_plain("reset"@),
{
    reveal_strlit("register");
    reveal_strlit("start");
    reveal_strlit("run");
    reveal_strlit("stop");
    reveal_strlit("status");
    reveal_strlit("restart");
    reveal_strlit("open");
    reveal_strlit("unregister");
    reveal_strlit("list");
    reveal_strlit("reset");
    assert("register"@.len() == 8);
    assert("start"@.len() == 5);
    assert("run"@.len() == 3);
    assert("stop"@.len() == 4 && "stop"@[0] == 's');
    assert("status"@.len() == 6);
    assert("restart"@.len() == 7);
    assert("open"@.len() == 4 && "open"@[0] == 'o');
    assert("unregister"@.len() == 10);
}

/// The arguments of `file-provider` say what was parsed.
proof fn lemma_file_provider_reads_back(command: FileProviderCommand)
    requires
        match provider_request(command) {
            FileProviderRequest::OnMount(q) => args::is_plain(q.target@),
            _ => true,
        },
    ensures
        requests::asks_of_provider(command.arguments().skip(1), provider_request(command)),
{
    lemma_flags();
    lemma_provider_words();
    let flag = "--all"@;
    let none = Seq::<Seq<char>>::empty();
    lemma_nothing(flag);
    match provider_request(command) {
        FileProviderRequest::OnMount(q) => {
            let target = seq![q.target@] + none;
            assert(command.arguments().skip(1) =~= seq![q.action.name()] + target);
            lemma_plain(q.target@, none, flag);
            lemma_plain(q.action.name(), target, flag);
        },
        FileProviderRequest::List => {
            assert(command.arguments().skip(1) =~= seq!["list"@] + none);
            lemma_plain("list"@, none, flag);
        },
        FileProviderRequest::Reset => {
            assert(command.arguments().skip(1) =~= seq!["reset"@] + none);
            lemma_plain("reset"@, none, flag);
        },
    }
}

/// The values of a flag behind other arguments than that flag.
proof fn lemma_values_behind(front: Seq<Seq<char>>, rest: Seq<Seq<char>>, flag: Seq<char>)
    requires
        !front.contains(flag),
    ensures
        args::values_of(front + rest, flag) == args::values_of(rest, flag),
    decreases front.len(),
{
    if front.len() == 0 {
        assert(front + rest =~= rest);
    } else {
        let others = front.skip(1);
        assert(front[0] != flag);
        assert(!others.contains(flag)) by {
            if others.contains(flag) {
                let i = choose|i: int| 0 <= i < others.len() && others[i] == flag;
                assert(front[i + 1] == flag);
            }
        }
        lemma_values_behind(others, rest, flag);
        assert((front + rest).skip(1) =~= others + rest);
    }
}

/// A flag in front of each of several values has these values.
proof fn lemma_repeated(name: Seq<char>, values: Seq<Seq<char>>, rest: Seq<Seq<char>>)
    requires
        forall|i: int| 0 <= i < values.len() ==> args::is_plain(#[trigger] values[i]),
    ensures
        args::values_of(cli::repeated(name, values) + rest, name) == values + args::values_of(
            rest,
            name,
        ),
        forall|flag: Seq<char>|
            !args::is_plain(flag) && flag != name ==> !#[trigger] cli::repeated(
                name,
                values,
            ).contains(flag),
    decreases values.len(),
{
    if values.len() == 0 {
        assert(cli::repeated(name, values) + rest =~= rest);
        assert(values + args::values_of(rest, name) =~= args::values_of(rest, name));
    } else {
        let others = values.drop_last();
        let pair = seq![name, values.last()];
        assert forall|i: int| 0 <= i < others.len() implies args::is_plain(
            #[trigger] others[i],
        ) by {
            assert(others[i] == values[i]);
        }
        lemma_repeated(name, others, pair + rest);
        assert(cli::repeated(name, values) + rest =~= cli::repeated(name, others) + (pair + rest));
        assert(args::is_plain(values[values.len() - 1]));
        assert((pair + rest)[0] == name && (pair + rest)[1] == values.last());
        assert((pair + rest).skip(2) =~= rest);
        assert(values + args::values_of(rest, name) =~= others + (seq![values.last()]
            + args::values_of(rest, name)));
        assert forall|flag: Seq<char>|
            !args::is_plain(flag) && flag != name implies !#[trigger] cli::repeated(
            name,
            values,
        ).contains(flag) by {
            lemma_contains_concat(cli::repeated(name, others), pair, flag);
            if pair.contains(flag) {
                let i = choose|i: int| 0 <= i < pair.len() && pair[i] == flag;
                assert(pair[i] == name || pair[i] == values.last());
            }
        }
    }
}

/// Enough of the spelling of each flag of `daemon` to tell it from the others.
proof fn lemma_daemon_flags()
    ensures
        "--session"@.len() == 9 && "--session"@[0] == '-' && "--session"@[2] == 's',
        "--launchd"@.len() == 9 && "--launchd"@[0] == '-' && "--launchd"@[2] == 'l',
        "--localityd-bin"@.len() == 15 && "--localityd-bin"@[0] == '-',
        "--state-dir"@.len() == 11 && "--state-dir"@[0] == '-',
        "--tcp-addr"@.len() == 10 && "--tcp-addr"@[0] == '-',
        "--include-env"@.len() == 13 && "--include-env"@[0] == '-',
        !args::is_value_flag("--session"@),
        !args::is_value_flag("--launchd"@),
{
    lemma_flags();
    reveal_strlit("--session");
    reveal_strlit("--launchd");
    reveal_strlit("--localityd-bin");
    reveal_strlit("--state-dir");
    reveal_strlit("--tcp-addr");
    reveal_strlit("--include-env");
}

/// The options of `daemon`, put together from the right behind a word.
spec fn daemon_options(o: DaemonArgs, word: Seq<char>, rest: Seq<Seq<char>>) -> Seq<Seq<char>> {
    seq![word] + (cli::switch("--session"@, o.session) + (cli::switch("--launchd"@, o.launchd) + (
    cli::option("--localityd-bin"@, o.localityd_bin) + (cli::option("--state-dir"@, o.state_dir) + (
    cli::option("--tcp-addr"@, o.tcp_addr) + rest)))))
}

/// What the options of `daemon` hold of a flag, with other arguments behind.
proof fn lemma_daemon_options(
    o: DaemonArgs,
    word: Seq<char>,
    rest: Seq<Seq<char>>,
    flag: Seq<char>,
)
    requires
        args::is_plain(word),
        plain_option(o.localityd_bin),
        plain_option(o.state_dir),
        plain_option(o.tcp_addr),
        !args::is_plain(flag),
        !rest.contains(flag),
    ensures
        ({
            let all = daemon_options(o, word, rest);
            &&& flag == "--session"@ ==> all.contains(flag) == o.session
            &&& flag == "--launchd"@ ==> all.contains(flag) == o.launchd
            &&& flag == "--include-env"@ ==> !all.contains(flag)
            &&& flag == "--localityd-bin"@ ==> args::value_of(all, flag) == text::opt_text(
                o.localityd_bin,
            )
            &&& flag == "--state-dir"@ ==> args::value_of(all, flag) == text::opt_text(o.state_dir)
            &&& flag == "--tcp-addr"@ ==> args::value_of(all, flag) == text::opt_text(o.tcp_addr)
        }),
{
    lemma_daemon_flags();
    let address = cli::option("--tcp-addr"@, o.tcp_addr) + rest;
    let state = cli::option("--state-dir"@, o.state_dir) + address;
    let program = cli::option("--localityd-bin"@, o.localityd_bin) + state;
    let launchd = cli::switch("--launchd"@, o.launchd) + program;
    let session = cli::switch("--session"@, o.session) + launchd;
    args::lemma_value_of_absent(rest, flag);
    lemma_option("--tcp-addr"@, o.tcp_addr, rest, flag);
    lemma_option("--state-dir"@, o.state_dir, address, flag);
    lemma_option("--localityd-bin"@, o.localityd_bin, state, flag);
    lemma_switch("--launchd"@, o.launchd, program, flag);
    lemma_switch("--session"@, o.session, launchd, flag);
    lemma_plain(word, session, flag);
}

/// Arguments that are put together from the left are those put together from
/// the right.
proof fn lemma_grouped(
    word: Seq<Seq<char>>,
    a: Seq<Seq<char>>,
    b: Seq<Seq<char>>,
    c: Seq<Seq<char>>,
    d: Seq<Seq<char>>,
    e: Seq<Seq<char>>,
    f: Seq<Seq<char>>,
)
    ensures
        word + (a + b + c + d + e + f) == word + (a + (b + (c + (d + (e + f))))),
        word + (a + (b + (c + (d + (e + f))))) == word + (a + (b + (c + (d + (e + Seq::<
            Seq<char>,
        >::empty()))))) + f,
{
    assert(word + (a + b + c + d + e + f) =~= word + (a + (b + (c + (d + (e + f))))));
    assert(word + (a + (b + (c + (d + (e + f))))) =~= word + (a + (b + (c + (d + (e + Seq::<
        Seq<char>,
    >::empty()))))) + f);
}

/// The action and the options of a parsed `daemon` command.
pub open spec fn daemon_parts(command: DaemonCommand) -> (DaemonAction, DaemonArgs) {
    match command {
        DaemonCommand::Start(o) => (DaemonAction::Start, o),
        DaemonCommand::Stop(o) => (DaemonAction::Stop, o),
        DaemonCommand::Status(o) => (DaemonAction::Status, o),
        DaemonCommand::Reload(o) => (DaemonAction::Reload, o),
        DaemonCommand::Restart(o) => (DaemonAction::Restart, o),
    }
}

/// The arguments of `daemon` say what was parsed: the action, the ways to
/// start, and the values of the options.
proof fn lemma_daemon_reads_back(command: DaemonCommand)
    requires
        ({
            let o = daemon_parts(command).1;
            &&& plain_option(o.localityd_bin)
            &&& plain_option(o.state_dir)
            &&& plain_option(o.tcp_addr)
            &&& forall|i: int|
                0 <= i < o.include_env.len() ==> args::is_plain(#[trigger] o.include_env[i]@)
        }),
    ensures
        ({
            let all = command.arguments().skip(1);
            let (action, o) = daemon_parts(command);
            &&& daemon::daemon_word(all) is Some
            &&& DaemonAction::named(daemon::daemon_word(all)->0) == Some(action)
            &&& all.contains("--session"@) == o.session
            &&& all.contains("--launchd"@) == o.launchd
            &&& args::value_of(all, "--localityd-bin"@) == text::opt_text(o.localityd_bin)
            &&& args::value_of(all, "--state-dir"@) == text::opt_text(o.state_dir)
            &&& args::value_of(all, "--tcp-addr"@) == text::opt_text(o.tcp_addr)
            &&& args::values_of(all, "--include-env"@) == text::texts(o.include_env@)
        }),
{
    lemma_daemon_flags();
    let (action, o) = daemon_parts(command);
    let word = action.name();
    daemon::law_action_names_read_back(action);
    reveal_strlit("start");
    reveal_strlit("stop");
    reveal_strlit("status");
    reveal_strlit("reload");
    reveal_strlit("restart");
    assert(args::is_plain(word));
    let all = command.arguments().skip(1);
    let name = "--include-env"@;
    let none = Seq::<Seq<char>>::empty();
    let values = text::texts(o.include_env@);
    let repeated = cli::repeated(name, values);
    assert forall|i: int| 0 <= i < values.len() implies args::is_plain(#[trigger] values[i]) by {
        assert(values[i] == o.include_env[i]@);
    }
    lemma_repeated(name, values, none);
    lemma_grouped(
        seq![word],
        cli::switch("--session"@, o.session),
        cli::switch("--launchd"@, o.launchd),
        cli::option("--localityd-bin"@, o.localityd_bin),
        cli::option("--state-dir"@, o.state_dir),
        cli::option("--tcp-addr"@, o.tcp_addr),
        repeated,
    );
    assert(all =~= seq![word] + o.arguments());
    assert(all == daemon_options(o, word, repeated));
    assert(all == daemon_options(o, word, none) + repeated);
    assert(all[0] == word);
    lemma_daemon_options(o, word, repeated, "--session"@);
    lemma_daemon_options(o, word, repeated, "--launchd"@);
    lemma_daemon_options(o, word, repeated, "--localityd-bin"@);
    lemma_daemon_options(o, word, repeated, "--state-dir"@);
    lemma_daemon_options(o, word, repeated, "--tcp-addr"@);
    lemma_nothing(name);
    lemma_daemon_options(o, word, none, name);
    lemma_values_behind(daemon_options(o, word, none), repeated, name);
    assert(repeated + none =~= repeated);
    assert(values + args::values_of(none, name) =~= values);
}

/// The name that a command is called by.
pub open spec fn command_name(command: LocalityCommand) -> Seq<char> {
    match command {
        LocalityCommand::Connect { .. } => "connect"@,
        LocalityCommand::Connections => "connections"@,
        LocalityCommand::Profiles => "profiles"@,
        LocalityCommand::Connection { .. } => "connection"@,
        LocalityCommand::Disconnect(_) => "disconnect"@,
        LocalityCommand::Daemon { .. } => "daemon"@,
        LocalityCommand::Mount { .. } => "mount"@,
        LocalityCommand::Info(_) => "info"@,
        LocalityCommand::Status(_) => "status"@,
        LocalityCommand::Doctor => "doctor"@,
        LocalityCommand::Search(_) => "search"@,
        LocalityCommand::Create { .. } => "create"@,
        LocalityCommand::Templates { .. } => "templates"@,
        LocalityCommand::Okf { .. } => "okf"@,
        LocalityCommand::Inspect(_) => "inspect"@,
        LocalityCommand::Pull(_) => "pull"@,
        LocalityCommand::Push(_) => "push"@,
        LocalityCommand::Diff(_) => "diff"@,
        LocalityCommand::Undo(_) => "undo"@,
        LocalityCommand::Log(_) => "log"@,
        LocalityCommand::Restore(_) => "restore"@,
        LocalityCommand::Config => "config"@,
        LocalityCommand::Mcp => "mcp"@,
        LocalityCommand::FileProvider { .. } => "file-provider"@,
    }
}

/// Whether no value of a command can be taken for a flag.
pub open spec fn values_are_plain(command: LocalityCommand) -> bool {
    match command {
        LocalityCommand::Connect { command: ConnectCommand::Notion(o) } => {
            &&& plain_option(o.name)
            &&& plain_option(o.broker_url)
            &&& plain_option(o.redirect_uri)
        },
        LocalityCommand::Connect { command: ConnectCommand::GoogleDocs(o) } => {
            &&& plain_option(o.name)
            &&& plain_option(o.broker_url)
            &&& plain_option(o.redirect_uri)
        },
        LocalityCommand::Connection { command: ConnectionCommand::Show(o) } => args::is_plain(o.id@),
        LocalityCommand::Disconnect(o) => args::is_plain(o.id@),
        LocalityCommand::Daemon { command } => {
            let o = daemon_parts(command).1;
            &&& plain_option(o.localityd_bin)
            &&& plain_option(o.state_dir)
            &&& plain_option(o.tcp_addr)
            &&& forall|i: int|
                0 <= i < o.include_env.len() ==> args::is_plain(#[trigger] o.include_env[i]@)
        },
        LocalityCommand::Mount { command: MountCommand::Notion(o) } => {
            &&& args::is_plain(o.path@)
            &&& plain_option(o.root_page)
            &&& plain_option(o.connection)
            &&& plain_option(o.mount_id)
            &&& plain_option(o.projection)
        },
        LocalityCommand::Mount { command: MountCommand::GoogleDocs(o) } => {
            &&& args::is_plain(o.path@)
            &&& args::is_plain(o.workspace_folder@)
            &&& plain_option(o.connection)
            &&& plain_option(o.mount_id)
            &&& plain_option(o.projection)
        },
        LocalityCommand::Info(o) => plain_option(o.path),
        LocalityCommand::Status(o) => plain_option(o.path),
        LocalityCommand::Search(o) => {
            &&& forall|i: int| 0 <= i < o.query.len() ==> args::is_plain(#[trigger] o.query[i]@)
            &&& plain_option(o.connector)
        },
        LocalityCommand::Create { command: CreateCommand::Page(o) } => {
            &&& args::is_plain(o.title@)
            &&& plain_option(o.parent)
        },
        LocalityCommand::Templates { command: TemplatesCommand::Validate(o) } => args::is_plain(
            o.path@,
        ),
        LocalityCommand::Templates { command: TemplatesCommand::New(o) } => {
            &&& args::is_plain(o.pack@)
            &&& args::is_plain(o.path@)
        },
        LocalityCommand::Templates { command: TemplatesCommand::Apply(o) } => {
            &&& args::is_plain(o.pack@)
            &&& args::is_plain(o.template@)
            &&& args::is_plain(o.to@)
            &&& plain_option(o.title)
        },
        LocalityCommand::Okf { command: OkfCommand::Export(o) } => {
            &&& args::is_plain(o.path@)
            &&& args::is_plain(o.out@)
        },
        LocalityCommand::Inspect(o) => plain_option(o.path),
        LocalityCommand::Pull(o) => args::is_plain(o.path@),
        LocalityCommand::Push(o) => args::is_plain(o.path@),
        LocalityCommand::Diff(o) => args::is_plain(o.path@),
        LocalityCommand::Undo(o) => args::is_plain(o.push_id@),
        LocalityCommand::Log(o) => plain_option(o.path),
        LocalityCommand::Restore(o) => args::is_plain(o.path@),
        LocalityCommand::FileProvider { command } => match provider_request(command) {
            FileProviderRequest::OnMount(q) => args::is_plain(q.target@),
            _ => true,
        },
        _ => true,
    }
}

/// Whether what is read out of `all`, the arguments behind the name, is the
/// command's own fields.
pub open spec fn says(command: LocalityCommand, all: Seq<Seq<char>>) -> bool {
    match command {
        LocalityCommand::Connect { command: ConnectCommand::Notion(o) } => {
            &&& requests::asks_to_connect(
                all,
                if o.token_stdin {
                    ConnectRoute::NotionToken
                } else if !o.direct_oauth {
                    ConnectRoute::NotionBroker
                } else {
                    ConnectRoute::NotionDirect
                },
                text::opt_text(o.name),
                o.no_browser,
            )
            &&& args::value_of(all, "--broker-url"@) == text::opt_text(o.broker_url)
            &&& args::value_of(all, "--redirect-uri"@) == text::opt_text(o.redirect_uri)
        },
        LocalityCommand::Connect { command: ConnectCommand::GoogleDocs(o) } => {
            &&& requests::asks_to_connect(
                all,
                ConnectRoute::GoogleDocs,
                text::opt_text(o.name),
                o.no_browser,
            )
            &&& args::value_of(all, "--broker-url"@) == text::opt_text(o.broker_url)
            &&& args::value_of(all, "--redirect-uri"@) == text::opt_text(o.redirect_uri)
        },
        LocalityCommand::Connection { command: ConnectionCommand::Show(o) } =>
        requests::shown_connection(all) == Some(o.id@),
        LocalityCommand::Disconnect(o) => args::positional_at(all, 0) == Some(o.id@),
        LocalityCommand::Daemon { command } => {
            let (action, o) = daemon_parts(command);
            &&& daemon::daemon_word(all) is Some
            &&& DaemonAction::named(daemon::daemon_word(all)->0) == Some(action)
            &&& all.contains("--session"@) == o.session
            &&& all.contains("--launchd"@) == o.launchd
            &&& args::value_of(all, "--localityd-bin"@) == text::opt_text(o.localityd_bin)
            &&& args::value_of(all, "--state-dir"@) == text::opt_text(o.state_dir)
            &&& args::value_of(all, "--tcp-addr"@) == text::opt_text(o.tcp_addr)
            &&& args::values_of(all, "--include-env"@) == text::texts(o.include_env@)
        },
        LocalityCommand::Mount { command: MountCommand::Notion(o) } => {
            &&& asks_to_mount(
                all,
                "notion"@,
                o.path@,
                text::opt_text(o.connection),
                text::opt_text(o.mount_id),
                text::opt_text(o.projection),
                o.read_only,
            )
            &&& o.workspace && o.root_page is None ==> mounting::root_choice("notion"@, all)
                == mounting::RootChoice::Workspace
            &&& !o.workspace && o.root_page is Some ==> mounting::root_choice("notion"@, all)
                == mounting::RootChoice::Page(o.root_page->0@)
            &&& o.workspace == (o.root_page is Some) ==> mounting::root_choice(
                "notion"@,
                all,
            ) is Refuse
        },
        LocalityCommand::Mount { command: MountCommand::GoogleDocs(o) } => {
            &&& asks_to_mount(
                all,
                "google-docs"@,
                o.path@,
                text::opt_text(o.connection),
                text::opt_text(o.mount_id),
                text::opt_text(o.projection),
                o.read_only,
            )
            &&& mounting::root_choice("google-docs"@, all) == mounting::RootChoice::Folder(
                o.workspace_folder@,
            )
        },
        LocalityCommand::Info(o) => args::positional_at(all, 0) == text::opt_text(o.path),
        LocalityCommand::Status(o) => args::positional_at(all, 0) == text::opt_text(o.path),
        LocalityCommand::Search(o) => requests::asks_to_search(
            all,
            text::joined(text::texts(o.query@), " "@),
            text::opt_text(o.connector),
            o.limit,
            o.all,
        ),
        LocalityCommand::Create { command: CreateCommand::Page(o) } =>
        requests::asks_to_create_page(all, o.title@, text::opt_text(o.parent)),
        LocalityCommand::Templates { command } => requests::asks_of_templates(
            all,
            templates_request(command),
        ),
        LocalityCommand::Okf { command: OkfCommand::Export(o) } => requests::asks_to_export(
            all,
            o.path@,
            o.out@,
        ),
        LocalityCommand::Inspect(o) => args::positional_at(all, 0) == text::opt_text(o.path),
        LocalityCommand::Pull(o) => args::positional_at(all, 0) == Some(o.path@),
        LocalityCommand::Push(o) => requests::asks_to_push(
            all,
            o.path@,
            PushOptions { assume_yes: o.yes, confirm_dangerous: o.confirm },
        ),
        LocalityCommand::Diff(o) => args::positional_at(all, 0) == Some(o.path@),
        LocalityCommand::Undo(o) => args::positional_at(all, 0) == Some(o.push_id@),
        LocalityCommand::Log(o) => args::positional_at(all, 0) == text::opt_text(o.path),
        LocalityCommand::Restore(o) => requests::asks_to_restore(all, o.path@, o.force),
        LocalityCommand::FileProvider { command } => requests::asks_of_provider(
            all,
            provider_request(command),
        ),
        _ => all.len() == 0,
    }
}

/// The request that a template command makes.
pub open spec fn templates_request(command: TemplatesCommand) -> TemplatesRequest {
    match command {
        TemplatesCommand::List => TemplatesRequest::List,
        TemplatesCommand::Validate(o) => TemplatesRequest::Validate(
            requests::TemplateValidateRequest { path: o.path },
        ),
        TemplatesCommand::New(o) => TemplatesRequest::New(
            requests::TemplateNewRequest { pack: o.pack, path: o.path, force: o.force },
        ),
        TemplatesCommand::Apply(o) => TemplatesRequest::Apply(
            requests::TemplateApplyRequest {
                pack: o.pack,
                template: o.template,
                target_dir: o.to,
                title: o.title,
                force: o.force,
            },
        ),
    }
}

/// The arguments of every command begin with its name, and what the command
/// reads out of the rest is what was parsed, where no value can be taken for a
/// flag.
pub proof fn law_arguments_read_back(command: LocalityCommand)
    ensures
        command.arguments().len() > 0,
        command.arguments()[0] == command_name(command),
        values_are_plain(command) ==> says(command, command.arguments().skip(1)),
{
    lemma_begins_with_name(command);
    if values_are_plain(command) {
        lemma_says(command);
    }
}

proof fn lemma_begins_with_name(command: LocalityCommand)
    ensures
        command.arguments().len() > 0,
        command.arguments()[0] == command_name(command),
{
}

proof fn lemma_says(command: LocalityCommand)
    requires
        values_are_plain(command),
    ensures
        says(command, command.arguments().skip(1)),
{
    match command {
        LocalityCommand::Connect { command: ConnectCommand::Notion(o) } => {
            lemma_connect_notion_reads_back(o);
        },
        LocalityCommand::Connect { command: ConnectCommand::GoogleDocs(o) } => {
            lemma_connect_google_docs_reads_back(o);
        },
        LocalityCommand::Connection { command: ConnectionCommand::Show(o) } => {
            lemma_connection_reads_back(o);
        },
        LocalityCommand::Disconnect(o) => {
            lemma_one_positional_reads_back("disconnect"@, o.id@);
        },
        LocalityCommand::Daemon { command } => {
            lemma_daemon_reads_back(command);
        },
        LocalityCommand::Mount { command: MountCommand::Notion(o) } => {
            lemma_mount_notion_reads_back(o);
        },
        LocalityCommand::Mount { command: MountCommand::GoogleDocs(o) } => {
            lemma_mount_google_docs_reads_back(o);
        },
        LocalityCommand::Info(o) => {
            lemma_optional_positional_reads_back("info"@, o.path);
        },
        LocalityCommand::Status(o) => {
            lemma_optional_positional_reads_back("status"@, o.path);
        },
        LocalityCommand::Search(o) => {
            lemma_search_reads_back(o);
        },
        LocalityCommand::Create { command: CreateCommand::Page(o) } => {
            lemma_create_page_reads_back(o);
        },
        LocalityCommand::Templates { command: TemplatesCommand::List } => {
            lemma_template_list_reads_back();
        },
        LocalityCommand::Templates { command: TemplatesCommand::Validate(o) } => {
            lemma_template_validate_reads_back(o);
        },
        LocalityCommand::Templates { command: TemplatesCommand::New(o) } => {
            lemma_template_new_reads_back(o);
        },
        LocalityCommand::Templates { command: TemplatesCommand::Apply(o) } => {
            lemma_template_apply_reads_back(o);
        },
        LocalityCommand::Okf { command: OkfCommand::Export(o) } => {
            lemma_okf_export_reads_back(o);
        },
        LocalityCommand::Inspect(o) => {
            lemma_optional_positional_reads_back("inspect"@, o.path);
        },
        LocalityCommand::Pull(o) => {
            lemma_one_positional_reads_back("pull"@, o.path@);
        },
        LocalityCommand::Push(o) => {
            lemma_push_reads_back(o);
        },
        LocalityCommand::Diff(o) => {
            lemma_one_positional_reads_back("diff"@, o.path@);
        },
        LocalityCommand::Undo(o) => {
            lemma_one_positional_reads_back("undo"@, o.push_id@);
        },
        LocalityCommand::Log(o) => {
            lemma_optional_positional_reads_back("log"@, o.path);
        },
        LocalityCommand::Restore(o) => {
            lemma_restore_reads_back(o);
        },
        LocalityCommand::FileProvider { command } => {
            lemma_file_provider_reads_back(command);
        },
        _ => {},
    }
}

} // verus!
