//! What arguments ask for.
use crate::args;
use crate::cli;
use crate::cli::LocalityCommand;
use crate::file_provider::WindowsCloudFilesLifecycleAction;
use crate::requests;
use crate::requests::{
    ConnectRoute, FileProviderRequest, ProviderAction, PushOptions, TemplatesRequest,
};
use crate::text;
use vstd::prelude::*;

verus! {

/// The value of an option is the argument behind the first place where the option stands, unless
/// that is an option itself.
pub proof fn law_options_take_what_stands_behind_them(
    before: Seq<Seq<char>>,
    flag: Seq<char>,
    value: Seq<char>,
    rest: Seq<Seq<char>>,
)
    requires
        !before.contains(flag),
    ensures
        value.len() == 0 || value[0] != '-' ==> args::value_of(before + (seq![flag, value] + rest), flag)
            == Some(value),
        value.len() > 0 && value[0] == '-' ==> args::value_of(before + (seq![flag, value] + rest), flag)
            is None,
        args::value_of(before + seq![flag], flag) is None,
        args::value_of(before, flag) is None,
{
    args::lemma_value_of_behind(before, seq![flag, value] + rest, flag);
    args::lemma_value_of_behind(before, seq![flag], flag);
    args::lemma_value_of_absent(before, flag);
    let all = seq![flag, value] + rest;
    assert(all[0] == flag);
    assert(all[1] == value);
    assert(seq![flag][0] == flag);
}

/// The values of an option that may stand several times are all that stand behind it, in their
/// order.
pub proof fn law_repeated_options_keep_their_order(
    flag: Seq<char>,
    value: Seq<char>,
    rest: Seq<Seq<char>>,
)
    ensures
        value.len() == 0 || value[0] != '-' ==> args::values_of(seq![flag, value] + rest, flag)
            == seq![value] + args::values_of(rest, flag),
        value != flag ==> args::values_of(seq![value] + rest, flag) == args::values_of(rest, flag),
        args::values_of(Seq::empty(), flag) == Seq::<Seq<char>>::empty(),
{
    let all = seq![flag, value] + rest;
    assert(all[0] == flag);
    assert(all[1] == value);
    assert(all.skip(2) =~= rest);
    let other = seq![value] + rest;
    assert(other[0] == value);
    assert(other.skip(1) =~= rest);
}

/// Thirteen options are followed by a value, which is no argument of its own.
pub proof fn law_options_with_values(arg: Seq<char>)
    ensures
        args::is_value_flag(arg) <==> {
            ||| arg == "--root-page"@ || arg == "--mount-id"@ || arg == "--connection"@
            ||| arg == "--name"@ || arg == "--projection"@ || arg == "--helper"@
            ||| arg == "--display-name"@ || arg == "--redirect-uri"@ || arg == "--broker-url"@
            ||| arg == "--connector"@ || arg == "--limit"@ || arg == "--title"@ || arg
                == "--parent"@
        },
{
}

/// Arguments that are no options keep their order, and options and their values are none of them.
pub proof fn law_arguments_keep_their_order(first: Seq<char>, rest: Seq<Seq<char>>)
    ensures
        !args::is_value_flag(first) && (first.len() == 0 || first[0] != '-') ==> args::positionals(
            seq![first] + rest,
        ) == seq![first] + args::positionals(rest),
        !args::is_value_flag(first) && first.len() > 0 && first[0] == '-' ==> args::positionals(
            seq![first] + rest,
        ) == args::positionals(rest),
        args::is_value_flag(first) && rest.len() > 0 ==> args::positionals(seq![first] + rest)
            == args::positionals(rest.skip(1)),
{
    let all = seq![first] + rest;
    assert(all[0] == first);
    assert(all.skip(1) =~= rest);
    if rest.len() > 0 {
        assert(all.skip(2) =~= rest.skip(1));
    }
}

proof fn lemma_sources()
    ensures
        "google-docs"@ != "notion"@,
{
    reveal_strlit("google-docs");
    reveal_strlit("notion");
    assert("google-docs"@.len() == 11);
    assert("notion"@.len() == 6);
}

/// An account is connected as its source and the options say: a token before a client of one's own,
/// and through the broker where neither is asked for.
pub proof fn law_accounts_are_connected_as_asked_for(all: Seq<Seq<char>>)
    ensures
        ({
            let route = requests::connect_route(all);
            let source = args::positional_at(all, 0);
            let token = all.contains("--token-stdin"@);
            let direct = all.contains("--direct-oauth"@);
            &&& route is None <==> source != Some("google-docs"@) && source != Some("notion"@)
            &&& route == Some(ConnectRoute::GoogleDocs) <==> source == Some("google-docs"@)
            &&& route == Some(ConnectRoute::NotionToken) <==> source == Some("notion"@) && token
            &&& route == Some(ConnectRoute::NotionDirect) <==> source == Some("notion"@) && !token
                && direct
            &&& route == Some(ConnectRoute::NotionBroker) <==> source == Some("notion"@) && !token
                && !direct
        }),
{
    lemma_sources();
}

/// A push is approved of by either spelling of yes, and danger only by its own option.
pub proof fn law_pushes_are_approved_by_their_options(
    all: Seq<Seq<char>>,
    path: Seq<char>,
    options: PushOptions,
)
    requires
        requests::asks_to_push(all, path, options),
    ensures
        args::positional_at(all, 0) == Some(path),
        options.assume_yes <==> all.contains("-y"@) || all.contains("--yes"@),
        options.confirm_dangerous <==> all.contains("--confirm"@),
{
}

/// A search is for all its words, at the source that was named, for ten results unless another
/// number was given, and among what is out of date only where all is asked for.
pub proof fn law_searches_are_as_asked_for(
    all: Seq<Seq<char>>,
    query: Seq<char>,
    connector: Option<Seq<char>>,
    limit: usize,
    include_stale_access: bool,
)
    requires
        requests::asks_to_search(all, query, connector, limit, include_stale_access),
    ensures
        query == text::joined(args::positionals(all), " "@),
        connector == args::value_of(all, "--connector"@),
        args::value_of(all, "--limit"@) is None ==> limit == 10,
        args::value_of(all, "--limit"@) is Some ==> text::parsed_u64(
            args::value_of(all, "--limit"@)->0,
        ) == Some(limit as u64),
        include_stale_access <==> all.contains("--all"@),
{
}

/// A page is created under the title and below the parent that were given.
pub proof fn law_pages_are_created_as_asked_for(
    all: Seq<Seq<char>>,
    title: Seq<char>,
    parent: Option<Seq<char>>,
)
    requires
        requests::asks_to_create_page(all, title, parent),
    ensures
        args::positional_at(all, 0) == Some("page"@),
        args::value_of(all, "--title"@) == Some(title),
        args::value_of(all, "--parent"@) == parent,
{
}

/// A file is restored by force only where force is asked for.
pub proof fn law_force_has_to_be_asked_for(all: Seq<Seq<char>>, path: Seq<char>, force: bool)
    requires
        requests::asks_to_restore(all, path, force),
    ensures
        args::positional_at(all, 0) == Some(path),
        force <==> all.contains("--force"@),
{
}

/// A connection is shown only on the word for it.
pub proof fn law_connections_are_shown_on_their_word(all: Seq<Seq<char>>)
    ensures
        requests::shown_connection(all) is Some ==> args::positional_at(all, 0) == Some("show"@),
        args::positional_at(all, 0) == Some("show"@) ==> requests::shown_connection(all)
            == args::positional_at(all, 1),
{
}

/// What is exported goes from the source to the place that were named.
pub proof fn law_exports_go_where_they_were_asked_to(
    all: Seq<Seq<char>>,
    source: Seq<char>,
    output: Seq<char>,
)
    requires
        requests::asks_to_export(all, source, output),
    ensures
        args::positional_at(all, 0) == Some("export"@),
        args::positional_at(all, 1) == Some(source),
        args::value_of(all, "--out"@) == Some(output),
{
}

/// What is done with templates is what the first word says, on what stands behind it, and over what
/// is there only by force.
pub proof fn law_templates_are_used_as_asked_for(all: Seq<Seq<char>>, request: TemplatesRequest)
    requires
        requests::asks_of_templates(all, request),
    ensures
        args::positional_at(all, 0) == Some(
            match request {
                TemplatesRequest::List => "list"@,
                TemplatesRequest::Validate(_) => "validate"@,
                TemplatesRequest::New(_) => "new"@,
                TemplatesRequest::Apply(_) => "apply"@,
            },
        ),
        request matches TemplatesRequest::Validate(q) ==> args::positional_at(all, 1) == Some(
            q.path@,
        ),
        request matches TemplatesRequest::New(q) ==> args::positional_at(all, 1) == Some(q.pack@)
            && args::positional_at(all, 2) == Some(q.path@) && (q.force <==> all.contains(
            "--force"@,
        )),
        request matches TemplatesRequest::Apply(q) ==> args::positional_at(all, 1) == Some(q.pack@)
            && args::positional_at(all, 2) == Some(q.template@) && args::value_of(all, "--to"@)
            == Some(q.target_dir@) && text::opt_text(q.title) == args::value_of(all, "--title"@)
            && (q.force <==> all.contains("--force"@)),
{
}

/// The words for what is done with a provider are read as what they say.
pub proof fn law_provider_words_are_read_back(action: ProviderAction)
    ensures
        requests::provider_action(action.name()) == Some(action),
        action.name() == (match action {
            ProviderAction::Register => "register"@,
            ProviderAction::Run => "run"@,
            ProviderAction::Open => "open"@,
            ProviderAction::Unregister => "unregister"@,
            ProviderAction::Lifecycle(WindowsCloudFilesLifecycleAction::Start) => "start"@,
            ProviderAction::Lifecycle(WindowsCloudFilesLifecycleAction::Stop) => "stop"@,
            ProviderAction::Lifecycle(WindowsCloudFilesLifecycleAction::Status) => "status"@,
            ProviderAction::Lifecycle(WindowsCloudFilesLifecycleAction::Restart) => "restart"@,
        }),
{
    reveal_strlit("register");
    reveal_strlit("run");
    reveal_strlit("open");
    reveal_strlit("unregister");
    reveal_strlit("start");
    reveal_strlit("stop");
    reveal_strlit("status");
    reveal_strlit("restart");
    assert("register"@.len() == 8);
    assert("run"@.len() == 3);
    assert("open"@.len() == 4 && "open"@[0] == 'o');
    assert("unregister"@.len() == 10);
    assert("start"@.len() == 5);
    assert("stop"@.len() == 4 && "stop"@[0] == 's');
    assert("status"@.len() == 6);
    assert("restart"@.len() == 7);
}

/// What is done with a provider is what the first word says, on the mount that is named behind it.
pub proof fn law_providers_are_used_as_asked_for(
    all: Seq<Seq<char>>,
    request: FileProviderRequest,
)
    requires
        requests::asks_of_provider(all, request),
    ensures
        request matches FileProviderRequest::OnMount(q) ==> args::positional_at(all, 1) == Some(
            q.target@,
        ) && args::positional_at(all, 0) is Some && requests::provider_action(
            args::positional_at(all, 0)->0,
        ) == Some(q.action),
        request is List ==> args::positional_at(all, 0) == Some("list"@),
        request is Reset ==> args::positional_at(all, 0) == Some("reset"@),
{
}

/// Each command is run by what bears its name.
pub proof fn law_commands_are_run_by_their_namesakes(command: LocalityCommand)
    ensures
        ({
            let handler = command.handler_spec();
            &&& handler is Connect <==> command is Connect
            &&& handler is Connections <==> command is Connections
            &&& handler is Profiles <==> command is Profiles
            &&& handler is Connection <==> command is Connection
            &&& handler is Disconnect <==> command is Disconnect
            &&& handler is Daemon <==> command is Daemon
            &&& handler is Mount <==> command is Mount
            &&& handler is Info <==> command is Info
            &&& handler is Status <==> command is Status
            &&& handler is Doctor <==> command is Doctor
            &&& handler is Search <==> command is Search
            &&& handler is Create <==> command is Create
            &&& handler is Templates <==> command is Templates
            &&& handler is Okf <==> command is Okf
            &&& handler is Inspect <==> command is Inspect
            &&& handler is Pull <==> command is Pull
            &&& handler is Push <==> command is Push
            &&& handler is Diff <==> command is Diff
            &&& handler is Undo <==> command is Undo
            &&& handler is Log <==> command is Log
            &&& handler is Restore <==> command is Restore
            &&& handler is Config <==> command is Config
            &&& handler is Mcp <==> command is Mcp
            &&& handler is FileProvider <==> command is FileProvider
        }),
{
}

/// While a command works, it says that it pulls or pushes, or its own name.
pub proof fn law_working_commands_say_what_they_do(command: Seq<char>)
    ensures
        command == "pull"@ ==> cli::spinner_verb(command) == "pulling"@,
        command == "push"@ ==> cli::spinner_verb(command) == "pushing"@,
        command != "pull"@ && command != "push"@ ==> cli::spinner_verb(command) == command,
{
    reveal_strlit("pull");
    reveal_strlit("push");
    assert("pull"@[2] != "push"@[2]);
}

/// Templates are worked on where the words for it are complete: `list` needs none, `validate` a path,
/// `new` a pack and a path, and `apply` a pack, a template and a place.
pub proof fn law_templates_need_their_words(all: Seq<Seq<char>>)
    ensures
        requests::templates_usage(all) is None <==> {
            let word = args::positional_at(all, 0);
            ||| word == Some("list"@)
            ||| word == Some("validate"@) && args::positional_at(all, 1) is Some
            ||| word == Some("new"@) && args::positional_at(all, 2) is Some
            ||| word == Some("apply"@) && args::positional_at(all, 2) is Some && args::value_of(
                all,
                "--to"@,
            ) is Some
        },
{
    reveal_strlit("list");
    reveal_strlit("validate");
    reveal_strlit("new");
    reveal_strlit("apply");
}

/// A provider is spoken to where the words for it are complete: `list` and `reset` stand alone, and all
/// else needs a mount.
pub proof fn law_providers_need_their_words(all: Seq<Seq<char>>)
    ensures
        requests::provider_usage(all) is None <==> {
            let word = args::positional_at(all, 0);
            &&& word is Some
            &&& if requests::provider_action(word->0) is Some {
                args::positional_at(all, 1) is Some
            } else {
                word == Some("list"@) || word == Some("reset"@)
            }
        },
{
}

} // verus!
