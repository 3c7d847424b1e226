//! The forms of the command line: what each command takes, and that the
//! arguments written for a command are read as that command again.
use vstd::prelude::*;

use crate::args;
use crate::cli;
use crate::cli::{
    ConnectCommand, ConnectionCommand, CreateCommand, DaemonArgs, DaemonCommand,
    FileProviderCommand, LocalityCommand, MountCommand, OkfCommand, TemplatesCommand,
};
use crate::read_back;
use crate::text;

verus! {

/// What a command takes in one place, and what it was given there.
pub enum Field {
    /// A positional.
    Word(Seq<char>),
    /// A positional that may be left out.
    MaybeWord(Option<Seq<char>>),
    /// Any number of positionals, at least one.
    Words(Seq<Seq<char>>),
    /// A flag on its own.
    Switch(Seq<char>, bool),
    /// A flag with a value.
    Value(Seq<char>, Option<Seq<char>>),
    /// A flag with a number, and the number without it.
    Number(Seq<char>, nat, nat),
    /// A flag with a value that may be repeated.
    Repeated(Seq<char>, Seq<Seq<char>>),
}

impl Field {
    /// The flag of a field, if it has one.
    pub open spec fn flag(self) -> Option<Seq<char>> {
        match self {
            Field::Switch(flag, _) => Some(flag),
            Field::Value(flag, _) => Some(flag),
            Field::Number(flag, _, _) => Some(flag),
            Field::Repeated(flag, _) => Some(flag),
            _ => None,
        }
    }

    /// Whether a value follows the flag of a field.
    pub open spec fn takes_value(self) -> bool {
        self is Value || self is Number || self is Repeated
    }

    /// Whether two fields are of the same sort and under the same flag.
    pub open spec fn same_shape(self, other: Field) -> bool {
        match (self, other) {
            (Field::Word(_), Field::Word(_)) => true,
            (Field::MaybeWord(_), Field::MaybeWord(_)) => true,
            (Field::Words(_), Field::Words(_)) => true,
            (Field::Switch(a, _), Field::Switch(b, _)) => a == b,
            (Field::Value(a, _), Field::Value(b, _)) => a == b,
            (Field::Number(a, _, m), Field::Number(b, _, n)) => a == b && m == n,
            (Field::Repeated(a, _), Field::Repeated(b, _)) => a == b,
            _ => false,
        }
    }

    /// The arguments that a field is written as.
    pub open spec fn arguments(self) -> Seq<Seq<char>> {
        match self {
            Field::Word(word) => seq![word],
            Field::MaybeWord(Some(word)) => seq![word],
            Field::MaybeWord(None) => Seq::empty(),
            Field::Words(words) => words,
            Field::Switch(flag, on) => cli::switch(flag, on),
            Field::Value(flag, Some(value)) => seq![flag, value],
            Field::Value(_, None) => Seq::empty(),
            Field::Number(flag, number, _) => seq![flag, text::decimal(number)],
            Field::Repeated(flag, values) => cli::repeated(flag, values),
        }
    }

    /// The positionals of a field.
    pub open spec fn words(self) -> Seq<Seq<char>> {
        match self {
            Field::Word(word) => seq![word],
            Field::MaybeWord(Some(word)) => seq![word],
            Field::Words(words) => words,
            _ => Seq::empty(),
        }
    }
}

/// The arguments that fields are written as, in order.
pub open spec fn written(fields: Seq<Field>) -> Seq<Seq<char>>
    decreases fields.len(),
{
    if fields.len() == 0 {
        Seq::empty()
    } else {
        written(fields.drop_last()) + fields.last().arguments()
    }
}

/// The positionals of fields, in order.
pub open spec fn words_of(fields: Seq<Field>) -> Seq<Seq<char>>
    decreases fields.len(),
{
    if fields.len() == 0 {
        Seq::empty()
    } else {
        words_of(fields.drop_last()) + fields.last().words()
    }
}

/// What arguments stand for.
pub enum Token {
    Word(Seq<char>),
    Switch(Seq<char>),
    Value(Seq<char>, Seq<char>),
}

/// Whether a command knows a flag on its own. Every command knows `--json`.
pub open spec fn knows_switch(fields: Seq<Field>, flag: Seq<char>) -> bool {
    ||| flag == "--json"@
    ||| exists|i: int|
        0 <= i < fields.len() && (#[trigger] fields[i]) is Switch && fields[i].flag() == Some(flag)
}

/// Whether a command knows a flag with a value.
pub open spec fn knows_value(fields: Seq<Field>, flag: Seq<char>) -> bool {
    exists|i: int|
        0 <= i < fields.len() && (#[trigger] fields[i]).takes_value() && fields[i].flag() == Some(
            flag,
        )
}

/// Every argument as a positional.
pub open spec fn all_words(all: Seq<Seq<char>>) -> Seq<Token> {
    Seq::new(all.len(), |i: int| Token::Word(all[i]))
}

/// Where the first `=` of an argument stands; its length where there is none.
pub open spec fn equals_sign(arg: Seq<char>, i: int) -> int
    decreases arg.len() - i,
{
    if i >= arg.len() {
        arg.len() as int
    } else if arg[i] == '=' {
        i
    } else {
        equals_sign(arg, i + 1)
    }
}

/// `first` in front of `rest`, where that could be read.
pub open spec fn in_front(first: Token, rest: Option<Seq<Token>>) -> Option<Seq<Token>> {
    match rest {
        Some(tokens) => Some(seq![first] + tokens),
        None => None,
    }
}

/// What the arguments of a command stand for, if it takes them. What does not
/// begin with a dash is a positional. A value follows its flag, as the next
/// argument or behind `=`; behind `--` all is positional.
pub open spec fn reads(fields: Seq<Field>, all: Seq<Seq<char>>) -> Option<Seq<Token>>
    decreases all.len(),
{
    if all.len() == 0 {
        Some(Seq::empty())
    } else if args::is_plain(all[0]) {
        in_front(Token::Word(all[0]), reads(fields, all.skip(1)))
    } else if knows_switch(fields, all[0]) {
        in_front(Token::Switch(all[0]), reads(fields, all.skip(1)))
    } else if all[0] == "-y"@ && knows_switch(fields, "--yes"@) {
        in_front(Token::Switch("--yes"@), reads(fields, all.skip(1)))
    } else if knows_value(fields, all[0]) {
        if all.len() >= 2 && args::is_plain(all[1]) {
            in_front(Token::Value(all[0], all[1]), reads(fields, all.skip(2)))
        } else {
            None
        }
    } else if all[0] == "--"@ {
        Some(all_words(all.skip(1)))
    } else {
        let sign = equals_sign(all[0], 0);
        if sign < all[0].len() && knows_value(fields, all[0].take(sign)) {
            in_front(
                Token::Value(all[0].take(sign), all[0].skip(sign + 1)),
                reads(fields, all.skip(1)),
            )
        } else {
            None
        }
    }
}

/// The positionals among tokens.
pub open spec fn words_in(tokens: Seq<Token>) -> Seq<Seq<char>>
    decreases tokens.len(),
{
    if tokens.len() == 0 {
        Seq::empty()
    } else {
        words_in(tokens.drop_last()) + (match tokens.last() {
            Token::Word(word) => seq![word],
            _ => Seq::empty(),
        })
    }
}

/// How often a flag stands on its own among tokens.
pub open spec fn switch_count(tokens: Seq<Token>, flag: Seq<char>) -> nat
    decreases tokens.len(),
{
    if tokens.len() == 0 {
        0
    } else {
        switch_count(tokens.drop_last(), flag) + (if tokens.last() == Token::Switch(flag) {
            1nat
        } else {
            0nat
        })
    }
}

/// The values of a flag among tokens, in order.
pub open spec fn values_in(tokens: Seq<Token>, flag: Seq<char>) -> Seq<Seq<char>>
    decreases tokens.len(),
{
    if tokens.len() == 0 {
        Seq::empty()
    } else {
        values_in(tokens.drop_last(), flag) + (match tokens.last() {
            Token::Value(name, value) => if name == flag {
                seq![value]
            } else {
                Seq::empty()
            },
            _ => Seq::empty(),
        })
    }
}

/// Whether tokens give a field with a flag what it holds. A flag that may not be
/// repeated stands at most once.
pub open spec fn gives(tokens: Seq<Token>, field: Field) -> bool {
    match field {
        Field::Switch(flag, on) => switch_count(tokens, flag) == (if on {
            1nat
        } else {
            0nat
        }),
        Field::Value(flag, Some(value)) => values_in(tokens, flag) == seq![value],
        Field::Value(flag, None) => values_in(tokens, flag).len() == 0,
        Field::Number(flag, number, usual) => {
            ||| values_in(tokens, flag).len() == 0 && number == usual
            ||| values_in(tokens, flag).len() == 1 && (text::parsed_u64(values_in(tokens, flag)[0])
                matches Some(n) && n == number)
        },
        Field::Repeated(flag, values) => values_in(tokens, flag) == values,
        _ => true,
    }
}

/// What the arguments of the daemon's commands hold.
pub open spec fn daemon_fields(o: DaemonArgs) -> Seq<Field> {
    seq![
        Field::Switch("--session"@, o.session),
        Field::Switch("--launchd"@, o.launchd),
        Field::Value("--localityd-bin"@, text::opt_text(o.localityd_bin)),
        Field::Value("--state-dir"@, text::opt_text(o.state_dir)),
        Field::Value("--tcp-addr"@, text::opt_text(o.tcp_addr)),
        Field::Repeated("--include-env"@, text::texts(o.include_env@)),
    ]
}

/// The words that a command is called by.
pub open spec fn path(command: LocalityCommand) -> Seq<Seq<char>> {
    let name = read_back::command_name(command);
    match command {
        LocalityCommand::Connect { command } => seq![
            name,
            match command {
                ConnectCommand::Notion(_) => "notion"@,
                ConnectCommand::GoogleDocs(_) => "google-docs"@,
            },
        ],
        LocalityCommand::Connection { .. } => seq![name, "show"@],
        LocalityCommand::Daemon { command } => seq![
            name,
            match command {
                DaemonCommand::Start(_) => "start"@,
                DaemonCommand::Stop(_) => "stop"@,
                DaemonCommand::Status(_) => "status"@,
                DaemonCommand::Reload(_) => "reload"@,
                DaemonCommand::Restart(_) => "restart"@,
            },
        ],
        LocalityCommand::Mount { command } => seq![
            name,
            match command {
                MountCommand::Notion(_) => "notion"@,
                MountCommand::GoogleDocs(_) => "google-docs"@,
            },
        ],
        LocalityCommand::Create { .. } => seq![name, "page"@],
        LocalityCommand::Templates { command } => seq![
            name,
            match command {
                TemplatesCommand::List => "list"@,
                TemplatesCommand::Validate(_) => "validate"@,
                TemplatesCommand::New(_) => "new"@,
                TemplatesCommand::Apply(_) => "apply"@,
            },
        ],
        LocalityCommand::Okf { .. } => seq![name, "export"@],
        LocalityCommand::FileProvider { command } => seq![
            name,
            match command {
                FileProviderCommand::Register(_) => "register"@,
                FileProviderCommand::Start(_) => "start"@,
                FileProviderCommand::Run(_) => "run"@,
                FileProviderCommand::Stop(_) => "stop"@,
                FileProviderCommand::Status(_) => "status"@,
                FileProviderCommand::Restart(_) => "restart"@,
                FileProviderCommand::Open(_) => "open"@,
                FileProviderCommand::Unregister(_) => "unregister"@,
                FileProviderCommand::List => "list"@,
                FileProviderCommand::Reset => "reset"@,
            },
        ],
        _ => seq![name],
    }
}

/// What a command takes behind its words, and what it holds there.
pub open spec fn fields(command: LocalityCommand) -> Seq<Field> {
    match command {
        LocalityCommand::Connect { command: ConnectCommand::Notion(o) } => seq![
            Field::Value("--name"@, text::opt_text(o.name)),
            Field::Switch("--token-stdin"@, o.token_stdin),
            Field::Switch("--no-browser"@, o.no_browser),
            Field::Switch("--direct-oauth"@, o.direct_oauth),
            Field::Value("--broker-url"@, text::opt_text(o.broker_url)),
            Field::Value("--redirect-uri"@, text::opt_text(o.redirect_uri)),
        ],
        LocalityCommand::Connect { command: ConnectCommand::GoogleDocs(o) } => seq![
            Field::Value("--name"@, text::opt_text(o.name)),
            Field::Switch("--no-browser"@, o.no_browser),
            Field::Value("--broker-url"@, text::opt_text(o.broker_url)),
            Field::Value("--redirect-uri"@, text::opt_text(o.redirect_uri)),
        ],
        LocalityCommand::Connection { command: ConnectionCommand::Show(o) } => seq![
            Field::Word(o.id@),
        ],
        LocalityCommand::Disconnect(o) => seq![Field::Word(o.id@)],
        LocalityCommand::Daemon { command } => daemon_fields(read_back::daemon_parts(command).1),
        LocalityCommand::Mount { command: MountCommand::Notion(o) } => seq![
            Field::Word(o.path@),
            Field::Switch("--workspace"@, o.workspace),
            Field::Value("--root-page"@, text::opt_text(o.root_page)),
            Field::Value("--connection"@, text::opt_text(o.connection)),
            Field::Value("--mount-id"@, text::opt_text(o.mount_id)),
            Field::Value("--projection"@, text::opt_text(o.projection)),
            Field::Switch("--read-only"@, o.read_only),
        ],
        LocalityCommand::Mount { command: MountCommand::GoogleDocs(o) } => seq![
            Field::Word(o.path@),
            Field::Value("--workspace-folder"@, Some(o.workspace_folder@)),
            Field::Value("--connection"@, text::opt_text(o.connection)),
            Field::Value("--mount-id"@, text::opt_text(o.mount_id)),
            Field::Value("--projection"@, text::opt_text(o.projection)),
            Field::Switch("--read-only"@, o.read_only),
        ],
        LocalityCommand::Info(o) => seq![Field::MaybeWord(text::opt_text(o.path))],
        LocalityCommand::Status(o) => seq![Field::MaybeWord(text::opt_text(o.path))],
        LocalityCommand::Search(o) => seq![
            Field::Words(text::texts(o.query@)),
            Field::Value("--connector"@, text::opt_text(o.connector)),
            Field::Number("--limit"@, o.limit as nat, 10),
            Field::Switch("--all"@, o.all),
        ],
        LocalityCommand::Create { command: CreateCommand::Page(o) } => seq![
            Field::Value("--title"@, Some(o.title@)),
            Field::Value("--parent"@, text::opt_text(o.parent)),
        ],
        LocalityCommand::Templates { command: TemplatesCommand::Validate(o) } => seq![
            Field::Word(o.path@),
        ],
        LocalityCommand::Templates { command: TemplatesCommand::New(o) } => seq![
            Field::Word(o.pack@),
            Field::Word(o.path@),
            Field::Switch("--force"@, o.force),
        ],
        LocalityCommand::Templates { command: TemplatesCommand::Apply(o) } => seq![
            Field::Word(o.pack@),
            Field::Word(o.template@),
            Field::Value("--to"@, Some(o.to@)),
            Field::Value("--title"@, text::opt_text(o.title)),
            Field::Switch("--force"@, o.force),
        ],
        LocalityCommand::Okf { command: OkfCommand::Export(o) } => seq![
            Field::Word(o.path@),
            Field::Value("--out"@, Some(o.out@)),
        ],
        LocalityCommand::Inspect(o) => seq![Field::MaybeWord(text::opt_text(o.path))],
        LocalityCommand::Pull(o) => seq![Field::Word(o.path@)],
        LocalityCommand::Push(o) => seq![
            Field::Word(o.path@),
            Field::Switch("--yes"@, o.yes),
            Field::Switch("--confirm"@, o.confirm),
        ],
        LocalityCommand::Diff(o) => seq![Field::Word(o.path@)],
        LocalityCommand::Undo(o) => seq![Field::Word(o.push_id@)],
        LocalityCommand::Log(o) => seq![Field::MaybeWord(text::opt_text(o.path))],
        LocalityCommand::Restore(o) => seq![
            Field::Word(o.path@),
            Field::Switch("--force"@, o.force),
        ],
        LocalityCommand::FileProvider { command } => match command {
            FileProviderCommand::Register(o) => seq![Field::Word(o.target@)],
            FileProviderCommand::Start(o) => seq![Field::Word(o.target@)],
            FileProviderCommand::Run(o) => seq![Field::Word(o.target@)],
            FileProviderCommand::Stop(o) => seq![Field::Word(o.target@)],
            FileProviderCommand::Status(o) => seq![Field::Word(o.target@)],
            FileProviderCommand::Restart(o) => seq![Field::Word(o.target@)],
            FileProviderCommand::Open(o) => seq![Field::Word(o.target@)],
            FileProviderCommand::Unregister(o) => seq![Field::Word(o.target@)],
            _ => Seq::empty(),
        },
        _ => Seq::empty(),
    }
}

/// Whether a command has what it cannot do without: a search has words, and a
/// Notion mount has either the workspace or a root page.
pub open spec fn is_complete(command: LocalityCommand) -> bool {
    match command {
        LocalityCommand::Search(o) => o.query@.len() > 0,
        LocalityCommand::Mount { command: MountCommand::Notion(o) } => o.workspace != (o.root_page
            is Some),
        _ => true,
    }
}

/// Whether arguments are a form of a command, with `--json` or without.
pub open spec fn parses(all: Seq<Seq<char>>, command: LocalityCommand, json: bool) -> bool {
    let words = path(command);
    let held = fields(command);
    &&& words.len() <= all.len()
    &&& all.take(words.len() as int) == words
    &&& is_complete(command)
    &&& match reads(held, all.skip(words.len() as int)) {
        Some(tokens) => {
            &&& words_in(tokens) == words_of(held)
            &&& forall|i: int| 0 <= i < held.len() ==> gives(tokens, #[trigger] held[i])
            &&& switch_count(tokens, "--json"@) == (if json {
                1nat
            } else {
                0nat
            })
        },
        None => false,
    }
}

proof fn lemma_words_concat(a: Seq<Token>, b: Seq<Token>)
    ensures
        words_in(a + b) == words_in(a) + words_in(b),
    decreases b.len(),
{
    if b.len() == 0 {
        assert(a + b =~= a);
    } else {
        assert((a + b).drop_last() =~= a + b.drop_last());
        lemma_words_concat(a, b.drop_last());
    }
}

proof fn lemma_flag_concat(a: Seq<Token>, b: Seq<Token>, flag: Seq<char>)
    ensures
        switch_count(a + b, flag) == switch_count(a, flag) + switch_count(b, flag),
        values_in(a + b, flag) == values_in(a, flag) + values_in(b, flag),
    decreases b.len(),
{
    if b.len() == 0 {
        assert(a + b =~= a);
    } else {
        assert((a + b).drop_last() =~= a + b.drop_last());
        lemma_flag_concat(a, b.drop_last(), flag);
    }
}

/// Arguments that can be read on their own are read so in front of others.
proof fn lemma_reads_concat(fields: Seq<Field>, a: Seq<Seq<char>>, b: Seq<Seq<char>>)
    requires
        reads(fields, a) is Some,
        reads(fields, b) is Some,
        forall|i: int| 0 <= i < a.len() ==> #[trigger] a[i] != "--"@,
    ensures
        reads(fields, a + b) == Some(reads(fields, a)->0 + reads(fields, b)->0),
    decreases a.len(),
{
    let whole = a + b;
    if a.len() == 0 {
        assert(whole =~= b);
        assert(reads(fields, a)->0 + reads(fields, b)->0 =~= reads(fields, b)->0);
    } else {
        assert(whole[0] == a[0]);
        if a.len() >= 2 {
            assert(whole[1] == a[1]);
            assert(whole.skip(2) =~= a.skip(2) + b);
        }
        assert(whole.skip(1) =~= a.skip(1) + b);
        if !args::is_plain(a[0]) && !knows_switch(fields, a[0]) && !(a[0] == "-y"@ && knows_switch(
            fields,
            "--yes"@,
        )) && knows_value(fields, a[0]) {
            assert forall|i: int| 0 <= i < a.skip(2).len() implies #[trigger] a.skip(2)[i]
                != "--"@ by {
                assert(a.skip(2)[i] == a[i + 2]);
            }
            lemma_reads_concat(fields, a.skip(2), b);
        } else {
            assert forall|i: int| 0 <= i < a.skip(1).len() implies #[trigger] a.skip(1)[i]
                != "--"@ by {
                assert(a.skip(1)[i] == a[i + 1]);
            }
            lemma_reads_concat(fields, a.skip(1), b);
        }
        assert(reads(fields, whole)->0 =~= reads(fields, a)->0 + reads(fields, b)->0);
    }
}

/// What the arguments of a field stand for.
spec fn tokens_of(field: Field) -> Seq<Token> {
    match field {
        Field::Word(word) => seq![Token::Word(word)],
        Field::MaybeWord(Some(word)) => seq![Token::Word(word)],
        Field::Words(words) => all_words(words),
        Field::Switch(flag, true) => seq![Token::Switch(flag)],
        Field::Value(flag, Some(value)) => seq![Token::Value(flag, value)],
        Field::Number(flag, number, _) => seq![Token::Value(flag, text::decimal(number))],
        Field::Repeated(flag, values) => Seq::new(
            values.len(),
            |i: int| Token::Value(flag, values[i]),
        ),
        _ => Seq::empty(),
    }
}

spec fn all_tokens(held: Seq<Field>) -> Seq<Token>
    decreases held.len(),
{
    if held.len() == 0 {
        Seq::empty()
    } else {
        all_tokens(held.drop_last()) + tokens_of(held.last())
    }
}

/// Whether what a field holds cannot be taken for a flag, and its flag can.
spec fn is_fit(field: Field) -> bool {
    &&& field.flag() matches Some(flag) ==> !args::is_plain(flag) && flag != "--"@ && flag != "-y"@
        && flag != "--json"@
    &&& match field {
        Field::Word(word) => args::is_plain(word),
        Field::MaybeWord(Some(word)) => args::is_plain(word),
        Field::Words(words) => forall|i: int|
            0 <= i < words.len() ==> args::is_plain(#[trigger] words[i]),
        Field::Value(_, Some(value)) => args::is_plain(value),
        Field::Number(_, number, _) => number <= u64::MAX,
        Field::Repeated(_, values) => forall|i: int|
            0 <= i < values.len() ==> args::is_plain(#[trigger] values[i]),
        _ => true,
    }
}

/// Whether no two fields have one flag.
spec fn have_own_flags(held: Seq<Field>) -> bool {
    forall|i: int, j: int|
        0 <= i < j < held.len() && (#[trigger] held[i]).flag() is Some ==> held[i].flag() != (
        #[trigger] held[j]).flag()
}

proof fn lemma_reads_words(held: Seq<Field>, words: Seq<Seq<char>>)
    requires
        forall|i: int| 0 <= i < words.len() ==> args::is_plain(#[trigger] words[i]),
    ensures
        reads(held, words) == Some(all_words(words)),
    decreases words.len(),
{
    if words.len() > 0 {
        let rest = words.skip(1);
        assert forall|i: int| 0 <= i < rest.len() implies args::is_plain(#[trigger] rest[i]) by {
            assert(rest[i] == words[i + 1]);
        }
        lemma_reads_words(held, rest);
        assert(seq![Token::Word(words[0])] + all_words(rest) =~= all_words(words));
    } else {
        assert(all_words(words) =~= Seq::<Token>::empty());
    }
}

proof fn lemma_reads_value(held: Seq<Field>, k: int, flag: Seq<char>, value: Seq<char>)
    requires
        0 <= k < held.len(),
        held[k].takes_value(),
        held[k].flag() == Some(flag),
        is_fit(held[k]),
        have_own_flags(held),
        args::is_plain(value),
    ensures
        reads(held, seq![flag, value]) == Some(seq![Token::Value(flag, value)]),
{
    reveal_with_fuel(reads, 2);
    let all = seq![flag, value];
    assert(all[0] == flag && all[1] == value);
    assert(knows_value(held, flag));
    assert(!knows_switch(held, flag)) by {
        if knows_switch(held, flag) {
            let i = choose|i: int|
                0 <= i < held.len() && (#[trigger] held[i]) is Switch && held[i].flag() == Some(
                    flag,
                );
            assert(i != k);
            if i < k {
                assert(held[i].flag() != held[k].flag());
            } else {
                assert(held[k].flag() != held[i].flag());
            }
        }
    }
    assert(all.skip(2) =~= Seq::<Seq<char>>::empty());
    assert(seq![Token::Value(flag, value)] + Seq::<Token>::empty() =~= seq![
        Token::Value(flag, value),
    ]);
}

proof fn lemma_reads_repeated(held: Seq<Field>, k: int, flag: Seq<char>, values: Seq<Seq<char>>)
    requires
        0 <= k < held.len(),
        held[k].takes_value(),
        held[k].flag() == Some(flag),
        is_fit(held[k]),
        have_own_flags(held),
        forall|i: int| 0 <= i < values.len() ==> args::is_plain(#[trigger] values[i]),
    ensures
        reads(held, cli::repeated(flag, values)) == Some(
            Seq::new(values.len(), |i: int| Token::Value(flag, values[i])),
        ),
        forall|i: int|
            0 <= i < cli::repeated(flag, values).len() ==> #[trigger] cli::repeated(flag, values)[i]
                != "--"@,
    decreases values.len(),
{
    reveal_strlit("--");
    let tokens = Seq::new(values.len(), |i: int| Token::Value(flag, values[i]));
    if values.len() == 0 {
        assert(tokens =~= Seq::<Token>::empty());
    } else {
        let before = values.drop_last();
        assert forall|i: int| 0 <= i < before.len() implies args::is_plain(
            #[trigger] before[i],
        ) by {
            assert(before[i] == values[i]);
        }
        lemma_reads_repeated(held, k, flag, before);
        assert(args::is_plain(values[values.len() - 1]));
        lemma_reads_value(held, k, flag, values.last());
        lemma_reads_concat(held, cli::repeated(flag, before), seq![flag, values.last()]);
        assert(tokens =~= Seq::new(before.len(), |i: int| Token::Value(flag, before[i])) + seq![
            Token::Value(flag, values.last()),
        ]);
        let whole = cli::repeated(flag, values);
        let first = cli::repeated(flag, before);
        assert forall|i: int| 0 <= i < whole.len() implies #[trigger] whole[i] != "--"@ by {
            if i < first.len() {
                assert(whole[i] == first[i]);
            } else if i == first.len() {
                assert(whole[i] == flag);
            } else {
                assert(whole[i] == values.last());
                assert("--"@[0] == '-');
            }
        }
    }
}

/// The arguments of a field are read as what it holds.
proof fn lemma_reads_field(held: Seq<Field>, k: int)
    requires
        0 <= k < held.len(),
        is_fit(held[k]),
        have_own_flags(held),
    ensures
        reads(held, held[k].arguments()) == Some(tokens_of(held[k])),
        forall|i: int|
            0 <= i < held[k].arguments().len() ==> #[trigger] held[k].arguments()[i] != "--"@,
{
    reveal_strlit("--");
    assert("--"@[0] == '-');
    let all = held[k].arguments();
    match held[k] {
        Field::Word(word) => {
            lemma_reads_words(held, all);
            assert(all_words(all) =~= tokens_of(held[k]));
        },
        Field::MaybeWord(Some(word)) => {
            lemma_reads_words(held, all);
            assert(all_words(all) =~= tokens_of(held[k]));
        },
        Field::MaybeWord(None) => {
            assert(all_words(all) =~= tokens_of(held[k]));
        },
        Field::Words(words) => {
            lemma_reads_words(held, all);
        },
        Field::Switch(flag, on) => {
            if on {
                reveal_with_fuel(reads, 2);
                assert(all[0] == flag);
                assert(knows_switch(held, flag));
                assert(all.skip(1) =~= Seq::<Seq<char>>::empty());
                assert(seq![Token::Switch(flag)] + Seq::<Token>::empty() =~= tokens_of(held[k]));
            } else {
                assert(tokens_of(held[k]) =~= Seq::<Token>::empty());
            }
        },
        Field::Value(flag, Some(value)) => {
            lemma_reads_value(held, k, flag, value);
        },
        Field::Value(flag, None) => {
            assert(tokens_of(held[k]) =~= Seq::<Token>::empty());
        },
        Field::Number(flag, number, _) => {
            text::lemma_decimal_parses(number);
            lemma_reads_value(held, k, flag, text::decimal(number));
        },
        Field::Repeated(flag, values) => {
            lemma_reads_repeated(held, k, flag, values);
        },
    }
}

/// The arguments of the first fields are read as what they hold.
proof fn lemma_reads_all(held: Seq<Field>, n: int)
    requires
        0 <= n <= held.len(),
        have_own_flags(held),
        forall|i: int| 0 <= i < held.len() ==> is_fit(#[trigger] held[i]),
    ensures
        reads(held, written(held.take(n))) == Some(all_tokens(held.take(n))),
        forall|i: int|
            0 <= i < written(held.take(n)).len() ==> #[trigger] written(held.take(n))[i] != "--"@,
    decreases n,
{
    if n > 0 {
        assert(held.take(n).drop_last() =~= held.take(n - 1));
        assert(held.take(n).last() == held[n - 1]);
        lemma_reads_all(held, n - 1);
        lemma_reads_field(held, n - 1);
        let a = written(held.take(n - 1));
        let b = held[n - 1].arguments();
        lemma_reads_concat(held, a, b);
        assert forall|i: int| 0 <= i < (a + b).len() implies #[trigger] (a + b)[i] != "--"@ by {
            if i >= a.len() {
                assert((a + b)[i] == b[i - a.len()]);
            }
        }
    }
}

proof fn lemma_all_words(words: Seq<Seq<char>>, flag: Seq<char>)
    ensures
        words_in(all_words(words)) == words,
        switch_count(all_words(words), flag) == 0,
        values_in(all_words(words), flag).len() == 0,
    decreases words.len(),
{
    if words.len() > 0 {
        assert(all_words(words).drop_last() =~= all_words(words.drop_last()));
        lemma_all_words(words.drop_last(), flag);
        assert(words_in(all_words(words)) =~= words);
    }
}

proof fn lemma_all_values(name: Seq<char>, values: Seq<Seq<char>>, flag: Seq<char>)
    ensures
        ({
            let tokens = Seq::new(values.len(), |i: int| Token::Value(name, values[i]));
            &&& words_in(tokens).len() == 0
            &&& switch_count(tokens, flag) == 0
            &&& values_in(tokens, flag) == (if flag == name {
                values
            } else {
                Seq::empty()
            })
        }),
    decreases values.len(),
{
    let tokens = Seq::new(values.len(), |i: int| Token::Value(name, values[i]));
    if values.len() > 0 {
        let before = values.drop_last();
        assert(tokens.drop_last() =~= Seq::new(
            before.len(),
            |i: int| Token::Value(name, before[i]),
        ));
        lemma_all_values(name, before, flag);
        assert(tokens.last() == Token::Value(name, values.last()));
        if flag == name {
            assert(values_in(tokens, flag) =~= values);
        }
    }
}

/// What the tokens of a field hold of a flag.
proof fn lemma_tokens_of(field: Field, flag: Seq<char>)
    ensures
        words_in(tokens_of(field)) == field.words(),
        field.flag() != Some(flag) ==> switch_count(tokens_of(field), flag) == 0 && values_in(
            tokens_of(field),
            flag,
        ).len() == 0,
        field.flag() == Some(flag) && is_fit(field) ==> gives(tokens_of(field), field),
{
    reveal_with_fuel(words_in, 2);
    reveal_with_fuel(switch_count, 2);
    reveal_with_fuel(values_in, 2);
    let tokens = tokens_of(field);
    if tokens.len() == 1 {
        assert(tokens.drop_last() =~= Seq::<Token>::empty());
    }
    match field {
        Field::Word(word) => {
            assert(words_in(tokens) =~= seq![word]);
        },
        Field::MaybeWord(Some(word)) => {
            assert(words_in(tokens) =~= seq![word]);
        },
        Field::Words(words) => {
            lemma_all_words(words, flag);
        },
        Field::Repeated(name, values) => {
            lemma_all_values(name, values, flag);
            assert(words_in(tokens) =~= Seq::<Seq<char>>::empty());
        },
        Field::Value(name, Some(value)) => {
            if name == flag {
                assert(values_in(tokens, flag) =~= seq![value]);
            }
            assert(words_in(tokens) =~= Seq::<Seq<char>>::empty());
        },
        Field::Number(name, number, _) => {
            if name == flag && is_fit(field) {
                text::lemma_decimal_parses(number);
                assert(values_in(tokens, flag) =~= seq![text::decimal(number)]);
            }
            assert(words_in(tokens) =~= Seq::<Seq<char>>::empty());
        },
        _ => {
            assert(words_in(tokens) =~= Seq::<Seq<char>>::empty());
        },
    }
}

proof fn lemma_unknown_flag(held: Seq<Field>, flag: Seq<char>)
    requires
        forall|i: int| 0 <= i < held.len() ==> (#[trigger] held[i]).flag() != Some(flag),
    ensures
        switch_count(all_tokens(held), flag) == 0,
        values_in(all_tokens(held), flag).len() == 0,
    decreases held.len(),
{
    if held.len() > 0 {
        let before = held.drop_last();
        assert forall|i: int| 0 <= i < before.len() implies (#[trigger] before[i]).flag() != Some(
            flag,
        ) by {
            assert(before[i] == held[i]);
        }
        lemma_unknown_flag(before, flag);
        lemma_tokens_of(held.last(), flag);
        assert(held.last() == held[held.len() - 1]);
        lemma_flag_concat(all_tokens(before), tokens_of(held.last()), flag);
    }
}

proof fn lemma_words_of(held: Seq<Field>)
    ensures
        words_in(all_tokens(held)) == words_of(held),
    decreases held.len(),
{
    if held.len() > 0 {
        lemma_words_of(held.drop_last());
        lemma_tokens_of(held.last(), Seq::empty());
        lemma_words_concat(all_tokens(held.drop_last()), tokens_of(held.last()));
    }
}

/// Tokens with others that do not name its flag give a field what they gave.
proof fn lemma_gives_more(a: Seq<Token>, b: Seq<Token>, field: Field, flag: Seq<char>)
    requires
        field.flag() == Some(flag),
        (gives(a, field) && switch_count(b, flag) == 0 && values_in(b, flag).len() == 0) || (gives(
            b,
            field,
        ) && switch_count(a, flag) == 0 && values_in(a, flag).len() == 0),
    ensures
        gives(a + b, field),
{
    lemma_flag_concat(a, b, flag);
    if values_in(b, flag).len() == 0 {
        assert(values_in(a, flag) + values_in(b, flag) =~= values_in(a, flag));
    }
    if values_in(a, flag).len() == 0 {
        assert(values_in(a, flag) + values_in(b, flag) =~= values_in(b, flag));
    }
}

/// The tokens of fields give each of them what it holds.
proof fn lemma_gives(held: Seq<Field>, k: int)
    requires
        0 <= k < held.len(),
        have_own_flags(held),
        is_fit(held[k]),
    ensures
        gives(all_tokens(held), held[k]),
    decreases held.len(),
{
    let before = held.drop_last();
    let last = held.last();
    match held[k].flag() {
        None => {},
        Some(flag) => {
            assert forall|i: int, j: int|
                0 <= i < j < before.len() && (#[trigger] before[i]).flag() is Some implies
                before[i].flag() != (#[trigger] before[j]).flag() by {
                assert(before[i] == held[i] && before[j] == held[j]);
            }
            if k < before.len() {
                assert(before[k] == held[k]);
                lemma_gives(before, k);
                assert(held[k].flag() != held[held.len() - 1].flag());
                lemma_tokens_of(last, flag);
            } else {
                assert forall|i: int| 0 <= i < before.len() implies (#[trigger] before[i]).flag()
                    != Some(flag) by {
                    assert(before[i] == held[i]);
                    if held[i].flag() is Some {
                        assert(held[i].flag() != held[k].flag());
                    }
                }
                lemma_unknown_flag(before, flag);
                lemma_tokens_of(last, flag);
            }
            lemma_gives_more(all_tokens(before), tokens_of(last), held[k], flag);
        },
    }
}

proof fn lemma_connect_flags()
    ensures
        "--name"@.len() == 6,
        "--name"@[0] == '-',
        "--token-stdin"@.len() == 13,
        "--token-stdin"@[0] == '-',
        "--no-browser"@.len() == 12,
        "--no-browser"@[0] == '-',
        "--direct-oauth"@.len() == 14,
        "--direct-oauth"@[0] == '-',
        "--broker-url"@.len() == 12,
        "--broker-url"@[0] == '-',
        "--redirect-uri"@.len() == 14,
        "--redirect-uri"@[0] == '-',
        "--name"@[2] == 'n',
        "--name"@[3] == 'a',
        "--no-browser"@[2] == 'n',
        "--no-browser"@[3] == 'o',
        "--direct-oauth"@[2] == 'd',
        "--direct-oauth"@[3] == 'i',
        "--broker-url"@[2] == 'b',
        "--broker-url"@[3] == 'r',
        "--redirect-uri"@[2] == 'r',
        "--redirect-uri"@[3] == 'e',
        "--"@.len() == 2,
        "-y"@.len() == 2,
        "--json"@.len() == 6,
        "--json"@[2] == 'j',
{
    reveal_strlit("--name");
    reveal_strlit("--token-stdin");
    reveal_strlit("--no-browser");
    reveal_strlit("--direct-oauth");
    reveal_strlit("--broker-url");
    reveal_strlit("--redirect-uri");
    reveal_strlit("--");
    reveal_strlit("-y");
    reveal_strlit("--json");
}

proof fn lemma_daemon_flags()
    ensures
        "--session"@.len() == 9,
        "--session"@[0] == '-',
        "--launchd"@.len() == 9,
        "--launchd"@[0] == '-',
        "--localityd-bin"@.len() == 15,
        "--localityd-bin"@[0] == '-',
        "--state-dir"@.len() == 11,
        "--state-dir"@[0] == '-',
        "--tcp-addr"@.len() == 10,
        "--tcp-addr"@[0] == '-',
        "--include-env"@.len() == 13,
        "--include-env"@[0] == '-',
        "--session"@[2] == 's',
        "--session"@[3] == 'e',
        "--launchd"@[2] == 'l',
        "--launchd"@[3] == 'a',
        "--"@.len() == 2,
        "-y"@.len() == 2,
        "--json"@.len() == 6,
        "--json"@[2] == 'j',
{
    reveal_strlit("--session");
    reveal_strlit("--launchd");
    reveal_strlit("--localityd-bin");
    reveal_strlit("--state-dir");
    reveal_strlit("--tcp-addr");
    reveal_strlit("--include-env");
    reveal_strlit("--");
    reveal_strlit("-y");
    reveal_strlit("--json");
}

proof fn lemma_mount_flags()
    ensures
        "--workspace"@.len() == 11,
        "--workspace"@[0] == '-',
        "--root-page"@.len() == 11,
        "--root-page"@[0] == '-',
        "--connection"@.len() == 12,
        "--connection"@[0] == '-',
        "--mount-id"@.len() == 10,
        "--mount-id"@[0] == '-',
        "--projection"@.len() == 12,
        "--projection"@[0] == '-',
        "--read-only"@.len() == 11,
        "--read-only"@[0] == '-',
        "--workspace-folder"@.len() == 18,
        "--workspace-folder"@[0] == '-',
        "--workspace"@[2] == 'w',
        "--workspace"@[3] == 'o',
        "--root-page"@[2] == 'r',
        "--root-page"@[3] == 'o',
        "--connection"@[2] == 'c',
        "--connection"@[3] == 'o',
        "--projection"@[2] == 'p',
        "--projection"@[3] == 'r',
        "--read-only"@[2] == 'r',
        "--read-only"@[3] == 'e',
        "--"@.len() == 2,
        "-y"@.len() == 2,
        "--json"@.len() == 6,
        "--json"@[2] == 'j',
{
    reveal_strlit("--workspace");
    reveal_strlit("--root-page");
    reveal_strlit("--connection");
    reveal_strlit("--mount-id");
    reveal_strlit("--projection");
    reveal_strlit("--read-only");
    reveal_strlit("--workspace-folder");
    reveal_strlit("--");
    reveal_strlit("-y");
    reveal_strlit("--json");
}

proof fn lemma_search_flags()
    ensures
        "--connector"@.len() == 11,
        "--connector"@[0] == '-',
        "--limit"@.len() == 7,
        "--limit"@[0] == '-',
        "--all"@.len() == 5,
        "--all"@[0] == '-',
        "--"@.len() == 2,
        "-y"@.len() == 2,
        "--json"@.len() == 6,
        "--json"@[2] == 'j',
{
    reveal_strlit("--connector");
    reveal_strlit("--limit");
    reveal_strlit("--all");
    reveal_strlit("--");
    reveal_strlit("-y");
    reveal_strlit("--json");
}

proof fn lemma_files_flags()
    ensures
        "--title"@.len() == 7,
        "--title"@[0] == '-',
        "--parent"@.len() == 8,
        "--parent"@[0] == '-',
        "--force"@.len() == 7,
        "--force"@[0] == '-',
        "--to"@.len() == 4,
        "--to"@[0] == '-',
        "--out"@.len() == 5,
        "--out"@[0] == '-',
        "--yes"@.len() == 5,
        "--yes"@[0] == '-',
        "--confirm"@.len() == 9,
        "--confirm"@[0] == '-',
        "--title"@[2] == 't',
        "--title"@[3] == 'i',
        "--force"@[2] == 'f',
        "--force"@[3] == 'o',
        "--out"@[2] == 'o',
        "--out"@[3] == 'u',
        "--yes"@[2] == 'y',
        "--yes"@[3] == 'e',
        "--"@.len() == 2,
        "-y"@.len() == 2,
        "--json"@.len() == 6,
        "--json"@[2] == 'j',
{
    reveal_strlit("--title");
    reveal_strlit("--parent");
    reveal_strlit("--force");
    reveal_strlit("--to");
    reveal_strlit("--out");
    reveal_strlit("--yes");
    reveal_strlit("--confirm");
    reveal_strlit("--");
    reveal_strlit("-y");
    reveal_strlit("--json");
}

/// Whether the fields of a command can be written and told apart.
spec fn are_fit(held: Seq<Field>) -> bool {
    &&& have_own_flags(held)
    &&& forall|i: int| 0 <= i < held.len() ==> is_fit(#[trigger] held[i])
}

/// Whether the fields of a command can be written and told apart, and its
/// arguments are its words and its fields.
spec fn is_written_apart(command: LocalityCommand) -> bool {
    &&& are_fit(fields(command))
    &&& command.arguments() == path(command) + written(fields(command))
}

proof fn lemma_written_take(held: Seq<Field>, k: int)
    requires
        0 <= k < held.len(),
    ensures
        written(held.take(k + 1)) == written(held.take(k)) + held[k].arguments(),
{
    assert(held.take(k + 1).drop_last() =~= held.take(k));
}

proof fn lemma_written_behind(words: Seq<Seq<char>>, held: Seq<Field>, k: int)
    requires
        0 <= k < held.len(),
    ensures
        words + written(held.take(k + 1)) == words + written(held.take(k)) + held[k].arguments(),
{
    lemma_written_take(held, k);
    assert(words + (written(held.take(k)) + held[k].arguments()) =~= words + written(held.take(k))
        + held[k].arguments());
}

proof fn lemma_connect_notion_fits(o: cli::ConnectNotionArgs)
    requires
        read_back::values_are_plain(
            LocalityCommand::Connect { command: ConnectCommand::Notion(o) },
        ),
    ensures
        is_written_apart(LocalityCommand::Connect { command: ConnectCommand::Notion(o) }),
{
    let whole = LocalityCommand::Connect { command: ConnectCommand::Notion(o) };
    assert(are_fit(fields(whole))) by {
        lemma_connect_flags();
    }
    let f = fields(whole);
    let words = path(whole);
    lemma_written_behind(words, f, 0);
    lemma_written_behind(words, f, 1);
    lemma_written_behind(words, f, 2);
    lemma_written_behind(words, f, 3);
    lemma_written_behind(words, f, 4);
    lemma_written_behind(words, f, 5);
    assert(f[0].arguments() =~= cli::option("--name"@, o.name));
    assert(f[1].arguments() =~= cli::switch("--token-stdin"@, o.token_stdin));
    assert(f[2].arguments() =~= cli::switch("--no-browser"@, o.no_browser));
    assert(f[3].arguments() =~= cli::switch("--direct-oauth"@, o.direct_oauth));
    assert(f[4].arguments() =~= cli::option("--broker-url"@, o.broker_url));
    assert(f[5].arguments() =~= cli::option("--redirect-uri"@, o.redirect_uri));
    assert(f.take(0) =~= Seq::<Field>::empty());
    assert(f.take(6) =~= f);
    assert(words + written(f.take(0)) =~= words);
}

proof fn lemma_connect_google_docs_fits(o: cli::ConnectGoogleDocsArgs)
    requires
        read_back::values_are_plain(
            LocalityCommand::Connect { command: ConnectCommand::GoogleDocs(o) },
        ),
    ensures
        is_written_apart(LocalityCommand::Connect { command: ConnectCommand::GoogleDocs(o) }),
{
    let whole = LocalityCommand::Connect { command: ConnectCommand::GoogleDocs(o) };
    assert(are_fit(fields(whole))) by {
        lemma_connect_flags();
    }
    let f = fields(whole);
    lemma_written_take(f, 0);
    lemma_written_take(f, 1);
    lemma_written_take(f, 2);
    lemma_written_take(f, 3);
    assert(f.take(0) =~= Seq::<Field>::empty());
    assert(f.take(4) =~= f);
    assert(whole.arguments() =~= path(whole) + written(f));
}

proof fn lemma_daemon_fits(command: DaemonCommand)
    requires
        read_back::values_are_plain(LocalityCommand::Daemon { command }),
    ensures
        is_written_apart(LocalityCommand::Daemon { command }),
{
    lemma_daemon_flags();
    reveal_with_fuel(written, 8);
    let whole = LocalityCommand::Daemon { command };
    let o = read_back::daemon_parts(command).1;
    assert forall|i: int| 0 <= i < o.include_env@.len() implies args::is_plain(
        #[trigger] text::texts(o.include_env@)[i],
    ) by {
        assert(args::is_plain(o.include_env[i]@));
    }
    assert(written(daemon_fields(o)) =~= o.arguments());
    assert(whole.arguments() =~= path(whole) + written(fields(whole)));
}

proof fn lemma_mount_notion_fits(o: cli::MountNotionArgs)
    requires
        read_back::values_are_plain(LocalityCommand::Mount { command: MountCommand::Notion(o) }),
    ensures
        is_written_apart(LocalityCommand::Mount { command: MountCommand::Notion(o) }),
{
    let whole = LocalityCommand::Mount { command: MountCommand::Notion(o) };
    assert(are_fit(fields(whole))) by {
        lemma_mount_flags();
    }
    let f = fields(whole);
    let words = path(whole);
    lemma_written_behind(words, f, 0);
    lemma_written_behind(words, f, 1);
    lemma_written_behind(words, f, 2);
    lemma_written_behind(words, f, 3);
    lemma_written_behind(words, f, 4);
    lemma_written_behind(words, f, 5);
    lemma_written_behind(words, f, 6);
    assert(f[0].arguments() =~= seq![o.path@]);
    assert(f[1].arguments() =~= cli::switch("--workspace"@, o.workspace));
    assert(f[2].arguments() =~= cli::option("--root-page"@, o.root_page));
    assert(f[3].arguments() =~= cli::option("--connection"@, o.connection));
    assert(f[4].arguments() =~= cli::option("--mount-id"@, o.mount_id));
    assert(f[5].arguments() =~= cli::option("--projection"@, o.projection));
    assert(f[6].arguments() =~= cli::switch("--read-only"@, o.read_only));
    assert(f.take(0) =~= Seq::<Field>::empty());
    assert(f.take(7) =~= f);
    assert(words + written(f.take(0)) =~= words);
    assert(words + seq![o.path@] =~= seq!["mount"@, "notion"@, o.path@]);
}

proof fn lemma_mount_google_docs_fits(o: cli::MountGoogleDocsArgs)
    requires
        read_back::values_are_plain(
            LocalityCommand::Mount { command: MountCommand::GoogleDocs(o) },
        ),
    ensures
        is_written_apart(LocalityCommand::Mount { command: MountCommand::GoogleDocs(o) }),
{
    let whole = LocalityCommand::Mount { command: MountCommand::GoogleDocs(o) };
    assert(are_fit(fields(whole))) by {
        lemma_mount_flags();
    }
    let f = fields(whole);
    lemma_written_take(f, 0);
    lemma_written_take(f, 1);
    lemma_written_take(f, 2);
    lemma_written_take(f, 3);
    lemma_written_take(f, 4);
    lemma_written_take(f, 5);
    assert(f.take(0) =~= Seq::<Field>::empty());
    assert(f.take(6) =~= f);
    assert(whole.arguments() =~= path(whole) + written(f));
}

proof fn lemma_search_fits(o: cli::SearchArgs)
    requires
        read_back::values_are_plain(LocalityCommand::Search(o)),
    ensures
        is_written_apart(LocalityCommand::Search(o)),
{
    lemma_search_flags();
    reveal_with_fuel(written, 6);
    let whole = LocalityCommand::Search(o);
    assert forall|i: int| 0 <= i < o.query@.len() implies args::is_plain(
        #[trigger] text::texts(o.query@)[i],
    ) by {
        assert(args::is_plain(o.query[i]@));
    }
    assert(whole.arguments() =~= path(whole) + written(fields(whole)));
}

proof fn lemma_templates_fits(command: TemplatesCommand)
    requires
        read_back::values_are_plain(LocalityCommand::Templates { command }),
    ensures
        is_written_apart(LocalityCommand::Templates { command }),
{
    let whole = LocalityCommand::Templates { command };
    let f = fields(whole);
    assert(are_fit(f)) by {
        lemma_files_flags();
    }
    match command {
        TemplatesCommand::List => {},
        TemplatesCommand::Validate(_) => {
            lemma_written_take(f, 0);
        },
        TemplatesCommand::New(_) => {
            lemma_written_take(f, 0);
            lemma_written_take(f, 1);
            lemma_written_take(f, 2);
        },
        TemplatesCommand::Apply(_) => {
            lemma_written_take(f, 0);
            lemma_written_take(f, 1);
            lemma_written_take(f, 2);
            lemma_written_take(f, 3);
            lemma_written_take(f, 4);
        },
    }
    assert(f.take(0) =~= Seq::<Field>::empty());
    assert(f.take(f.len() as int) =~= f);
    assert(whole.arguments() =~= path(whole) + written(f));
}

proof fn lemma_file_provider_fits(command: FileProviderCommand)
    requires
        read_back::values_are_plain(LocalityCommand::FileProvider { command }),
    ensures
        is_written_apart(LocalityCommand::FileProvider { command }),
{
    let whole = LocalityCommand::FileProvider { command };
    let f = fields(whole);
    if f.len() > 0 {
        lemma_written_take(f, 0);
    }
    assert(f.take(0) =~= Seq::<Field>::empty());
    assert(f.take(f.len() as int) =~= f);
    assert(whole.arguments() =~= path(whole) + written(f));
}

/// Commands with at most one field, which is a positional.
proof fn lemma_one_word_fits(command: LocalityCommand)
    requires
        read_back::values_are_plain(command),
        !(command is Connect || command is Daemon || command is Mount || command is Search
            || command is Templates || command is FileProvider || command is Create || command
            is Okf || command is Push || command is Restore),
    ensures
        is_written_apart(command),
{
    let f = fields(command);
    if f.len() > 0 {
        lemma_written_take(f, 0);
    }
    assert(f.take(0) =~= Seq::<Field>::empty());
    assert(f.take(f.len() as int) =~= f);
    assert(command.arguments() =~= path(command) + written(f));
}

proof fn lemma_few_fields_fit(command: LocalityCommand)
    requires
        read_back::values_are_plain(command),
        command is Create || command is Okf || command is Push || command is Restore,
    ensures
        is_written_apart(command),
{
    let f = fields(command);
    assert(are_fit(f)) by {
        lemma_files_flags();
    }
    lemma_written_take(f, 0);
    lemma_written_take(f, 1);
    if f.len() == 3 {
        lemma_written_take(f, 2);
    }
    assert(f.take(0) =~= Seq::<Field>::empty());
    assert(f.take(f.len() as int) =~= f);
    assert(command.arguments() =~= path(command) + written(f));
}

proof fn lemma_command_fits(command: LocalityCommand)
    requires
        read_back::values_are_plain(command),
    ensures
        is_written_apart(command),
{
    match command {
        LocalityCommand::Connect { command: ConnectCommand::Notion(o) } => {
            lemma_connect_notion_fits(o);
        },
        LocalityCommand::Connect { command: ConnectCommand::GoogleDocs(o) } => {
            lemma_connect_google_docs_fits(o);
        },
        LocalityCommand::Daemon { command } => {
            lemma_daemon_fits(command);
        },
        LocalityCommand::Mount { command: MountCommand::Notion(o) } => {
            lemma_mount_notion_fits(o);
        },
        LocalityCommand::Mount { command: MountCommand::GoogleDocs(o) } => {
            lemma_mount_google_docs_fits(o);
        },
        LocalityCommand::Search(o) => {
            lemma_search_fits(o);
        },
        LocalityCommand::Templates { command } => {
            lemma_templates_fits(command);
        },
        LocalityCommand::FileProvider { command } => {
            lemma_file_provider_fits(command);
        },
        _ => {
            if command is Create || command is Okf || command is Push || command is Restore {
                lemma_few_fields_fit(command);
            } else {
                lemma_one_word_fits(command);
            }
        },
    }
}

/// The arguments written for a complete command are a form of it, where no value
/// of it can be taken for a flag.
proof fn lemma_arguments_parse(command: LocalityCommand)
    requires
        is_complete(command),
        read_back::values_are_plain(command),
    ensures
        parses(command.arguments(), command, false),
{
    let held = fields(command);
    let words = path(command);
    let again = command.arguments();
    lemma_command_fits(command);
    lemma_reads_all(held, held.len() as int);
    assert(held.take(held.len() as int) =~= held);
    assert(again.take(words.len() as int) =~= words);
    assert(again.skip(words.len() as int) =~= written(held));
    let tokens = all_tokens(held);
    lemma_words_of(held);
    assert forall|i: int| 0 <= i < held.len() implies gives(tokens, #[trigger] held[i]) by {
        lemma_gives(held, i);
    }
    lemma_unknown_flag(held, "--json"@);
}

/// How long the name of a command is, and its second and its third letter.
spec fn name_letters(command: LocalityCommand) -> (int, char, char) {
    match command {
        LocalityCommand::Connect { .. } => (7, 'o', 'n'),
        LocalityCommand::Connections => (11, 'o', 'n'),
        LocalityCommand::Profiles => (8, 'r', 'o'),
        LocalityCommand::Connection { .. } => (10, 'o', 'n'),
        LocalityCommand::Disconnect(_) => (10, 'i', 's'),
        LocalityCommand::Daemon { .. } => (6, 'a', 'e'),
        LocalityCommand::Mount { .. } => (5, 'o', 'u'),
        LocalityCommand::Info(_) => (4, 'n', 'f'),
        LocalityCommand::Status(_) => (6, 't', 'a'),
        LocalityCommand::Doctor => (6, 'o', 'c'),
        LocalityCommand::Search(_) => (6, 'e', 'a'),
        LocalityCommand::Create { .. } => (6, 'r', 'e'),
        LocalityCommand::Templates { .. } => (9, 'e', 'm'),
        LocalityCommand::Okf { .. } => (3, 'k', 'f'),
        LocalityCommand::Inspect(_) => (7, 'n', 's'),
        LocalityCommand::Pull(_) => (4, 'u', 'l'),
        LocalityCommand::Push(_) => (4, 'u', 's'),
        LocalityCommand::Diff(_) => (4, 'i', 'f'),
        LocalityCommand::Undo(_) => (4, 'n', 'd'),
        LocalityCommand::Log(_) => (3, 'o', 'g'),
        LocalityCommand::Restore(_) => (7, 'e', 's'),
        LocalityCommand::Config => (6, 'o', 'n'),
        LocalityCommand::Mcp => (3, 'c', 'p'),
        LocalityCommand::FileProvider { .. } => (13, 'i', 'l'),
    }
}

proof fn lemma_name_letters(command: LocalityCommand)
    ensures
        ({
            let name = read_back::command_name(command);
            name_letters(command) == (name.len() as int, name[1], name[2])
        }),
{
    reveal_strlit("connect");
    reveal_strlit("connections");
    reveal_strlit("profiles");
    reveal_strlit("connection");
    reveal_strlit("disconnect");
    reveal_strlit("daemon");
    reveal_strlit("mount");
    reveal_strlit("info");
    reveal_strlit("status");
    reveal_strlit("doctor");
    reveal_strlit("search");
    reveal_strlit("create");
    reveal_strlit("templates");
    reveal_strlit("okf");
    reveal_strlit("inspect");
    reveal_strlit("pull");
    reveal_strlit("push");
    reveal_strlit("diff");
    reveal_strlit("undo");
    reveal_strlit("log");
    reveal_strlit("restore");
    reveal_strlit("config");
    reveal_strlit("mcp");
    reveal_strlit("file-provider");
}

/// Whether two commands are of the same sort.
spec fn same_sort(a: LocalityCommand, b: LocalityCommand) -> bool {
    &&& name_letters(a) == name_letters(b)
    &&& match (a, b) {
        (LocalityCommand::Connect { command: x }, LocalityCommand::Connect { command: y }) => (x
            is Notion) == (y is Notion),
        (LocalityCommand::Mount { command: x }, LocalityCommand::Mount { command: y }) => (x
            is Notion) == (y is Notion),
        (LocalityCommand::Daemon { command: x }, LocalityCommand::Daemon { command: y }) => {
            &&& (x is Start) == (y is Start)
            &&& (x is Stop) == (y is Stop)
            &&& (x is Status) == (y is Status)
            &&& (x is Reload) == (y is Reload)
        },
        (LocalityCommand::Templates { command: x }, LocalityCommand::Templates { command: y }) => {
            &&& (x is List) == (y is List)
            &&& (x is Validate) == (y is Validate)
            &&& (x is New) == (y is New)
        },
        (
            LocalityCommand::FileProvider { command: x },
            LocalityCommand::FileProvider { command: y },
        ) => {
            &&& (x is List) == (y is List)
            &&& (x is Reset) == (y is Reset)
        },
        _ => true,
    }
}

proof fn lemma_same_sort(a: LocalityCommand, b: LocalityCommand)
    requires
        path(a)[0] == path(b)[0],
        path(a).len() == 2 && path(b).len() == 2 ==> path(a)[1] == path(b)[1],
    ensures
        same_sort(a, b),
        path(a).len() == path(b).len(),
{
    lemma_name_letters(a);
    lemma_name_letters(b);
    reveal_strlit("apply");
    reveal_strlit("google-docs");
    reveal_strlit("list");
    reveal_strlit("new");
    reveal_strlit("notion");
    reveal_strlit("open");
    reveal_strlit("register");
    reveal_strlit("reload");
    reveal_strlit("reset");
    reveal_strlit("restart");
    reveal_strlit("run");
    reveal_strlit("start");
    reveal_strlit("status");
    reveal_strlit("stop");
    reveal_strlit("unregister");
    reveal_strlit("validate");
    assert("apply"@.len() == 5 && "apply"@[1] == 'p' && "apply"@[2] == 'p');
    assert("google-docs"@.len() == 11 && "google-docs"@[1] == 'o' && "google-docs"@[2] == 'o');
    assert("list"@.len() == 4 && "list"@[1] == 'i' && "list"@[2] == 's');
    assert("new"@.len() == 3 && "new"@[1] == 'e' && "new"@[2] == 'w');
    assert("notion"@.len() == 6 && "notion"@[1] == 'o' && "notion"@[2] == 't');
    assert("open"@.len() == 4 && "open"@[1] == 'p' && "open"@[2] == 'e');
    assert("register"@.len() == 8 && "register"@[1] == 'e' && "register"@[2] == 'g');
    assert("reload"@.len() == 6 && "reload"@[1] == 'e' && "reload"@[2] == 'l');
    assert("reset"@.len() == 5 && "reset"@[1] == 'e' && "reset"@[2] == 's');
    assert("restart"@.len() == 7 && "restart"@[1] == 'e' && "restart"@[2] == 's');
    assert("run"@.len() == 3 && "run"@[1] == 'u' && "run"@[2] == 'n');
    assert("start"@.len() == 5 && "start"@[1] == 't' && "start"@[2] == 'a');
    assert("status"@.len() == 6 && "status"@[1] == 't' && "status"@[2] == 'a');
    assert("stop"@.len() == 4 && "stop"@[1] == 't' && "stop"@[2] == 'o');
    assert("unregister"@.len() == 10 && "unregister"@[1] == 'n' && "unregister"@[2] == 'r');
    assert("validate"@.len() == 8 && "validate"@[1] == 'a' && "validate"@[2] == 'l');
    if path(a).len() == 2 && path(b).len() == 2 {
        let x = path(a)[1];
        assert(x == path(b)[1]);
        assert(x.len() == path(b)[1].len() && x[1] == path(b)[1][1] && x[2] == path(b)[1][2]);
    }
}

spec fn have_same_shape(f: Seq<Field>, g: Seq<Field>) -> bool {
    f.len() == g.len() && forall|i: int|
        0 <= i < f.len() ==> (#[trigger] f[i]).same_shape(g[i])
}

/// Whether two commands are of the same variant.
spec fn same_variant(a: LocalityCommand, b: LocalityCommand) -> bool {
    &&& (a is Connect) == (b is Connect)
    &&& (a is Connections) == (b is Connections)
    &&& (a is Profiles) == (b is Profiles)
    &&& (a is Connection) == (b is Connection)
    &&& (a is Disconnect) == (b is Disconnect)
    &&& (a is Daemon) == (b is Daemon)
    &&& (a is Mount) == (b is Mount)
    &&& (a is Info) == (b is Info)
    &&& (a is Status) == (b is Status)
    &&& (a is Doctor) == (b is Doctor)
    &&& (a is Search) == (b is Search)
    &&& (a is Create) == (b is Create)
    &&& (a is Templates) == (b is Templates)
    &&& (a is Okf) == (b is Okf)
    &&& (a is Inspect) == (b is Inspect)
    &&& (a is Pull) == (b is Pull)
    &&& (a is Push) == (b is Push)
    &&& (a is Diff) == (b is Diff)
    &&& (a is Undo) == (b is Undo)
    &&& (a is Log) == (b is Log)
    &&& (a is Restore) == (b is Restore)
    &&& (a is Config) == (b is Config)
    &&& (a is Mcp) == (b is Mcp)
    &&& (a is FileProvider) == (b is FileProvider)
}

proof fn lemma_same_variant(a: LocalityCommand, b: LocalityCommand)
    requires
        name_letters(a) == name_letters(b),
    ensures
        same_variant(a, b),
{
}

proof fn lemma_same_shape(a: LocalityCommand, b: LocalityCommand)
    requires
        same_sort(a, b),
    ensures
        have_same_shape(fields(a), fields(b)),
{
    lemma_same_variant(a, b);
    let f = fields(a);
    let g = fields(b);
    assert(f.len() == g.len());
    assert forall|i: int| 0 <= i < f.len() implies (#[trigger] f[i]).same_shape(g[i]) by {
        if i == 0 {
            assert(f[0].same_shape(g[0]));
        } else if i == 1 {
            assert(f[1].same_shape(g[1]));
        } else if i == 2 {
            assert(f[2].same_shape(g[2]));
        } else if i == 3 {
            assert(f[3].same_shape(g[3]));
        } else if i == 4 {
            assert(f[4].same_shape(g[4]));
        } else if i == 5 {
            assert(f[5].same_shape(g[5]));
        } else {
            assert(f[6].same_shape(g[6]));
        }
    }
}

proof fn lemma_knows_the_same(f: Seq<Field>, g: Seq<Field>, flag: Seq<char>)
    requires
        have_same_shape(f, g),
    ensures
        knows_switch(f, flag) == knows_switch(g, flag),
        knows_value(f, flag) == knows_value(g, flag),
{
    if knows_switch(f, flag) && flag != "--json"@ {
        let i = choose|i: int|
            0 <= i < f.len() && (#[trigger] f[i]) is Switch && f[i].flag() == Some(flag);
        assert(f[i].same_shape(g[i]));
        assert(g[i] is Switch);
    }
    if knows_switch(g, flag) && flag != "--json"@ {
        let i = choose|i: int|
            0 <= i < g.len() && (#[trigger] g[i]) is Switch && g[i].flag() == Some(flag);
        assert(f[i].same_shape(g[i]));
        assert(f[i] is Switch);
    }
    if knows_value(f, flag) {
        let i = choose|i: int|
            0 <= i < f.len() && (#[trigger] f[i]).takes_value() && f[i].flag() == Some(flag);
        assert(f[i].same_shape(g[i]));
        assert(g[i].takes_value());
    }
    if knows_value(g, flag) {
        let i = choose|i: int|
            0 <= i < g.len() && (#[trigger] g[i]).takes_value() && g[i].flag() == Some(flag);
        assert(f[i].same_shape(g[i]));
        assert(f[i].takes_value());
    }
}

proof fn lemma_reads_the_same(f: Seq<Field>, g: Seq<Field>, all: Seq<Seq<char>>)
    requires
        have_same_shape(f, g),
    ensures
        reads(f, all) == reads(g, all),
    decreases all.len(),
{
    if all.len() > 0 {
        lemma_knows_the_same(f, g, all[0]);
        lemma_knows_the_same(f, g, "--yes"@);
        lemma_knows_the_same(f, g, all[0].take(equals_sign(all[0], 0)));
        lemma_reads_the_same(f, g, all.skip(1));
        if all.len() >= 2 {
            lemma_reads_the_same(f, g, all.skip(2));
        }
    }
}

proof fn lemma_words_in_front(held: Seq<Field>, n: int)
    requires
        0 <= n <= held.len(),
        forall|i: int| n <= i < held.len() ==> (#[trigger] held[i]).flag() is Some,
    ensures
        words_of(held) == words_of(held.take(n)),
    decreases held.len(),
{
    if n == held.len() {
        assert(held.take(n) =~= held);
    } else {
        let before = held.drop_last();
        assert(held[held.len() - 1].flag() is Some);
        assert forall|i: int| n <= i < before.len() implies (#[trigger] before[i]).flag()
            is Some by {
            assert(before[i] == held[i]);
        }
        lemma_words_in_front(before, n);
        assert(before.take(n) =~= held.take(n));
        assert(words_of(held) =~= words_of(before));
    }
}

/// How many fields of a command have no flag; they stand in front.
spec fn unflagged(command: LocalityCommand) -> int {
    let held = fields(command);
    if held.len() > 1 && held[1].flag() is None {
        2
    } else if held.len() > 0 && held[0].flag() is None {
        1
    } else {
        0
    }
}

proof fn lemma_unflagged(command: LocalityCommand)
    ensures
        forall|i: int|
            unflagged(command) <= i < fields(command).len() ==> (#[trigger] fields(
                command,
            )[i]).flag() is Some,
        0 <= unflagged(command) <= fields(command).len(),
        unflagged(command) == 2 ==> fields(command)[0] is Word && fields(command)[1] is Word,
{
}

proof fn lemma_words_of_front(command: LocalityCommand)
    ensures
        words_of(fields(command)) == (if unflagged(command) == 0 {
            Seq::empty()
        } else if unflagged(command) == 1 {
            fields(command)[0].words()
        } else {
            fields(command)[0].words() + fields(command)[1].words()
        }),
{
    let held = fields(command);
    lemma_unflagged(command);
    lemma_words_in_front(held, unflagged(command));
    reveal_with_fuel(words_of, 3);
    let front = held.take(unflagged(command));
    assert(words_of(front) =~= (if unflagged(command) == 0 {
        Seq::empty()
    } else if unflagged(command) == 1 {
        held[0].words()
    } else {
        held[0].words() + held[1].words()
    }));
}

/// The positionals of two commands of the same sort are equal only where each of
/// their fields without a flag is.
proof fn lemma_words_tell(a: LocalityCommand, b: LocalityCommand, i: int)
    requires
        have_same_shape(fields(a), fields(b)),
        words_of(fields(a)) == words_of(fields(b)),
        0 <= i < fields(a).len(),
        fields(a)[i].flag() is None,
    ensures
        fields(a)[i] == fields(b)[i],
{
    let f = fields(a);
    let g = fields(b);
    lemma_unflagged(a);
    lemma_words_of_front(a);
    lemma_words_of_front(b);
    assert(f[0].same_shape(g[0]));
    if f.len() > 1 {
        assert(f[1].same_shape(g[1]));
    }
    if unflagged(a) == 2 {
        assert(words_of(f)[0] == f[0]->Word_0 && words_of(f)[1] == f[1]->Word_0);
        assert(words_of(g)[0] == g[0]->Word_0 && words_of(g)[1] == g[1]->Word_0);
    } else {
        match (f[0], g[0]) {
            (Field::Word(x), Field::Word(y)) => {
                assert(words_of(f)[0] == x && words_of(g)[0] == y);
            },
            (Field::MaybeWord(Some(x)), Field::MaybeWord(Some(y))) => {
                assert(words_of(f)[0] == x && words_of(g)[0] == y);
            },
            (Field::MaybeWord(None), Field::MaybeWord(Some(_))) => {
                assert(words_of(f).len() == 0 && words_of(g).len() == 1);
            },
            (Field::MaybeWord(Some(_)), Field::MaybeWord(None)) => {
                assert(words_of(f).len() == 1 && words_of(g).len() == 0);
            },
            _ => {},
        }
    }
}

proof fn lemma_gives_one(tokens: Seq<Token>, f: Field, g: Field)
    requires
        f.same_shape(g),
        f.flag() is Some,
        gives(tokens, f),
        gives(tokens, g),
    ensures
        f == g,
{
    match (f, g) {
        (Field::Value(flag, Some(x)), Field::Value(_, Some(y))) => {
            assert(values_in(tokens, flag)[0] == x && values_in(tokens, flag)[0] == y);
        },
        _ => {},
    }
}

/// Arguments are a form of one command at most: two that they parse as are
/// called by the same words, hold the same in every field, and agree on
/// `--json`.
pub proof fn law_arguments_parse_as_one_command(
    all: Seq<Seq<char>>,
    a: LocalityCommand,
    b: LocalityCommand,
    json_a: bool,
    json_b: bool,
)
    requires
        parses(all, a, json_a),
        parses(all, b, json_b),
    ensures
        path(a) == path(b),
        fields(a) == fields(b),
        json_a == json_b,
{
    let f = fields(a);
    let g = fields(b);
    assert(path(a)[0] == all.take(path(a).len() as int)[0]);
    assert(path(b)[0] == all.take(path(b).len() as int)[0]);
    if path(a).len() == 2 && path(b).len() == 2 {
        assert(path(a)[1] == all.take(2)[1]);
        assert(path(b)[1] == all.take(2)[1]);
    }
    lemma_same_sort(a, b);
    lemma_same_shape(a, b);
    assert(path(a) == path(b));
    lemma_reads_the_same(f, g, all.skip(path(a).len() as int));
    let tokens = reads(f, all.skip(path(a).len() as int))->0;
    assert forall|i: int| 0 <= i < f.len() implies #[trigger] f[i] == g[i] by {
        assert(f[i].same_shape(g[i]));
        if f[i].flag() is Some {
            lemma_gives_one(tokens, f[i], g[i]);
        } else {
            lemma_words_tell(a, b, i);
        }
    }
    assert(f =~= g);
}

/// The arguments written for a complete command, no value of which can be taken
/// for a flag, begin with its name and are a form of it without `--json`, and of
/// no command that is called or given anything else.
pub proof fn law_arguments_parse_as_their_command(command: LocalityCommand)
    requires
        is_complete(command),
        read_back::values_are_plain(command),
    ensures
        command.arguments().len() > 0,
        command.arguments()[0] == read_back::command_name(command),
        parses(command.arguments(), command, false),
        forall|other: LocalityCommand, json: bool| #[trigger]
            parses(command.arguments(), other, json) ==> path(other) == path(command) && fields(
                other,
            ) == fields(command) && !json,
{
    read_back::law_arguments_read_back(command);
    lemma_arguments_parse(command);
    assert forall|other: LocalityCommand, json: bool| #[trigger]
        parses(command.arguments(), other, json) implies path(other) == path(command) && fields(
        other,
    ) == fields(command) && !json by {
        law_arguments_parse_as_one_command(command.arguments(), command, other, false, json);
    }
}

/// What is written for a command that arguments parse as parses as that command
/// again, where no value of it can be taken for a flag; only `--json` is dropped.
pub proof fn law_arguments_parse_again(
    all: Seq<Seq<char>>,
    command: LocalityCommand,
    json: bool,
)
    requires
        parses(all, command, json),
        read_back::values_are_plain(command),
    ensures
        parses(command.arguments(), command, false),
{
    lemma_arguments_parse(command);
}

} // verus!
