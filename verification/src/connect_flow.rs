//! The order in which a connection is made: what has to be asked for next, and
//! what the connection is then made from.
use vstd::prelude::*;

use crate::args;
use crate::connect::{
    BrokerOAuthConnectOptions, ConnectOptions, GoogleDocsBrokerOAuthConnectOptions,
    OAuthConnectOptions,
};
use crate::model;
use crate::model::Failure;
use crate::oauth;
use crate::oauth::{
    BrokeredSource, LocalOAuthAuthorization, LocalOAuthError, NotionOAuthCliConfig,
    OAuthBrokerCliConfig, OAuthVariables,
};
use crate::requests;
use crate::requests::ConnectRoute;
use crate::text;

verus! {

/// What the environment and the sources say of authorisations.
#[derive(Debug, PartialEq, Eq)]
pub struct ConnectSetting {
    pub notion: OAuthVariables,
    pub notion_broker_url: String,
    pub google_docs: OAuthVariables,
    pub google_docs_broker_url: String,
    pub google_docs_redirect_uri: String,
}

/// What a broker answered to the start of an authorisation.
#[derive(Debug, PartialEq, Eq)]
pub struct BrokerStart {
    pub client_id: String,
    pub session: String,
    pub state: String,
    pub redirect_uri: String,
    pub authorization_url: String,
}

/// What is known so far of a connection that is being made.
#[derive(Debug, PartialEq, Eq)]
pub struct ConnectProgress {
    /// That the store opened, or why it did not.
    pub store: Option<Result<(), String>>,
    /// What standard input held, or why it could not be read.
    pub token: Option<Result<String, String>>,
    /// What the broker answered, or why it did not.
    pub started: Option<Result<BrokerStart, String>>,
    /// What came back from the browser.
    pub authorized: Option<Result<LocalOAuthAuthorization, LocalOAuthError>>,
}

/// An authorisation in the browser.
#[derive(Debug, PartialEq, Eq)]
pub struct BrowserAuthorization {
    pub source: BrokeredSource,
    pub url: String,
    pub redirect_uri: String,
    pub state: String,
    pub no_browser: bool,
}

/// What is done next to make a connection.
#[derive(Debug, PartialEq, Eq)]
pub enum ConnectAction {
    OpenStore,
    ReadToken,
    ConnectToken(ConnectOptions),
    StartBroker(OAuthBrokerCliConfig),
    Authorize(BrowserAuthorization),
    ConnectNotionCode(BrokerOAuthConnectOptions),
    ConnectGoogleDocsCode(GoogleDocsBrokerOAuthConnectOptions),
    /// Authorise in the browser as a client of one's own.
    AuthorizeDirectly(NotionOAuthCliConfig),
    ConnectOwnCode(OAuthConnectOptions),
    Fail(Failure),
}

/// What follows where a token is read from standard input: it is read, and has
/// to hold more than white space.
pub open spec fn follows_token(
    all: Seq<Seq<char>>,
    token: Option<Result<String, String>>,
    r: ConnectAction,
) -> bool {
    match token {
        None => r is ReadToken,
        Some(Err(why)) => r matches ConnectAction::Fail(f) && model::is_failure(
            f,
            "connect"@,
            "stdin_read_failed"@,
            why@,
            1,
        ),
        Some(Ok(read)) => if text::trimmed(read@).len() == 0 {
            r matches ConnectAction::Fail(f) && model::is_suggesting_error(
                f.error,
                "connect"@,
                "auth_required"@,
                "empty Notion token"@,
                "loc connect notion --token-stdin"@,
            ) && f.exit_code == 1
        } else {
            r matches ConnectAction::ConnectToken(o) && text::opt_text(o.connection_id)
                == args::value_of(all, "--name"@) && o.token@ == text::trimmed(read@)
        },
    }
}

/// Whether a code that came back is handed on, with what the broker said, to
/// the source that it is for.
pub open spec fn hands_on_code(
    all: Seq<Seq<char>>,
    source: BrokeredSource,
    broker_url: Seq<char>,
    start: BrokerStart,
    code: String,
    r: ConnectAction,
) -> bool {
    match source {
        BrokeredSource::Notion => r matches ConnectAction::ConnectNotionCode(o) && text::opt_text(
            o.connection_id,
        ) == args::value_of(all, "--name"@) && o.broker_url@ == broker_url && o.client_id
            == start.client_id && o.session == start.session && o.state == start.state && o.code
            == code && o.redirect_uri == start.redirect_uri,
        BrokeredSource::GoogleDocs => r matches ConnectAction::ConnectGoogleDocsCode(o)
            && text::opt_text(o.connection_id) == args::value_of(all, "--name"@)
            && o.broker_url@ == broker_url && o.client_id == start.client_id && o.session
            == start.session && o.state == start.state && o.code == code && o.redirect_uri
            == start.redirect_uri,
    }
}

/// What follows where a broker is asked: it starts an authorisation, which is
/// then made in the browser, and the code that comes back is handed on.
pub open spec fn follows_broker(
    all: Seq<Seq<char>>,
    source: BrokeredSource,
    broker_url: Seq<char>,
    redirect_uri: Seq<char>,
    p: ConnectProgress,
    r: ConnectAction,
) -> bool {
    if oauth::redirect_parts(redirect_uri) is None {
        r matches ConnectAction::Fail(f) && oauth::refuses_redirect(
            f.error,
            redirect_uri,
            source.hint(),
        ) && f.exit_code == 1
    } else {
        match p.started {
            None => r matches ConnectAction::StartBroker(c) && c.broker_url@ == broker_url
                && c.redirect_uri@ == redirect_uri,
            Some(Err(why)) => r matches ConnectAction::Fail(f) && model::is_suggesting_error(
                f.error,
                "connect"@,
                "oauth_broker_start_failed"@,
                source.start_failure() + why@,
                source.hint(),
            ) && f.exit_code == 1,
            Some(Ok(start)) => match p.authorized {
                None => r matches ConnectAction::Authorize(a) && a.source == source && a.url
                    == start.authorization_url && a.redirect_uri == start.redirect_uri && a.state
                    == start.state && a.no_browser == all.contains("--no-browser"@),
                Some(Err(cause)) => r matches ConnectAction::Fail(f) && oauth::tells_oauth_error(
                    f.error,
                    cause,
                    source.hint(),
                ) && f.exit_code == 1,
                Some(Ok(granted)) => hands_on_code(
                    all,
                    source,
                    broker_url,
                    start,
                    granted.code,
                    r,
                ),
            },
        }
    }
}

/// What follows where Notion is asked as a client of one's own.
pub open spec fn follows_own_client(
    all: Seq<Seq<char>>,
    variables: OAuthVariables,
    p: ConnectProgress,
    r: ConnectAction,
) -> bool {
    let redirect_uri = oauth::chosen(
        args::value_of(all, "--redirect-uri"@),
        variables.redirect_uris@,
        oauth::DEFAULT_NOTION_REDIRECT_URI@,
    );
    match (
        oauth::first_set(variables.client_ids@),
        oauth::first_set(variables.client_secrets@),
    ) {
        (None, _) => r matches ConnectAction::Fail(f) && oauth::is_missing_variable(
            f.error,
            "LOCALITY_NOTION_OAUTH_CLIENT_ID"@,
        ) && f.exit_code == 1,
        (Some(_), None) => r matches ConnectAction::Fail(f) && oauth::is_missing_variable(
            f.error,
            "LOCALITY_NOTION_OAUTH_CLIENT_SECRET"@,
        ) && f.exit_code == 1,
        (Some(id), Some(secret)) => if oauth::redirect_parts(redirect_uri) is None {
            r matches ConnectAction::Fail(f) && oauth::refuses_redirect(
                f.error,
                redirect_uri,
                "loc connect notion --token-stdin"@,
            ) && f.exit_code == 1
        } else {
            match p.authorized {
                None => r matches ConnectAction::AuthorizeDirectly(c) && c.client_id@ == id
                    && c.client_secret@ == secret && c.redirect_uri@ == redirect_uri,
                Some(Err(cause)) => r matches ConnectAction::Fail(f) && oauth::tells_oauth_error(
                    f.error,
                    cause,
                    "loc connect notion --token-stdin"@,
                ) && f.exit_code == 1,
                Some(Ok(granted)) => r matches ConnectAction::ConnectOwnCode(o) && text::opt_text(
                    o.connection_id,
                ) == args::value_of(all, "--name"@) && o.client_id@ == id && o.client_secret@
                    == secret && o.code == granted.code && o.redirect_uri@ == redirect_uri,
            }
        },
    }
}

/// What follows on what is known of a connection: the source has to be one that
/// can be connected and the store has to open before anything is asked for.
pub open spec fn follows_connect(
    all: Seq<Seq<char>>,
    setting: ConnectSetting,
    p: ConnectProgress,
    r: ConnectAction,
) -> bool {
    match (requests::connect_route(all), p.store) {
        (None, _) => r matches ConnectAction::Fail(f) && model::is_failure(
            f,
            "connect"@,
            "usage"@,
            "usage: loc connect <notion|google-docs> [options] [--json]"@,
            2,
        ),
        (Some(_), None) => r is OpenStore,
        (Some(_), Some(Err(why))) => r matches ConnectAction::Fail(f) && model::is_failure(
            f,
            "connect"@,
            "store_open_failed"@,
            why@,
            1,
        ),
        (Some(ConnectRoute::NotionToken), Some(Ok(_))) => follows_token(all, p.token, r),
        (Some(ConnectRoute::NotionBroker), Some(Ok(_))) => follows_broker(
            all,
            BrokeredSource::Notion,
            oauth::chosen(
                args::value_of(all, "--broker-url"@),
                setting.notion.broker_urls@,
                setting.notion_broker_url@,
            ),
            oauth::chosen(
                args::value_of(all, "--redirect-uri"@),
                setting.notion.redirect_uris@,
                oauth::DEFAULT_NOTION_REDIRECT_URI@,
            ),
            p,
            r,
        ),
        (Some(ConnectRoute::GoogleDocs), Some(Ok(_))) => follows_broker(
            all,
            BrokeredSource::GoogleDocs,
            oauth::chosen(
                args::value_of(all, "--broker-url"@),
                setting.google_docs.broker_urls@,
                setting.google_docs_broker_url@,
            ),
            oauth::chosen(
                args::value_of(all, "--redirect-uri"@),
                setting.google_docs.redirect_uris@,
                setting.google_docs_redirect_uri@,
            ),
            p,
            r,
        ),
        (Some(ConnectRoute::NotionDirect), Some(Ok(_))) => follows_own_client(
            all,
            setting.notion,
            p,
            r,
        ),
    }
}

fn own_copy(error: &LocalOAuthError) -> (r: LocalOAuthError)
    ensures
        r == *error,
{
    LocalOAuthError { code: error.code, message: error.message.clone() }
}

fn internal(error: model::CommandError) -> (r: ConnectAction)
    ensures
        r matches ConnectAction::Fail(f) && f.error == error && f.exit_code == 1,
{
    ConnectAction::Fail(Failure { error, exit_code: 1 })
}

fn after_token(name: Option<String>, token: &Option<Result<String, String>>, args: &[String]) -> (r:
    ConnectAction)
    requires
        text::opt_text(name) == args::value_of(text::texts(args@), "--name"@),
    ensures
        follows_token(text::texts(args@), *token, r),
{
    match token {
        None => ConnectAction::ReadToken,
        Some(Err(why)) => ConnectAction::Fail(
            Failure::new("connect", "stdin_read_failed", why.clone(), 1),
        ),
        Some(Ok(read)) => {
            let token = text::trim(read);
            if token.as_str().is_empty() {
                return ConnectAction::Fail(requests::empty_token_failure());
            }
            ConnectAction::ConnectToken(ConnectOptions { connection_id: name, token })
        },
    }
}

fn after_browser(
    request: requests::ConnectRequest,
    source: BrokeredSource,
    config: OAuthBrokerCliConfig,
    progress: &ConnectProgress,
    args: &[String],
) -> (r: ConnectAction)
    requires
        oauth::redirect_parts(config.redirect_uri@) is Some,
        text::opt_text(request.name) == args::value_of(text::texts(args@), "--name"@),
        request.no_browser == text::texts(args@).contains("--no-browser"@),
    ensures
        follows_broker(
            text::texts(args@),
            source,
            config.broker_url@,
            config.redirect_uri@,
            *progress,
            r,
        ),
{
    let start = match &progress.started {
        None => {
            return ConnectAction::StartBroker(config);
        },
        Some(Err(why)) => {
            return internal(oauth::broker_start_error(source, why));
        },
        Some(Ok(start)) => start,
    };
    let granted = match &progress.authorized {
        None => {
            return ConnectAction::Authorize(
                BrowserAuthorization {
                    source,
                    url: start.authorization_url.clone(),
                    redirect_uri: start.redirect_uri.clone(),
                    state: start.state.clone(),
                    no_browser: request.no_browser,
                },
            );
        },
        Some(Err(cause)) => {
            return match source {
                BrokeredSource::Notion => internal(
                    oauth::local_oauth_command_error(own_copy(cause)),
                ),
                BrokeredSource::GoogleDocs => internal(
                    oauth::google_docs_local_oauth_command_error(own_copy(cause)),
                ),
            };
        },
        Some(Ok(granted)) => granted,
    };
    match source {
        BrokeredSource::Notion => ConnectAction::ConnectNotionCode(
            BrokerOAuthConnectOptions {
                connection_id: request.name,
                broker_url: config.broker_url,
                client_id: start.client_id.clone(),
                session: start.session.clone(),
                state: start.state.clone(),
                code: granted.code.clone(),
                redirect_uri: start.redirect_uri.clone(),
            },
        ),
        BrokeredSource::GoogleDocs => ConnectAction::ConnectGoogleDocsCode(
            GoogleDocsBrokerOAuthConnectOptions {
                connection_id: request.name,
                broker_url: config.broker_url,
                client_id: start.client_id.clone(),
                session: start.session.clone(),
                state: start.state.clone(),
                code: granted.code.clone(),
                redirect_uri: start.redirect_uri.clone(),
            },
        ),
    }
}

fn after_own_client(
    name: Option<String>,
    setting: &ConnectSetting,
    progress: &ConnectProgress,
    args: &[String],
) -> (r: ConnectAction)
    requires
        text::opt_text(name) == args::value_of(text::texts(args@), "--name"@),
    ensures
        follows_own_client(text::texts(args@), setting.notion, *progress, r),
{
    let config = match oauth::notion_oauth_config(args, &setting.notion) {
        Ok(config) => config,
        Err(error) => {
            return internal(error);
        },
    };
    match &progress.authorized {
        None => ConnectAction::AuthorizeDirectly(config),
        Some(Err(cause)) => internal(oauth::local_oauth_command_error(own_copy(cause))),
        Some(Ok(granted)) => ConnectAction::ConnectOwnCode(
            OAuthConnectOptions {
                connection_id: name,
                client_id: config.client_id,
                client_secret: config.client_secret,
                code: granted.code.clone(),
                redirect_uri: config.redirect_uri,
            },
        ),
    }
}

/// What is done next to make the connection that `args` ask for.
pub fn connect(args: &[String], setting: &ConnectSetting, progress: &ConnectProgress) -> (r:
    ConnectAction)
    ensures
        follows_connect(text::texts(args@), *setting, *progress, r),
{
    let request = match requests::connect_request(args) {
        Ok(request) => request,
        Err(failure) => {
            return ConnectAction::Fail(failure);
        },
    };
    match &progress.store {
        None => {
            return ConnectAction::OpenStore;
        },
        Some(Err(why)) => {
            return ConnectAction::Fail(
                Failure::new("connect", "store_open_failed", why.clone(), 1),
            );
        },
        Some(Ok(_)) => {},
    }
    match request.route {
        ConnectRoute::NotionToken => after_token(request.name, &progress.token, args),
        ConnectRoute::NotionBroker => match oauth::notion_oauth_broker_config(
            args,
            &setting.notion,
            &setting.notion_broker_url,
        ) {
            Ok(config) => after_browser(request, BrokeredSource::Notion, config, progress, args),
            Err(error) => internal(error),
        },
        ConnectRoute::GoogleDocs => match oauth::google_docs_oauth_broker_config(
            args,
            &setting.google_docs,
            &setting.google_docs_broker_url,
            &setting.google_docs_redirect_uri,
        ) {
            Ok(config) => after_browser(
                request,
                BrokeredSource::GoogleDocs,
                config,
                progress,
                args,
            ),
            Err(error) => internal(error),
        },
        ConnectRoute::NotionDirect => after_own_client(request.name, setting, progress, args),
    }
}

/// Nothing is asked for twice, and nothing but the store before the store is
/// open: what an action asks for is not known yet, and what it builds on is.
pub proof fn law_connect_goes_forward(
    all: Seq<Seq<char>>,
    setting: ConnectSetting,
    p: ConnectProgress,
    r: ConnectAction,
)
    requires
        follows_connect(all, setting, p, r),
    ensures
        r is OpenStore ==> p.store is None,
        !(r is OpenStore || r is Fail) ==> p.store matches Some(Ok(_)),
        r is ReadToken ==> p.token is None,
        r is ConnectToken ==> p.token matches Some(Ok(_)),
        r is StartBroker ==> p.started is None,
        r is Authorize ==> p.authorized is None,
        r is Authorize || r is ConnectNotionCode || r is ConnectGoogleDocsCode
            ==> p.started matches Some(Ok(_)),
        r is ConnectNotionCode || r is ConnectGoogleDocsCode
            ==> p.authorized matches Some(Ok(_)),
        r is AuthorizeDirectly ==> p.authorized is None,
        r is ConnectOwnCode ==> p.authorized matches Some(Ok(_)),
{
}

/// A token is read only where it was asked for, and a source is connected only
/// where the arguments name it.
pub proof fn law_connect_keeps_to_its_route(
    all: Seq<Seq<char>>,
    setting: ConnectSetting,
    p: ConnectProgress,
    r: ConnectAction,
)
    requires
        follows_connect(all, setting, p, r),
    ensures
        r is ReadToken || r is ConnectToken ==> requests::connect_route(all) == Some(
            ConnectRoute::NotionToken,
        ),
        r is ConnectNotionCode ==> requests::connect_route(all) == Some(
            ConnectRoute::NotionBroker,
        ),
        r is ConnectGoogleDocsCode ==> requests::connect_route(all) == Some(
            ConnectRoute::GoogleDocs,
        ),
        r is AuthorizeDirectly || r is ConnectOwnCode ==> requests::connect_route(all) == Some(
            ConnectRoute::NotionDirect,
        ),
{
}

} // verus!
