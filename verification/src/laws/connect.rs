//! What connecting an account leaves behind.
use crate::args;
use crate::connect;
use crate::connect::{
    AccountLabels, BrokerExchange, ConnectError, ConnectKind, ConnectPlan, ConnectionRecord,
    ConnectionSummary, ConnectorProfileRecord, ConnectorProfileSummary, ExchangedCredential, Grant,
    IdChoice, NotionConnectionProbeResult, NotionTokenOwner, OAuthExchangeConnector,
    OAuthExchangeFailure,
};
use crate::connect_flow;
use crate::connect_flow::{ConnectAction, ConnectProgress, ConnectSetting};
use crate::json::Json;
use crate::model::StoreError;
use crate::oauth;
use crate::text;
use vstd::prelude::*;

verus! {

/// Whether a connection of a source is in use.
pub open spec fn is_in_use(connections: Seq<ConnectionRecord>, connector: Seq<char>) -> bool {
    exists|i: int|
        0 <= i < connections.len() && (#[trigger] connections[i]).connector@ == connector
            && connections[i].status@ == "active"@
}

/// A new connection has the name that was asked for. Without one it gets that of its source, but
/// never while another connection of the source is in use.
pub proof fn law_unnamed_connections_never_replace_one_in_use(
    kind: ConnectKind,
    asked: Option<Seq<char>>,
    connections: Result<Vec<ConnectionRecord>, StoreError>,
)
    ensures
        asked matches Some(name) ==> connect::id_choice(kind, asked, connections)
            == IdChoice::Id(name),
        asked is None && connections is Ok ==> {
            let in_use = is_in_use(connections->Ok_0@, kind.connector_text());
            &&& connect::id_choice(kind, asked, connections) is NameRequired <==> in_use
            &&& connect::id_choice(kind, asked, connections) is Id <==> !in_use
        },
        asked is None ==> (connect::id_choice(kind, asked, connections) is Unknown
            <==> connections is Err),
{
    if let Ok(list) = connections {
        let connector = kind.connector_text();
        if connect::some_active(list@, connector) {
            let i = choose|i: int|
                0 <= i < list@.len() && connect::is_active_of(#[trigger] list@[i], connector);
            assert(list@[i].connector@ == connector);
        }
        if is_in_use(list@, connector) {
            let i = choose|i: int|
                0 <= i < list@.len() && (#[trigger] list@[i]).connector@ == connector
                    && list@[i].status@ == "active"@;
            assert(connect::is_active_of(list@[i], connector));
        }
    }
}

/// The record of a connection, its profile and the report on it are of one source, under one name
/// and with what was granted; the record points to the profile and to the secret.
pub proof fn law_connections_keep_what_was_granted(
    plan: ConnectPlan,
    kind: ConnectKind,
    connection_id: Seq<char>,
    secret: Seq<char>,
    grant: Grant,
    now: Seq<char>,
)
    requires
        connect::is_connect_plan(plan, kind, connection_id, secret, grant, now),
    ensures
        plan.secret@ == secret,
        plan.secret_ref@ == "connection:"@ + connection_id,
        plan.profile.status@ == "active"@,
        plan.profile.created_at@ == now && plan.profile.updated_at@ == now,
        text::texts(plan.profile.scopes@) == text::texts(grant.profile_scopes@),
        plan.connection is Ok <==> grant.capabilities is Ok,
        plan.connection matches Ok(made) ==> {
            let record = made.0;
            let report = made.1;
            &&& record.connection_id@ == connection_id
            &&& record.display_name@ == connection_id
            &&& record.profile_id matches Some(id) && id@ == plan.profile.profile_id@
            &&& record.connector@ == plan.profile.connector@
            &&& record.auth_kind@ == plan.profile.auth_kind@
            &&& record.secret_ref@ == plan.secret_ref@
            &&& record.account_label == grant.labels.account_label
            &&& record.workspace_id == grant.labels.workspace_id
            &&& record.workspace_name == grant.labels.workspace_name
            &&& text::texts(record.scopes@) == text::texts(grant.scopes@)
            &&& record.capabilities_json@ == grant.capabilities->Ok_0@
            &&& plan.profile.capabilities_json@ == record.capabilities_json@
            &&& record.status@ == "active"@
            &&& record.created_at@ == now && record.updated_at@ == now
            &&& grant.expires_at is None ==> record.expires_at is None
            &&& grant.expires_at matches Some(at) ==> text::opt_text(record.expires_at) == Some(
                text::decimal(at as nat),
            )
            &&& report.ok
            &&& report.connection_id@ == connection_id
            &&& report.profile_id@ == plan.profile.profile_id@
            &&& report.connector@ == record.connector@
            &&& report.display_name@ == record.display_name@
            &&& report.account_label == record.account_label
            &&& report.workspace_id == record.workspace_id
            &&& report.workspace_name == record.workspace_name
            &&& report.auth_kind@ == record.auth_kind@
        },
{
}

/// The names of a kind of connection belong together: what it is called begins with its source, its
/// profile names its source and how it signs in, and its version is that of the source.
pub proof fn law_kinds_name_their_source(kind: ConnectKind)
    ensures
        ({
            let c = kind.connector_text();
            let a = kind.auth_kind_text();
            &&& c == (match kind {
                ConnectKind::NotionToken | ConnectKind::NotionOAuth => "notion"@,
                ConnectKind::GoogleDocsOAuth => "google-docs"@,
                ConnectKind::GmailOAuth => "gmail"@,
                ConnectKind::GranolaApiKey => "granola"@,
            })
            &&& a == (match kind {
                ConnectKind::NotionToken => "token"@,
                ConnectKind::GranolaApiKey => "api_key"@,
                _ => "oauth"@,
            })
            &&& kind.version_text() == c + ".v1"@
            &&& kind.profile_id_text() == c + "-"@ + (if a == "api_key"@ {
                "api-key"@
            } else {
                a
            }) + "-default"@
            &&& kind.default_connection_text() == (if c == "notion"@ {
                "notion-main"@
            } else {
                c + "-default"@
            })
        }),
{
    reveal_strlit("notion");
    reveal_strlit("google-docs");
    reveal_strlit("gmail");
    reveal_strlit("granola");
    reveal_strlit("token");
    reveal_strlit("oauth");
    reveal_strlit("api_key");
    reveal_strlit("api-key");
    reveal_strlit(".v1");
    reveal_strlit("-");
    reveal_strlit("-default");
    reveal_strlit("notion-main");
    reveal_strlit("notion.v1");
    reveal_strlit("google-docs.v1");
    reveal_strlit("gmail.v1");
    reveal_strlit("granola.v1");
    reveal_strlit("notion-token-default");
    reveal_strlit("notion-oauth-default");
    reveal_strlit("google-docs-oauth-default");
    reveal_strlit("gmail-oauth-default");
    reveal_strlit("granola-api-key-default");
    reveal_strlit("google-docs-default");
    reveal_strlit("gmail-default");
    reveal_strlit("granola-default");
    let c = kind.connector_text();
    let a = kind.auth_kind_text();
    assert("notion"@.len() == 6);
    assert("google-docs"@.len() == 11);
    assert("gmail"@.len() == 5);
    assert("granola"@.len() == 7);
    assert("api_key"@.len() == 7);
    assert("token"@.len() == 5);
    assert("oauth"@.len() == 5);
    assert(kind.version_text() =~= c + ".v1"@);
    assert(kind.profile_id_text() =~= c + "-"@ + (if a == "api_key"@ {
        "api-key"@
    } else {
        a
    }) + "-default"@);
    if c != "notion"@ {
        assert(kind.default_connection_text() =~= c + "-default"@);
    }
}

/// Only a connection that can write is enabled to: Granola is read, mail is read and sent, and the
/// others are read and written.
pub proof fn law_kinds_enable_what_they_can_do(kind: ConnectKind)
    ensures
        kind is GranolaApiKey ==> kind.enabled_actions_text() == "[\"read\"]"@,
        kind is GmailOAuth ==> kind.enabled_actions_text() == "[\"read\",\"send\"]"@,
        kind is NotionToken || kind is NotionOAuth || kind is GoogleDocsOAuth
            ==> kind.enabled_actions_text() == "[\"read\",\"write\"]"@,
{
}

/// A summary of a connection is the record of it, without the secret and what the connector can
/// do.
pub proof fn law_connections_are_summed_up_as_they_are(record: ConnectionRecord)
    ensures
        ({
            let s = ConnectionSummary::of(record);
            &&& s.connection_id == record.connection_id
            &&& s.profile_id == record.profile_id
            &&& s.connector == record.connector
            &&& s.display_name == record.display_name
            &&& s.account_label == record.account_label
            &&& s.workspace_id == record.workspace_id
            &&& s.workspace_name == record.workspace_name
            &&& s.auth_kind == record.auth_kind
            &&& s.status == record.status
            &&& s.created_at == record.created_at
            &&& s.updated_at == record.updated_at
            &&& s.expires_at == record.expires_at
        }),
{
}

/// A summary of a profile is the record of it.
pub proof fn law_profiles_are_summed_up_as_they_are(record: ConnectorProfileRecord)
    ensures
        ({
            let s = ConnectorProfileSummary::of(record);
            &&& s.profile_id == record.profile_id
            &&& s.connector == record.connector
            &&& s.display_name == record.display_name
            &&& s.auth_kind == record.auth_kind
            &&& s.scopes == record.scopes
            &&& s.capabilities_json == record.capabilities_json
            &&& s.enabled_actions_json == record.enabled_actions_json
            &&& s.connector_version == record.connector_version
            &&& s.status == record.status
            &&& s.created_at == record.created_at
            &&& s.updated_at == record.updated_at
        }),
{
}

/// Signing in through a broker connects exactly where the code was exchanged, the scopes do and the
/// secret could be written; the secret is kept as it came, and the account is called by the first
/// of its names that is known.
pub proof fn law_brokered_sign_ins_are_kept_as_they_came(
    outcome: Result<ConnectPlan, ConnectError>,
    kind: ConnectKind,
    failed: OAuthExchangeConnector,
    exchanged: Result<BrokerExchange, String>,
    connection_id: Seq<char>,
    profile_scopes: Seq<Seq<char>>,
    capabilities: Result<String, String>,
    now: Seq<char>,
)
    requires
        connect::follows_broker(
            outcome,
            kind,
            failed,
            exchanged,
            connection_id,
            profile_scopes,
            capabilities,
            now,
        ),
    ensures
        outcome is Ok <==> (exchanged matches Ok(got) && got.scope_failure is None
            && got.credential.secret is Ok),
        exchanged matches Err(why) ==> (outcome matches Err(ConnectError::OAuthExchangeFailed(f))
            && f.connector == failed && f.message@ == why@),
        outcome matches Ok(plan) ==> {
            let got = exchanged->Ok_0;
            &&& plan.secret@ == got.credential.secret->Ok_0@
            &&& text::texts(plan.profile.scopes@) == profile_scopes
            &&& plan.connection matches Ok(made) ==> {
                &&& text::texts(made.0.scopes@) == text::texts(got.owner.scopes@)
                &&& made.0.workspace_id == got.owner.workspace_id
                &&& made.0.workspace_name == got.owner.workspace_name
                &&& got.owner.account_label is Some ==> made.0.account_label
                    == got.owner.account_label
                &&& got.owner.account_label is None && got.owner.account_id is Some
                    ==> made.0.account_label == got.owner.account_id
                &&& got.owner.account_label is None && got.owner.account_id is None
                    ==> made.0.account_label == got.owner.workspace_name
                &&& got.credential.expires_at is None ==> made.0.expires_at is None
                &&& got.credential.expires_at matches Some(at) ==> text::opt_text(
                    made.0.expires_at,
                ) == Some(text::decimal(at as nat))
            }
        },
{
    if let Ok(plan) = outcome {
        let got = exchanged->Ok_0;
        let secret = got.credential.secret->Ok_0@;
        let grant = choose|grant: Grant|
            grant.labels == (AccountLabels {
                account_label: connect::first_of(
                    got.owner.account_label,
                    got.owner.account_id,
                    got.owner.workspace_name,
                ),
                workspace_id: got.owner.workspace_id,
                workspace_name: got.owner.workspace_name,
            }) && grant.scopes@ == got.owner.scopes@ && text::texts(grant.profile_scopes@)
                == profile_scopes && grant.capabilities == capabilities && grant.expires_at
                == got.credential.expires_at && #[trigger] connect::is_connect_plan(
                plan,
                kind,
                connection_id,
                secret,
                grant,
                now,
            );
        law_connections_keep_what_was_granted(plan, kind, connection_id, secret, grant, now);
    }
}

/// Signing in at Notion connects exactly where the code was exchanged and the secret could be
/// written; the workspace is called by the first of its names that is known.
pub proof fn law_notion_sign_ins_are_kept_as_they_came(
    connection_id: Seq<char>,
    exchanged: Result<(NotionTokenOwner, ExchangedCredential), String>,
    now: Seq<char>,
    r: Result<ConnectPlan, ConnectError>,
)
    requires
        connect::follows_notion_oauth(connection_id, exchanged, now, r),
    ensures
        r is Ok <==> (exchanged matches Ok(got) && got.1.secret is Ok),
        exchanged matches Err(why) ==> (r matches Err(ConnectError::OAuthExchangeFailed(f))
            && f.connector is Notion && f.message@ == why@),
        r matches Ok(plan) ==> {
            let owner = exchanged->Ok_0.0;
            let credential = exchanged->Ok_0.1;
            &&& plan.secret@ == credential.secret->Ok_0@
            &&& plan.profile.profile_id@ == "notion-oauth-default"@
            &&& plan.connection matches Ok(made) && {
                &&& made.0.workspace_id == owner.workspace_id
                &&& made.0.workspace_name == owner.workspace_name
                &&& made.0.account_label == (if owner.workspace_name is Some {
                    owner.workspace_name
                } else if owner.workspace_id is Some {
                    owner.workspace_id
                } else {
                    owner.bot_id
                })
                &&& credential.expires_at is None ==> made.0.expires_at is None
                &&& credential.expires_at matches Some(at) ==> text::opt_text(
                    made.0.expires_at,
                ) == Some(text::decimal(at as nat))
            }
        },
{
}

/// A token of Notion connects exactly where the probe of it went well, is kept as it is, and is
/// shown under what the probe found.
pub proof fn law_notion_tokens_are_kept_where_they_work(
    outcome: Result<ConnectPlan, ConnectError>,
    probed: Result<NotionConnectionProbeResult, ConnectError>,
    connection_id: Seq<char>,
    token: Seq<char>,
    now: Seq<char>,
)
    requires
        connect::follows_notion_probe(outcome, probed, connection_id, token, now),
    ensures
        outcome is Ok <==> probed is Ok,
        probed matches Err(e) ==> outcome == Err::<ConnectPlan, _>(e),
        outcome matches Ok(plan) ==> {
            &&& plan.secret@ == token
            &&& plan.profile.profile_id@ == "notion-token-default"@
            &&& plan.connection matches Ok(made) && {
                &&& made.0.account_label == probed->Ok_0.account_label
                &&& made.0.workspace_id == probed->Ok_0.workspace_id
                &&& made.0.workspace_name == probed->Ok_0.workspace_name
                &&& made.0.scopes@.len() == 0
                &&& made.0.expires_at is None
            }
        },
{
    if let Ok(plan) = outcome {
        let found = probed->Ok_0;
        let grant = choose|grant: Grant|
            grant.labels == (AccountLabels {
                account_label: found.account_label,
                workspace_id: found.workspace_id,
                workspace_name: found.workspace_name,
            }) && grant.scopes@.len() == 0 && grant.profile_scopes@.len() == 0
                && connect::tells_notion_capabilities(grant) && grant.expires_at is None
                && #[trigger] connect::is_connect_plan(
                plan,
                ConnectKind::NotionToken,
                connection_id,
                token,
                grant,
                now,
            );
        law_connections_keep_what_was_granted(
            plan,
            ConnectKind::NotionToken,
            connection_id,
            token,
            grant,
            now,
        );
        assert(text::texts(grant.scopes@).len() == 0);
        if let Ok(made) = plan.connection {
            assert(text::texts(made.0.scopes@).len() == made.0.scopes@.len());
        }
    }
}

/// A key of Granola connects exactly where the probe of it went well, is kept as it is, and may
/// read and no more.
pub proof fn law_granola_keys_may_read(
    outcome: Result<ConnectPlan, ConnectError>,
    probed: Result<(), ConnectError>,
    connection_id: Seq<char>,
    api_key: Seq<char>,
    capabilities: Result<String, String>,
    now: Seq<char>,
)
    requires
        connect::follows_granola_probe(
            outcome,
            probed,
            connection_id,
            api_key,
            capabilities,
            now,
        ),
    ensures
        outcome is Ok <==> probed is Ok,
        probed matches Err(e) ==> outcome == Err::<ConnectPlan, _>(e),
        outcome matches Ok(plan) ==> {
            &&& plan.secret@ == api_key
            &&& plan.profile.connector@ == "granola"@
            &&& plan.profile.enabled_actions_json@ == "[\"read\"]"@
            &&& text::texts(plan.profile.scopes@) == seq!["read"@]
            &&& plan.connection matches Ok(made) ==> text::texts(made.0.scopes@)
                == seq!["read"@] && made.0.expires_at is None
        },
{
}

/// A failed sign-in suggests signing in again at the source where it failed.
pub proof fn law_failed_sign_ins_suggest_their_source(failure: OAuthExchangeFailure)
    ensures
        ConnectError::OAuthExchangeFailed(failure).suggestion() == Some(
            "loc connect "@ + (match failure.connector {
                OAuthExchangeConnector::Notion => "notion"@,
                OAuthExchangeConnector::GoogleDocs => "google-docs"@,
                OAuthExchangeConnector::Gmail => "gmail"@,
            }),
        ),
        ConnectError::OAuthExchangeFailed(failure).message_text() == (match failure.connector {
            OAuthExchangeConnector::Notion => "Notion"@,
            OAuthExchangeConnector::GoogleDocs => "Google Docs"@,
            OAuthExchangeConnector::Gmail => "Gmail"@,
        }) + " OAuth exchange failed: "@ + failure.message@,
{
    reveal_strlit("loc connect ");
    reveal_strlit("notion");
    reveal_strlit("google-docs");
    reveal_strlit("gmail");
    reveal_strlit("loc connect notion");
    reveal_strlit("loc connect google-docs");
    reveal_strlit("loc connect gmail");
    assert("loc connect notion"@ =~= "loc connect "@ + "notion"@);
    assert("loc connect google-docs"@ =~= "loc connect "@ + "google-docs"@);
    assert("loc connect gmail"@ =~= "loc connect "@ + "gmail"@);
}

/// A code is exchanged in the session and under the state in which it was asked for, at the broker
/// and under the name that were given; the browser is sent to the address that the broker named.
pub proof fn law_codes_are_exchanged_where_they_were_asked_for(
    all: Seq<Seq<char>>,
    setting: ConnectSetting,
    p: ConnectProgress,
    r: ConnectAction,
)
    requires
        connect_flow::follows_connect(all, setting, p, r),
    ensures
        r matches ConnectAction::Authorize(a) ==> {
            let start = p.started->0->Ok_0;
            &&& a.url@ == start.authorization_url@
            &&& a.state@ == start.state@
            &&& a.redirect_uri@ == start.redirect_uri@
            &&& a.no_browser == all.contains("--no-browser"@)
        },
        r matches ConnectAction::ConnectNotionCode(o) ==> {
            let start = p.started->0->Ok_0;
            &&& o.code@ == p.authorized->0->Ok_0.code@
            &&& o.session@ == start.session@
            &&& o.state@ == start.state@
            &&& o.client_id@ == start.client_id@
            &&& o.redirect_uri@ == start.redirect_uri@
            &&& text::opt_text(o.connection_id) == args::value_of(all, "--name"@)
        },
        r matches ConnectAction::ConnectGoogleDocsCode(o) ==> {
            let start = p.started->0->Ok_0;
            &&& o.code@ == p.authorized->0->Ok_0.code@
            &&& o.session@ == start.session@
            &&& o.state@ == start.state@
            &&& o.client_id@ == start.client_id@
            &&& o.redirect_uri@ == start.redirect_uri@
            &&& text::opt_text(o.connection_id) == args::value_of(all, "--name"@)
        },
        r matches ConnectAction::ConnectOwnCode(o) ==> {
            &&& o.code@ == p.authorized->0->Ok_0.code@
            &&& Some(o.client_id@) == oauth::first_set(setting.notion.client_ids@)
            &&& Some(o.client_secret@) == oauth::first_set(setting.notion.client_secrets@)
            &&& text::opt_text(o.connection_id) == args::value_of(all, "--name"@)
        },
        r matches ConnectAction::ConnectToken(o) ==> {
            &&& o.token@ == text::trimmed(p.token->0->Ok_0@)
            &&& o.token@.len() > 0
            &&& text::opt_text(o.connection_id) == args::value_of(all, "--name"@)
        },
{
}

/// An account is called by its name, else by the address of its person, else by the workspace of
/// its bot.
pub proof fn law_accounts_are_called_by_their_names(user: Json)
    ensures
        ({
            let label = connect::user_label_text(user);
            let name = user.text_at("name"@);
            let email = match user.at("person"@) {
                Some(person) => person.text_at("email"@),
                None => None,
            };
            let workspace = match user.at("bot"@) {
                Some(bot) => bot.text_at("workspace_name"@),
                None => None,
            };
            &&& name is Some ==> label == name
            &&& name is None && email is Some ==> label == email
            &&& name is None && email is None ==> label == workspace
        }),
{
}

/// A second account needs a name, and what keeps the accounts from being read is told.
pub proof fn law_unnamed_accounts_are_refused(
    error: ConnectError,
    kind: ConnectKind,
    asked: Option<Seq<char>>,
    connections: Result<Vec<ConnectionRecord>, StoreError>,
)
    requires
        connect::is_unsettled(error, kind, connect::id_choice(kind, asked, connections)),
    ensures
        asked is None,
        connections matches Err(e) ==> error == ConnectError::Store(e),
        connections is Ok ==> (error matches ConnectError::ConnectionNameRequired(name) && name@
            == (match kind {
            ConnectKind::NotionToken => "Notion"@,
            ConnectKind::NotionOAuth => "Notion"@,
            ConnectKind::GoogleDocsOAuth => "Google Docs"@,
            ConnectKind::GmailOAuth => "Gmail"@,
            ConnectKind::GranolaApiKey => "Granola"@,
        })),
{
}

} // verus!
