use loc_cli::connect::{
    connection_id_for, connection_to_revoke, credential_not_kept, gmail_exchange,
    google_docs_exchange, notion_capabilities_json, notion_exchange, notion_probe_result,
    run_connect_gmail_broker_oauth, run_connect_google_docs_broker_oauth, run_connect_notion,
    run_connect_notion_broker_oauth,
    run_connect_notion_oauth, run_connection_show, run_connections, run_disconnect, run_profiles,
    BrokerExchange, BrokerOAuthConnectOptions, BrokerTokenOwner, ConnectError, ConnectKind,
    ConnectOptions, ConnectionRecord, ConnectorProfileRecord, CredentialError,
    ExchangedCredential, GmailBrokerOAuthConnectOptions, GoogleDocsBrokerOAuthConnectOptions,
    NotionConnectionProbe, NotionConnectionProbeResult, NotionTokenOwner,
};
use loc_cli::json::{Json, JsonField};
use loc_cli::model::{StoreError, StoreErrorKind};
use loc_cli::mounting::{
    resolve_mount_connection, validate_connection_profile, ProfiledConnection, SourceDescriptor,
};

fn some(value: &str) -> Option<String> {
    Some(value.to_string())
}

fn disk() -> StoreError {
    StoreError {
        kind: StoreErrorKind::Io,
        message: "disk".to_string(),
    }
}

fn record(id: &str, connector: &str, status: &str) -> ConnectionRecord {
    ConnectionRecord {
        connection_id: id.to_string(),
        profile_id: some("profile-1"),
        connector: connector.to_string(),
        display_name: "Notion".to_string(),
        account_label: None,
        workspace_id: None,
        workspace_name: None,
        auth_kind: "token".to_string(),
        secret_ref: format!("connection:{id}"),
        scopes: Vec::new(),
        capabilities_json: "{}".to_string(),
        status: status.to_string(),
        created_at: "unix:1".to_string(),
        updated_at: "unix:1".to_string(),
        expires_at: None,
    }
}

fn profile(connector: &str, status: &str) -> ConnectorProfileRecord {
    ConnectorProfileRecord {
        profile_id: "profile-1".to_string(),
        connector: connector.to_string(),
        display_name: "Profile".to_string(),
        auth_kind: "token".to_string(),
        scopes: Vec::new(),
        capabilities_json: "{}".to_string(),
        enabled_actions_json: "[]".to_string(),
        connector_version: "1".to_string(),
        status: status.to_string(),
        created_at: "unix:1".to_string(),
        updated_at: "unix:1".to_string(),
    }
}

struct Answering(Result<NotionConnectionProbeResult, ConnectError>);

impl NotionConnectionProbe for Answering {
    fn probe(&self, token: &str) -> Result<NotionConnectionProbeResult, ConnectError> {
        assert_eq!(token, "ntn_1");
        match &self.0 {
            Ok(found) => Ok(NotionConnectionProbeResult {
                account_label: found.account_label.clone(),
                workspace_id: found.workspace_id.clone(),
                workspace_name: found.workspace_name.clone(),
            }),
            Err(_) => Err(ConnectError::ConnectionProbeFailed("401".to_string())),
        }
    }
}

fn token(connection_id: Option<String>) -> ConnectOptions {
    ConnectOptions {
        connection_id,
        token: "ntn_1".to_string(),
    }
}

#[test]
fn notion_token_is_kept_apart_from_its_connection() {
    let probe = Answering(Ok(NotionConnectionProbeResult {
        account_label: some("Ada"),
        workspace_id: some("w1"),
        workspace_name: some("Team"),
    }));
    let plan = run_connect_notion(
        &Ok(Vec::new()),
        token(None),
        &probe,
        "unix:5",
    )
    .expect("connect");
    assert_eq!(plan.secret, "ntn_1");
    assert_eq!(plan.profile.profile_id, "notion-token-default");
    assert_eq!(plan.profile.created_at, "unix:5");
    let (connection, report) = plan.connection.expect("connection");
    assert_eq!(plan.secret_ref, format!("connection:{}", connection.connection_id));
    assert_eq!(connection.account_label, some("Ada"));
    assert_eq!(connection.workspace_name, some("Team"));
    assert_eq!(connection.status, "active");
    assert!(!format!("{connection:?}").contains("ntn_1"));
    assert_eq!(report.workspace_id, some("w1"));
    assert_eq!(connection.connection_id, "notion-main");
    assert_eq!(report.connection_id, connection.connection_id);
    assert_eq!(connection.capabilities_json, notion_capabilities_json());
    assert_eq!(plan.profile.capabilities_json, notion_capabilities_json());

    let refused = Answering(Err(ConnectError::ConnectionProbeFailed(String::new())));
    assert!(matches!(
        run_connect_notion(
            &Ok(Vec::new()),
            token(None),
            &refused,
            "unix:5"
        ),
        Err(ConnectError::ConnectionProbeFailed(_))
    ));
    assert!(matches!(
        run_connect_notion(&Err(disk()), token(None), &probe, "unix:5"),
        Err(ConnectError::Store(_))
    ));
}

#[test]
fn notion_tells_what_its_connector_can_do() {
    assert_eq!(
        notion_capabilities_json(),
        concat_flags(&[
            ("supports_block_updates", true),
            ("supports_entity_body_updates", false),
            ("supports_databases", true),
            ("supports_oauth", true),
            ("supports_remote_observation", true),
            ("supports_lazy_child_enumeration", true),
            ("supports_media_download", true),
            ("supports_undo", true),
            ("supports_batch_observation", false),
        ])
    );
}

fn concat_flags(flags: &[(&str, bool)]) -> String {
    let written: Vec<String> =
        flags.iter().map(|(name, set)| format!("\"{name}\":{set}")).collect();
    format!("{{{}}}", written.join(","))
}

#[test]
fn a_second_connection_has_to_be_named() {
    let taken = Ok(vec![record("notion-main", "notion", "active")]);
    assert!(matches!(
        connection_id_for(ConnectKind::NotionToken, None, &taken),
        Err(ConnectError::ConnectionNameRequired(_))
    ));
    assert_eq!(
        connection_id_for(ConnectKind::NotionToken, some("work"), &taken).expect("id"),
        "work"
    );
    assert_eq!(
        connection_id_for(ConnectKind::GmailOAuth, None, &taken).expect("id"),
        ConnectKind::GmailOAuth.default_connection()
    );
    let revoked = Ok(vec![record("notion-main", "notion", "revoked")]);
    assert_eq!(
        connection_id_for(ConnectKind::NotionToken, None, &revoked).expect("id"),
        "notion-main"
    );
    assert_eq!(
        connection_id_for(ConnectKind::NotionOAuth, None, &revoked).expect("id"),
        "notion-main"
    );
    assert_eq!(ConnectKind::GoogleDocsOAuth.default_connection(), "google-docs-default");
}

fn exchanged() -> ExchangedCredential {
    ExchangedCredential {
        secret: Ok("{\"access_token\":\"a\"}".to_string()),
        expires_at: Some(99),
    }
}

#[test]
fn oauth_connections_follow_the_exchange() {
    let owner = || NotionTokenOwner {
        workspace_id: some("w1"),
        workspace_name: some("Team"),
        bot_id: some("bot"),
    };
    let plan = run_connect_notion_oauth(
        "work".to_string(),
        Ok((owner(), exchanged())),
        "unix:5",
    )
    .expect("connect");
    assert_eq!(plan.profile.profile_id, "notion-oauth-default");
    let (connection, _) = plan.connection.expect("connection");
    assert_eq!(connection.workspace_name, some("Team"));
    assert_eq!(connection.connection_id, "work");
    let brokered = run_connect_notion_broker_oauth(
        "work".to_string(),
        Ok((owner(), exchanged())),
        "unix:5",
    )
    .expect("connect");
    assert_eq!(brokered.profile.auth_kind, plan.profile.auth_kind);
    assert!(matches!(
        run_connect_notion_oauth("work".to_string(), Err("400".to_string()), "unix:5"),
        Err(error) if error.message() == "Notion OAuth exchange failed: 400"
    ));
    let unencoded = ExchangedCredential {
        secret: Err("bad".to_string()),
        expires_at: None,
    };
    assert!(matches!(
        run_connect_notion_oauth(
            "work".to_string(),
            Ok((owner(), unencoded)),
            "unix:5"
        ),
        Err(ConnectError::CredentialEncode(_))
    ));
}

fn broker(scope_failure: Option<String>) -> BrokerExchange {
    BrokerExchange {
        owner: BrokerTokenOwner {
            account_label: None,
            account_id: some("account-1"),
            workspace_id: None,
            workspace_name: None,
            scopes: vec!["docs".to_string()],
        },
        scope_failure,
        credential: exchanged(),
    }
}

#[test]
fn brokered_connections_need_their_scopes() {
    let plan = run_connect_google_docs_broker_oauth(
        "docs".to_string(),
        Ok(broker(None)),
        vec!["docs".to_string(), "drive".to_string()],
        Ok("{}".to_string()),
        "unix:5",
    )
    .expect("connect");
    assert_eq!(plan.profile.connector, "google-docs");
    assert_eq!(plan.profile.scopes.len(), 2);
    let (connection, _) = plan.connection.expect("connection");
    assert_eq!(connection.scopes, vec!["docs".to_string()]);
    assert!(matches!(
        run_connect_google_docs_broker_oauth(
            "docs".to_string(),
            Ok(broker(some("missing drive"))),
            Vec::new(),
            Ok("{}".to_string()),
            "unix:5"
        ),
        Err(ConnectError::OAuthExchangeFailed(_))
    ));
    let mail = run_connect_gmail_broker_oauth(
        "mail".to_string(),
        Ok(broker(None)),
        Vec::new(),
        Ok("{}".to_string()),
        "unix:5",
    )
    .expect("connect");
    assert_eq!(mail.profile.connector, "gmail");
    assert!(matches!(
        run_connect_gmail_broker_oauth(
            "mail".to_string(),
            Err("400".to_string()),
            Vec::new(),
            Ok("{}".to_string()),
            "unix:5"
        ),
        Err(error) if error.message() == "Gmail OAuth exchange failed: 400"
    ));
    assert!(matches!(
        credential_not_kept(
            ConnectKind::GmailOAuth,
            CredentialError {
                code: "credential_store_unavailable",
                message: "locked".to_string()
            }
        ),
        ConnectError::Credential(_)
    ));
}

#[test]
fn codes_are_exchanged_as_they_came() {
    let notion = notion_exchange(&BrokerOAuthConnectOptions {
        connection_id: None,
        broker_url: "b".to_string(),
        client_id: "c".to_string(),
        session: "s".to_string(),
        state: "t".to_string(),
        code: "k".to_string(),
        redirect_uri: "r".to_string(),
    });
    assert_eq!(notion.connector, "notion");
    assert_eq!(
        (notion.session, notion.state, notion.code, notion.redirect_uri),
        ("s".to_string(), "t".to_string(), "k".to_string(), "r".to_string())
    );
    let docs = google_docs_exchange(&GoogleDocsBrokerOAuthConnectOptions {
        connection_id: None,
        broker_url: "b".to_string(),
        client_id: "c".to_string(),
        session: "s".to_string(),
        state: "t".to_string(),
        code: "k".to_string(),
        redirect_uri: "r".to_string(),
    });
    assert_eq!(docs.connector, "google-docs");
    let mail = gmail_exchange(&GmailBrokerOAuthConnectOptions {
        connection_id: None,
        broker_url: "b".to_string(),
        client_id: "c".to_string(),
        session: "s".to_string(),
        state: "t".to_string(),
        code: "k".to_string(),
        redirect_uri: "r".to_string(),
    });
    assert_eq!(mail.connector, "gmail");
}

#[test]
fn listings_are_ordered_by_identifier() {
    let report = run_connections(Ok(vec![
        record("work", "notion", "active"),
        record("home", "gmail", "revoked"),
    ]))
    .expect("list");
    let ids: Vec<&str> = report
        .connections
        .iter()
        .map(|c| c.connection_id.as_str())
        .collect();
    assert_eq!(ids, vec!["home", "work"]);
    assert!(run_connections(Err(disk())).is_err());
    assert_eq!(
        run_profiles(Ok(vec![profile("notion", "active")]))
            .expect("list")
            .profiles
            .len(),
        1
    );
    assert_eq!(
        run_connection_show(Ok(Some(record("work", "notion", "active"))), "work".to_string())
            .expect("show")
            .connection
            .connector,
        "notion"
    );
    assert_eq!(
        run_connection_show(Ok(None), "work".to_string()),
        Err(ConnectError::ConnectionMissing("work".to_string()))
    );
}

#[test]
fn disconnecting_revokes_the_connection() {
    let found = connection_to_revoke(Ok(Some(record("work", "notion", "active"))), "work")
        .expect("found");
    let (saved, report) =
        run_disconnect(found, "work".to_string(), Ok(()), "unix:9").expect("revoked");
    assert_eq!(saved.status, "revoked");
    assert_eq!(saved.updated_at, "unix:9");
    assert_eq!(saved.created_at, "unix:1");
    assert_eq!(report.status, "revoked");
    assert!(run_disconnect(
        record("work", "notion", "active"),
        "work".to_string(),
        Err(CredentialError {
            code: "credential_store_unavailable",
            message: "locked".to_string()
        }),
        "unix:9"
    )
    .is_err());
    assert!(connection_to_revoke(Ok(None), "work").is_err());
}

#[test]
fn users_are_labelled_by_what_they_tell() {
    let field = |key: &str, value: Json| JsonField {
        key: key.to_string(),
        value,
    };
    let words = |value: &str| Json::Text(value.to_string());
    let named = Json::Object(vec![
        field("name", words("Ada")),
        field(
            "bot",
            Json::Object(vec![field("workspace_name", words("Team"))]),
        ),
    ]);
    let found = notion_probe_result(&named);
    assert_eq!(found.account_label, some("Ada"));
    assert_eq!(found.workspace_name, some("Team"));
    let mailed = Json::Object(vec![field(
        "person",
        Json::Object(vec![field("email", words("ada@example.test"))]),
    )]);
    assert_eq!(
        notion_probe_result(&mailed).account_label,
        some("ada@example.test")
    );
    assert_eq!(notion_probe_result(&Json::Null).account_label, None);
}

fn descriptor() -> SourceDescriptor {
    SourceDescriptor {
        id: "notion".to_string(),
        display_name: "Notion".to_string(),
        default_mount_id: "notion-main".to_string(),
        connect_command: some("loc connect notion"),
    }
}

fn known(id: &str, status: &str) -> ProfiledConnection {
    ProfiledConnection {
        connection: record(id, "notion", status),
        profile: Ok(Some(profile("notion", "active"))),
    }
}

#[test]
fn a_mount_uses_the_connection_that_is_named_or_alone() {
    let resolve = |requested: Option<&str>, found, all, token| {
        resolve_mount_connection(requested, found, all, &descriptor(), token)
    };
    assert_eq!(
        resolve(Some("work"), Ok(Some(known("work", "active"))), Ok(Vec::new()), false)
            .expect("named"),
        some("work")
    );
    assert!(resolve(Some("work"), Ok(None), Ok(Vec::new()), false).is_err());
    assert!(resolve(
        Some("work"),
        Ok(Some(known("work", "revoked"))),
        Ok(Vec::new()),
        false
    )
    .is_err());
    assert_eq!(
        resolve(None, Ok(None), Ok(vec![known("work", "active")]), false).expect("alone"),
        some("work")
    );
    assert_eq!(
        resolve(None, Ok(None), Ok(Vec::new()), true).expect("token"),
        None
    );
    let none = resolve(None, Ok(None), Ok(Vec::new()), false).expect_err("nothing to use");
    assert_eq!(none.suggested_command, some("loc connect notion"));
    assert!(resolve(
        None,
        Ok(None),
        Ok(vec![known("home", "active"), known("work", "active")]),
        false
    )
    .is_err());
    let wrong = validate_connection_profile(
        &record("work", "notion", "active"),
        &Ok(Some(profile("gmail", "active"))),
        &descriptor(),
    )
    .expect_err("of another source");
    assert_eq!(wrong.code, "auth_profile_unavailable");
    assert_eq!(
        wrong.message,
        "connector profile `profile-1` does not match connection `work`"
    );
}
