//! Connections to sources: which identifier a new one gets, what is recorded of
//! it, and the reports of those there are.
use vstd::prelude::*;

use crate::json::Json;
use crate::model::StoreError;
use crate::sorting;
use crate::sorting::Keyed;
use crate::text;

verus! {

pub const DEFAULT_NOTION_PROFILE_ID: &'static str = "notion-token-default";

pub const DEFAULT_NOTION_OAUTH_PROFILE_ID: &'static str = "notion-oauth-default";

pub const DEFAULT_GOOGLE_DOCS_OAUTH_PROFILE_ID: &'static str = "google-docs-oauth-default";

pub const DEFAULT_GMAIL_OAUTH_PROFILE_ID: &'static str = "gmail-oauth-default";

pub const DEFAULT_GRANOLA_API_KEY_PROFILE_ID: &'static str = "granola-api-key-default";

/// A connection made with a token or an API key.
#[derive(Debug, PartialEq, Eq)]
pub struct ConnectOptions {
    pub connection_id: Option<String>,
    pub token: String,
}

/// A connection made with a client of one's own.
#[derive(Debug, PartialEq, Eq)]
pub struct OAuthConnectOptions {
    pub connection_id: Option<String>,
    pub client_id: String,
    pub client_secret: String,
    pub code: String,
    pub redirect_uri: String,
}

/// A connection to Notion made through a broker.
#[derive(Debug, PartialEq, Eq)]
pub struct BrokerOAuthConnectOptions {
    pub connection_id: Option<String>,
    pub broker_url: String,
    pub client_id: String,
    pub session: String,
    pub state: String,
    pub code: String,
    pub redirect_uri: String,
}

/// A connection to Google Docs made through a broker.
#[derive(Debug, PartialEq, Eq)]
pub struct GoogleDocsBrokerOAuthConnectOptions {
    pub connection_id: Option<String>,
    pub broker_url: String,
    pub client_id: String,
    pub session: String,
    pub state: String,
    pub code: String,
    pub redirect_uri: String,
}

/// A connection to Gmail made through a broker.
#[derive(Debug, PartialEq, Eq)]
pub struct GmailBrokerOAuthConnectOptions {
    pub connection_id: Option<String>,
    pub broker_url: String,
    pub client_id: String,
    pub session: String,
    pub state: String,
    pub code: String,
    pub redirect_uri: String,
}

/// A connection that has been made.
#[derive(Debug, PartialEq, Eq)]
pub struct ConnectReport {
    pub ok: bool,
    pub command: &'static str,
    pub connection_id: String,
    pub profile_id: String,
    pub connector: String,
    pub display_name: String,
    pub account_label: Option<String>,
    pub workspace_id: Option<String>,
    pub workspace_name: Option<String>,
    pub auth_kind: String,
}

/// The connections there are.
#[derive(Debug, PartialEq, Eq)]
pub struct ConnectionsReport {
    pub ok: bool,
    pub command: &'static str,
    pub connections: Vec<ConnectionSummary>,
}

/// The profiles there are.
#[derive(Debug, PartialEq, Eq)]
pub struct ProfilesReport {
    pub ok: bool,
    pub command: &'static str,
    pub profiles: Vec<ConnectorProfileSummary>,
}

/// One connection.
#[derive(Debug, PartialEq, Eq)]
pub struct ConnectionShowReport {
    pub ok: bool,
    pub command: &'static str,
    pub connection: ConnectionSummary,
}

/// A connection that has been given up.
#[derive(Debug, PartialEq, Eq)]
pub struct DisconnectReport {
    pub ok: bool,
    pub command: &'static str,
    pub connection_id: String,
    pub status: String,
}

/// What is shown of a connection.
#[derive(Debug, PartialEq, Eq)]
pub struct ConnectionSummary {
    pub connection_id: String,
    pub profile_id: Option<String>,
    pub connector: String,
    pub display_name: String,
    pub account_label: Option<String>,
    pub workspace_id: Option<String>,
    pub workspace_name: Option<String>,
    pub auth_kind: String,
    pub status: String,
    pub created_at: String,
    pub updated_at: String,
    pub expires_at: Option<String>,
}

/// What is shown of a profile.
#[derive(Debug, PartialEq, Eq)]
pub struct ConnectorProfileSummary {
    pub profile_id: String,
    pub connector: String,
    pub display_name: String,
    pub auth_kind: String,
    pub scopes: Vec<String>,
    pub capabilities_json: String,
    pub enabled_actions_json: String,
    pub connector_version: String,
    pub status: String,
    pub created_at: String,
    pub updated_at: String,
}

/// A connection as the store keeps it. The secret itself is not in it, only
/// where the credential store has it.
#[derive(Debug, PartialEq, Eq)]
pub struct ConnectionRecord {
    pub connection_id: String,
    pub profile_id: Option<String>,
    pub connector: String,
    pub display_name: String,
    pub account_label: Option<String>,
    pub workspace_id: Option<String>,
    pub workspace_name: Option<String>,
    pub auth_kind: String,
    pub secret_ref: String,
    pub scopes: Vec<String>,
    pub capabilities_json: String,
    pub status: String,
    pub created_at: String,
    pub updated_at: String,
    pub expires_at: Option<String>,
}

/// A profile as the store keeps it.
#[derive(Debug, PartialEq, Eq)]
pub struct ConnectorProfileRecord {
    pub profile_id: String,
    pub connector: String,
    pub display_name: String,
    pub auth_kind: String,
    pub scopes: Vec<String>,
    pub capabilities_json: String,
    pub enabled_actions_json: String,
    pub connector_version: String,
    pub status: String,
    pub created_at: String,
    pub updated_at: String,
}

/// What a Notion token turns out to belong to.
#[derive(Debug, PartialEq, Eq)]
pub struct NotionConnectionProbeResult {
    pub account_label: Option<String>,
    pub workspace_id: Option<String>,
    pub workspace_name: Option<String>,
}

/// Asks Notion whom a token belongs to.
pub trait NotionConnectionProbe {
    fn probe(&self, token: &str) -> Result<NotionConnectionProbeResult, ConnectError>;
}

/// Asks Granola whether an API key works.
pub trait GranolaConnectionProbe {
    fn probe(&self, api_key: &str) -> Result<(), ConnectError>;
}

/// The source whose authorisation failed.
#[derive(Clone, Copy, Debug, PartialEq, Eq, Structural)]
pub enum OAuthExchangeConnector {
    Notion,
    GoogleDocs,
    Gmail,
}

/// An authorisation that failed.
#[derive(Debug, PartialEq, Eq)]
pub struct OAuthExchangeFailure {
    pub connector: OAuthExchangeConnector,
    pub message: String,
}

impl OAuthExchangeFailure {
    /// A failed authorisation of Notion.
    pub fn notion(message: String) -> (r: Self)
        ensures
            r == (OAuthExchangeFailure { connector: OAuthExchangeConnector::Notion, message }),
    {
        OAuthExchangeFailure { connector: OAuthExchangeConnector::Notion, message }
    }

    /// A failed authorisation of Google Docs.
    pub fn google_docs(message: String) -> (r: Self)
        ensures
            r == (OAuthExchangeFailure { connector: OAuthExchangeConnector::GoogleDocs, message }),
    {
        OAuthExchangeFailure { connector: OAuthExchangeConnector::GoogleDocs, message }
    }

    /// A failed authorisation of Gmail.
    pub fn gmail(message: String) -> (r: Self)
        ensures
            r == (OAuthExchangeFailure { connector: OAuthExchangeConnector::Gmail, message }),
    {
        OAuthExchangeFailure { connector: OAuthExchangeConnector::Gmail, message }
    }

    /// What the source is called.
    pub open spec fn name(self) -> Seq<char> {
        match self.connector {
            OAuthExchangeConnector::Notion => "Notion"@,
            OAuthExchangeConnector::GoogleDocs => "Google Docs"@,
            OAuthExchangeConnector::Gmail => "Gmail"@,
        }
    }

    /// The command that connects the source.
    pub open spec fn command(self) -> Seq<char> {
        match self.connector {
            OAuthExchangeConnector::Notion => "loc connect notion"@,
            OAuthExchangeConnector::GoogleDocs => "loc connect google-docs"@,
            OAuthExchangeConnector::Gmail => "loc connect gmail"@,
        }
    }

    fn connector_display_name(&self) -> (r: &'static str)
        ensures
            r@ == self.name(),
    {
        match self.connector {
            OAuthExchangeConnector::Notion => "Notion",
            OAuthExchangeConnector::GoogleDocs => "Google Docs",
            OAuthExchangeConnector::Gmail => "Gmail",
        }
    }

    fn suggested_command(&self) -> (r: &'static str)
        ensures
            r@ == self.command(),
    {
        match self.connector {
            OAuthExchangeConnector::Notion => "loc connect notion",
            OAuthExchangeConnector::GoogleDocs => "loc connect google-docs",
            OAuthExchangeConnector::Gmail => "loc connect gmail",
        }
    }
}

/// The source whose credential could not be kept.
#[derive(Clone, Copy, Debug, PartialEq, Eq, Structural)]
pub enum CredentialFailureConnector {
    Notion,
    GoogleDocs,
    Gmail,
    Granola,
}

impl CredentialFailureConnector {
    /// The source with this identifier; Notion for any other.
    pub open spec fn of(connector: Seq<char>) -> CredentialFailureConnector {
        if connector == "google-docs"@ {
            CredentialFailureConnector::GoogleDocs
        } else if connector == "gmail"@ {
            CredentialFailureConnector::Gmail
        } else if connector == "granola"@ {
            CredentialFailureConnector::Granola
        } else {
            CredentialFailureConnector::Notion
        }
    }

    /// The source with this identifier; Notion for any other.
    pub fn from_connector_id(connector: &str) -> (r: Self)
        ensures
            r == CredentialFailureConnector::of(connector@),
    {
        if text::same_text(connector, "google-docs") {
            CredentialFailureConnector::GoogleDocs
        } else if text::same_text(connector, "gmail") {
            CredentialFailureConnector::Gmail
        } else if text::same_text(connector, "granola") {
            CredentialFailureConnector::Granola
        } else {
            CredentialFailureConnector::Notion
        }
    }

    /// What the source is called.
    pub open spec fn name(self) -> Seq<char> {
        match self {
            CredentialFailureConnector::Notion => "Notion"@,
            CredentialFailureConnector::GoogleDocs => "Google Docs"@,
            CredentialFailureConnector::Gmail => "Gmail"@,
            CredentialFailureConnector::Granola => "Granola"@,
        }
    }

    /// The command that connects the source.
    pub open spec fn command(self) -> Seq<char> {
        match self {
            CredentialFailureConnector::Notion => "loc connect notion"@,
            CredentialFailureConnector::GoogleDocs => "loc connect google-docs"@,
            CredentialFailureConnector::Gmail => "loc connect gmail"@,
            CredentialFailureConnector::Granola => "loc connect granola --api-key-stdin"@,
        }
    }

    fn display_name(self) -> (r: &'static str)
        ensures
            r@ == self.name(),
    {
        match self {
            CredentialFailureConnector::Notion => "Notion",
            CredentialFailureConnector::GoogleDocs => "Google Docs",
            CredentialFailureConnector::Gmail => "Gmail",
            CredentialFailureConnector::Granola => "Granola",
        }
    }

    fn suggested_command(self) -> (r: &'static str)
        ensures
            r@ == self.command(),
    {
        match self {
            CredentialFailureConnector::Notion => "loc connect notion",
            CredentialFailureConnector::GoogleDocs => "loc connect google-docs",
            CredentialFailureConnector::Gmail => "loc connect gmail",
            CredentialFailureConnector::Granola => "loc connect granola --api-key-stdin",
        }
    }
}

/// A credential that could not be written down.
#[derive(Debug, PartialEq, Eq)]
pub struct CredentialEncodeFailure {
    pub connector: CredentialFailureConnector,
    pub message: String,
}

impl CredentialEncodeFailure {
    /// A credential of Notion that could not be written down.
    pub fn notion(message: String) -> (r: Self)
        ensures
            r == (CredentialEncodeFailure {
                connector: CredentialFailureConnector::Notion,
                message,
            }),
    {
        CredentialEncodeFailure { connector: CredentialFailureConnector::Notion, message }
    }

    /// A credential of Google Docs that could not be written down.
    pub fn google_docs(message: String) -> (r: Self)
        ensures
            r == (CredentialEncodeFailure {
                connector: CredentialFailureConnector::GoogleDocs,
                message,
            }),
    {
        CredentialEncodeFailure { connector: CredentialFailureConnector::GoogleDocs, message }
    }

    /// A credential of Gmail that could not be written down.
    pub fn gmail(message: String) -> (r: Self)
        ensures
            r == (CredentialEncodeFailure { connector: CredentialFailureConnector::Gmail, message }),
    {
        CredentialEncodeFailure { connector: CredentialFailureConnector::Gmail, message }
    }

    /// A credential of Granola that could not be written down.
    pub fn granola(message: String) -> (r: Self)
        ensures
            r == (CredentialEncodeFailure {
                connector: CredentialFailureConnector::Granola,
                message,
            }),
    {
        CredentialEncodeFailure { connector: CredentialFailureConnector::Granola, message }
    }

    /// What the failure is, in words.
    pub open spec fn message_text(self) -> Seq<char> {
        "failed to encode "@ + self.connector.name() + " credential: "@ + self.message@
    }

    fn message(&self) -> (r: String)
        ensures
            r@ == self.message_text(),
    {
        let mut out = text::concat3(
            "failed to encode ",
            self.connector.display_name(),
            " credential: ",
        );
        out.append(&self.message);
        out
    }
}

/// A failure of the credential store, with its own code and words.
#[derive(Debug, PartialEq, Eq)]
pub struct CredentialError {
    pub code: &'static str,
    pub message: String,
}

/// A credential that could not be kept or deleted.
#[derive(Debug, PartialEq, Eq)]
pub struct CredentialStorageFailure {
    pub connector: CredentialFailureConnector,
    pub error: CredentialError,
}

impl CredentialStorageFailure {
    /// The failure for a source with this identifier.
    pub fn for_connector_id(connector: &str, error: CredentialError) -> (r: Self)
        ensures
            r == (CredentialStorageFailure {
                connector: CredentialFailureConnector::of(connector@),
                error,
            }),
    {
        CredentialStorageFailure {
            connector: CredentialFailureConnector::from_connector_id(connector),
            error,
        }
    }

    /// What the failure is, in words.
    pub open spec fn message_text(self) -> Seq<char> {
        match self.connector {
            CredentialFailureConnector::Notion => self.error.message@,
            _ => "failed to store "@ + self.connector.name() + " credential: "@
                + self.error.message@,
        }
    }

    fn message(&self) -> (r: String)
        ensures
            r@ == self.message_text(),
    {
        match self.connector {
            CredentialFailureConnector::Notion => self.error.message.clone(),
            _ => {
                let mut out = text::concat3(
                    "failed to store ",
                    self.connector.display_name(),
                    " credential: ",
                );
                out.append(&self.error.message);
                out
            },
        }
    }
}

/// Why a connection could not be made, shown or given up.
#[derive(Debug, PartialEq, Eq)]
pub enum ConnectError {
    ConnectionMissing(String),
    ConnectionNameRequired(String),
    ConnectionProbeFailed(String),
    OAuthExchangeFailed(OAuthExchangeFailure),
    CredentialEncode(CredentialEncodeFailure),
    Credential(CredentialStorageFailure),
    Store(StoreError),
}

impl ConnectError {
    /// The code that names the failure.
    pub open spec fn code_text(self) -> Seq<char> {
        match self {
            ConnectError::ConnectionMissing(_) => "missing_connection"@,
            ConnectError::ConnectionNameRequired(_) => "usage"@,
            ConnectError::ConnectionProbeFailed(_) => "connection_probe_failed"@,
            ConnectError::OAuthExchangeFailed(_) => "oauth_exchange_failed"@,
            ConnectError::CredentialEncode(_) => "credential_store_unavailable"@,
            ConnectError::Credential(failure) => failure.error.code@,
            ConnectError::Store(_) => "store_error"@,
        }
    }

    /// The code that names the failure.
    pub fn code(&self) -> (r: &'static str)
        ensures
            r@ == self.code_text(),
    {
        match self {
            ConnectError::ConnectionMissing(_) => "missing_connection",
            ConnectError::ConnectionNameRequired(_) => "usage",
            ConnectError::ConnectionProbeFailed(_) => "connection_probe_failed",
            ConnectError::OAuthExchangeFailed(_) => "oauth_exchange_failed",
            ConnectError::CredentialEncode(_) => "credential_store_unavailable",
            ConnectError::Credential(failure) => failure.error.code,
            ConnectError::Store(_) => "store_error",
        }
    }

    /// What the failure is, in words.
    pub open spec fn message_text(self) -> Seq<char> {
        match self {
            ConnectError::ConnectionMissing(id) => "connection `"@ + id@ + "` was not found"@,
            ConnectError::ConnectionNameRequired(connector) => "multiple "@ + connector@
                + " connections exist; pass --name <id>"@,
            ConnectError::ConnectionProbeFailed(message) => "Notion connection probe failed: "@
                + message@,
            ConnectError::OAuthExchangeFailed(failure) => failure.name()
                + " OAuth exchange failed: "@ + failure.message@,
            ConnectError::CredentialEncode(failure) => failure.message_text(),
            ConnectError::Credential(failure) => failure.message_text(),
            ConnectError::Store(error) => error.message@,
        }
    }

    /// What the failure is, in words.
    pub fn message(&self) -> (r: String)
        ensures
            r@ == self.message_text(),
    {
        match self {
            ConnectError::ConnectionMissing(id) => text::concat3(
                "connection `",
                id,
                "` was not found",
            ),
            ConnectError::ConnectionNameRequired(connector) => text::concat3(
                "multiple ",
                connector,
                " connections exist; pass --name <id>",
            ),
            ConnectError::ConnectionProbeFailed(message) => {
                let mut out = "Notion connection probe failed: ".to_string();
                out.append(message);
                out
            },
            ConnectError::OAuthExchangeFailed(failure) => text::concat3(
                failure.connector_display_name(),
                " OAuth exchange failed: ",
                &failure.message,
            ),
            ConnectError::CredentialEncode(failure) => failure.message(),
            ConnectError::Credential(failure) => failure.message(),
            ConnectError::Store(error) => error.message.clone(),
        }
    }

    /// The command that may help.
    pub open spec fn suggestion(self) -> Option<Seq<char>> {
        match self {
            ConnectError::ConnectionMissing(_) => Some("loc connect notion"@),
            ConnectError::ConnectionProbeFailed(_) => Some("loc connect notion"@),
            ConnectError::OAuthExchangeFailed(failure) => Some(failure.command()),
            ConnectError::Credential(failure) => Some(failure.connector.command()),
            ConnectError::CredentialEncode(failure) => Some(failure.connector.command()),
            _ => None,
        }
    }

    /// The command that may help.
    pub fn suggested_command(&self) -> (r: Option<&'static str>)
        ensures
            text::opt_str(r) == self.suggestion(),
    {
        match self {
            ConnectError::ConnectionMissing(_) => Some("loc connect notion"),
            ConnectError::ConnectionProbeFailed(_) => Some("loc connect notion"),
            ConnectError::OAuthExchangeFailed(failure) => Some(failure.suggested_command()),
            ConnectError::Credential(failure) => Some(failure.connector.suggested_command()),
            ConnectError::CredentialEncode(failure) => Some(failure.connector.suggested_command()),
            _ => None,
        }
    }
}

/// The ways to connect a source.
#[derive(Clone, Copy, Debug, PartialEq, Eq, Structural)]
pub enum ConnectKind {
    NotionToken,
    NotionOAuth,
    GoogleDocsOAuth,
    GmailOAuth,
    GranolaApiKey,
}

impl ConnectKind {
    /// The connector.
    pub open spec fn connector_text(self) -> Seq<char> {
        match self {
            ConnectKind::NotionToken => "notion"@,
            ConnectKind::NotionOAuth => "notion"@,
            ConnectKind::GoogleDocsOAuth => "google-docs"@,
            ConnectKind::GmailOAuth => "gmail"@,
            ConnectKind::GranolaApiKey => "granola"@,
        }
    }

    /// The connector.
    pub fn connector(self) -> (r: &'static str)
        ensures
            r@ == self.connector_text(),
    {
        match self {
            ConnectKind::NotionToken => "notion",
            ConnectKind::NotionOAuth => "notion",
            ConnectKind::GoogleDocsOAuth => "google-docs",
            ConnectKind::GmailOAuth => "gmail",
            ConnectKind::GranolaApiKey => "granola",
        }
    }

    /// What the connector is called.
    pub open spec fn connector_name_text(self) -> Seq<char> {
        match self {
            ConnectKind::NotionToken => "Notion"@,
            ConnectKind::NotionOAuth => "Notion"@,
            ConnectKind::GoogleDocsOAuth => "Google Docs"@,
            ConnectKind::GmailOAuth => "Gmail"@,
            ConnectKind::GranolaApiKey => "Granola"@,
        }
    }

    /// What the connector is called.
    pub fn connector_name(self) -> (r: &'static str)
        ensures
            r@ == self.connector_name_text(),
    {
        match self {
            ConnectKind::NotionToken => "Notion",
            ConnectKind::NotionOAuth => "Notion",
            ConnectKind::GoogleDocsOAuth => "Google Docs",
            ConnectKind::GmailOAuth => "Gmail",
            ConnectKind::GranolaApiKey => "Granola",
        }
    }

    /// The profile that the connection is made under.
    pub open spec fn profile_id_text(self) -> Seq<char> {
        match self {
            ConnectKind::NotionToken => "notion-token-default"@,
            ConnectKind::NotionOAuth => "notion-oauth-default"@,
            ConnectKind::GoogleDocsOAuth => "google-docs-oauth-default"@,
            ConnectKind::GmailOAuth => "gmail-oauth-default"@,
            ConnectKind::GranolaApiKey => "granola-api-key-default"@,
        }
    }

    /// The profile that the connection is made under.
    pub fn profile_id(self) -> (r: &'static str)
        ensures
            r@ == self.profile_id_text(),
    {
        match self {
            ConnectKind::NotionToken => "notion-token-default",
            ConnectKind::NotionOAuth => "notion-oauth-default",
            ConnectKind::GoogleDocsOAuth => "google-docs-oauth-default",
            ConnectKind::GmailOAuth => "gmail-oauth-default",
            ConnectKind::GranolaApiKey => "granola-api-key-default",
        }
    }

    /// What the profile is called.
    pub open spec fn profile_name_text(self) -> Seq<char> {
        match self {
            ConnectKind::NotionToken => "Notion token auth"@,
            ConnectKind::NotionOAuth => "Notion OAuth"@,
            ConnectKind::GoogleDocsOAuth => "Google Docs OAuth"@,
            ConnectKind::GmailOAuth => "Gmail OAuth"@,
            ConnectKind::GranolaApiKey => "Granola API key"@,
        }
    }

    /// What the profile is called.
    pub fn profile_name(self) -> (r: &'static str)
        ensures
            r@ == self.profile_name_text(),
    {
        match self {
            ConnectKind::NotionToken => "Notion token auth",
            ConnectKind::NotionOAuth => "Notion OAuth",
            ConnectKind::GoogleDocsOAuth => "Google Docs OAuth",
            ConnectKind::GmailOAuth => "Gmail OAuth",
            ConnectKind::GranolaApiKey => "Granola API key",
        }
    }

    /// How the connection is authorised.
    pub open spec fn auth_kind_text(self) -> Seq<char> {
        match self {
            ConnectKind::NotionToken => "token"@,
            ConnectKind::NotionOAuth => "oauth"@,
            ConnectKind::GoogleDocsOAuth => "oauth"@,
            ConnectKind::GmailOAuth => "oauth"@,
            ConnectKind::GranolaApiKey => "api_key"@,
        }
    }

    /// How the connection is authorised.
    pub fn auth_kind(self) -> (r: &'static str)
        ensures
            r@ == self.auth_kind_text(),
    {
        match self {
            ConnectKind::NotionToken => "token",
            ConnectKind::NotionOAuth => "oauth",
            ConnectKind::GoogleDocsOAuth => "oauth",
            ConnectKind::GmailOAuth => "oauth",
            ConnectKind::GranolaApiKey => "api_key",
        }
    }

    /// What the profile may do, in JSON.
    pub open spec fn enabled_actions_text(self) -> Seq<char> {
        match self {
            ConnectKind::NotionToken => "[\"read\",\"write\"]"@,
            ConnectKind::NotionOAuth => "[\"read\",\"write\"]"@,
            ConnectKind::GoogleDocsOAuth => "[\"read\",\"write\"]"@,
            ConnectKind::GmailOAuth => "[\"read\",\"send\"]"@,
            ConnectKind::GranolaApiKey => "[\"read\"]"@,
        }
    }

    /// What the profile may do, in JSON.
    pub fn enabled_actions(self) -> (r: &'static str)
        ensures
            r@ == self.enabled_actions_text(),
    {
        match self {
            ConnectKind::NotionToken => "[\"read\",\"write\"]",
            ConnectKind::NotionOAuth => "[\"read\",\"write\"]",
            ConnectKind::GoogleDocsOAuth => "[\"read\",\"write\"]",
            ConnectKind::GmailOAuth => "[\"read\",\"send\"]",
            ConnectKind::GranolaApiKey => "[\"read\"]",
        }
    }

    /// The version of the connector.
    pub open spec fn version_text(self) -> Seq<char> {
        match self {
            ConnectKind::NotionToken => "notion.v1"@,
            ConnectKind::NotionOAuth => "notion.v1"@,
            ConnectKind::GoogleDocsOAuth => "google-docs.v1"@,
            ConnectKind::GmailOAuth => "gmail.v1"@,
            ConnectKind::GranolaApiKey => "granola.v1"@,
        }
    }

    /// The version of the connector.
    pub fn version(self) -> (r: &'static str)
        ensures
            r@ == self.version_text(),
    {
        match self {
            ConnectKind::NotionToken => "notion.v1",
            ConnectKind::NotionOAuth => "notion.v1",
            ConnectKind::GoogleDocsOAuth => "google-docs.v1",
            ConnectKind::GmailOAuth => "gmail.v1",
            ConnectKind::GranolaApiKey => "granola.v1",
        }
    }

    /// The identifier of a first connection.
    pub open spec fn default_connection_text(self) -> Seq<char> {
        match self {
            ConnectKind::NotionToken => "notion-main"@,
            ConnectKind::NotionOAuth => "notion-main"@,
            ConnectKind::GoogleDocsOAuth => "google-docs-default"@,
            ConnectKind::GmailOAuth => "gmail-default"@,
            ConnectKind::GranolaApiKey => "granola-default"@,
        }
    }

    /// The identifier of a first connection.
    pub fn default_connection(self) -> (r: &'static str)
        ensures
            r@ == self.default_connection_text(),
    {
        match self {
            ConnectKind::NotionToken => "notion-main",
            ConnectKind::NotionOAuth => "notion-main",
            ConnectKind::GoogleDocsOAuth => "google-docs-default",
            ConnectKind::GmailOAuth => "gmail-default",
            ConnectKind::GranolaApiKey => "granola-default",
        }
    }


}

/// Whether a connection of a source is in use.
pub open spec fn is_active_of(connection: ConnectionRecord, connector: Seq<char>) -> bool {
    connection.connector@ == connector && connection.status@ == "active"@
}

/// Whether some connection of a source is in use.
pub open spec fn some_active(connections: Seq<ConnectionRecord>, connector: Seq<char>) -> bool {
    exists|i: int|
        0 <= i < connections.len() && is_active_of(#[trigger] connections[i], connector)
}

/// What settles the identifier of a new connection.
pub enum IdChoice {
    Id(Seq<char>),
    NameRequired,
    Unknown(StoreError),
}

/// The identifier of a new connection: the one asked for, else the default one
/// where no connection of the source is in use.
pub open spec fn id_choice(
    kind: ConnectKind,
    asked: Option<Seq<char>>,
    connections: Result<Vec<ConnectionRecord>, StoreError>,
) -> IdChoice {
    match asked {
        Some(id) => IdChoice::Id(id),
        None => match connections {
            Err(e) => IdChoice::Unknown(e),
            Ok(list) => if some_active(list@, kind.connector_text()) {
                IdChoice::NameRequired
            } else {
                IdChoice::Id(kind.default_connection_text())
            },
        },
    }
}

/// Whether an error says why the identifier is not settled.
pub open spec fn is_unsettled(error: ConnectError, kind: ConnectKind, choice: IdChoice) -> bool {
    match choice {
        IdChoice::Id(_) => false,
        IdChoice::NameRequired => error matches ConnectError::ConnectionNameRequired(name)
            && name@ == kind.connector_name_text(),
        IdChoice::Unknown(e) => error == ConnectError::Store(e),
    }
}

/// The identifier of a new connection: the one asked for, else the default one
/// where no connection of the source is in use.
pub fn connection_id_for(
    kind: ConnectKind,
    asked: Option<String>,
    connections: &Result<Vec<ConnectionRecord>, StoreError>,
) -> (r: Result<String, ConnectError>)
    ensures
        match id_choice(kind, text::opt_text(asked), *connections) {
            IdChoice::Id(id) => r matches Ok(s) && s@ == id,
            choice => r matches Err(e) && is_unsettled(e, kind, choice),
        },
{
    if let Some(id) = asked {
        return Ok(id);
    }
    let list = match connections {
        Ok(list) => list,
        Err(e) => {
            return Err(
                ConnectError::Store(StoreError { kind: e.kind, message: e.message.clone() }),
            );
        },
    };
    let mut i: usize = 0;
    while i < list.len()
        invariant
            i <= list.len(),
            asked is None,
            *connections == Ok::<Vec<ConnectionRecord>, StoreError>(*list),
            forall|k: int| 0 <= k < i ==> !is_active_of(#[trigger] list[k], kind.connector_text()),
        decreases list.len() - i,
    {
        if text::same_text(&list[i].connector, kind.connector()) && text::same_text(
            &list[i].status,
            "active",
        ) {
            assert(is_active_of(list@[i as int], kind.connector_text()));
            assert(some_active(list@, kind.connector_text()));
            return Err(ConnectError::ConnectionNameRequired(kind.connector_name().to_string()));
        }
        i += 1;
    }
    assert(!some_active(list@, kind.connector_text()));
    Ok(kind.default_connection().to_string())
}

/// Whose account a connection is of.
#[derive(Debug, PartialEq, Eq)]
pub struct AccountLabels {
    pub account_label: Option<String>,
    pub workspace_id: Option<String>,
    pub workspace_name: Option<String>,
}

/// What is done to make a connection, in this order: the secret is kept under
/// its reference, the profile is saved, and the connection is saved and
/// reported, where its capabilities could be written down.
#[derive(Debug, PartialEq, Eq)]
pub struct ConnectPlan {
    pub secret_ref: String,
    pub secret: String,
    pub profile: ConnectorProfileRecord,
    pub connection: Result<(ConnectionRecord, ConnectReport), ConnectError>,
}

/// Whether a profile is that of a way to connect.
pub open spec fn is_profile(
    profile: ConnectorProfileRecord,
    kind: ConnectKind,
    scopes: Seq<Seq<char>>,
    capabilities: Result<String, String>,
    now: Seq<char>,
) -> bool {
    &&& profile.profile_id@ == kind.profile_id_text()
    &&& profile.connector@ == kind.connector_text()
    &&& profile.display_name@ == kind.profile_name_text()
    &&& profile.auth_kind@ == kind.auth_kind_text()
    &&& text::texts(profile.scopes@) == scopes
    &&& profile.capabilities_json@ == (match capabilities {
        Ok(json) => json@,
        Err(_) => "{}"@,
    })
    &&& profile.enabled_actions_json@ == kind.enabled_actions_text()
    &&& profile.connector_version@ == kind.version_text()
    &&& profile.status@ == "active"@
    &&& profile.created_at@ == now
    &&& profile.updated_at@ == now
}

/// Whether a record is of a new connection. Nothing of the secret is in it.
pub open spec fn is_connection(
    record: ConnectionRecord,
    kind: ConnectKind,
    connection_id: Seq<char>,
    labels: AccountLabels,
    scopes: Seq<Seq<char>>,
    capabilities_json: Seq<char>,
    expires_at: Option<u64>,
    now: Seq<char>,
) -> bool {
    &&& record.connection_id@ == connection_id
    &&& text::opt_text(record.profile_id) == Some(kind.profile_id_text())
    &&& record.connector@ == kind.connector_text()
    &&& record.display_name@ == connection_id
    &&& record.account_label == labels.account_label
    &&& record.workspace_id == labels.workspace_id
    &&& record.workspace_name == labels.workspace_name
    &&& record.auth_kind@ == kind.auth_kind_text()
    &&& record.secret_ref@ == "connection:"@ + connection_id
    &&& text::texts(record.scopes@) == scopes
    &&& record.capabilities_json@ == capabilities_json
    &&& record.status@ == "active"@
    &&& record.created_at@ == now
    &&& record.updated_at@ == now
    &&& text::opt_text(record.expires_at) == (match expires_at {
        Some(at) => Some(text::decimal(at as nat)),
        None => None,
    })
}

/// Whether a report is of a new connection.
pub open spec fn is_connect_report(
    report: ConnectReport,
    kind: ConnectKind,
    connection_id: Seq<char>,
    labels: AccountLabels,
) -> bool {
    &&& report.ok
    &&& report.command@ == "connect"@
    &&& report.connection_id@ == connection_id
    &&& report.profile_id@ == kind.profile_id_text()
    &&& report.connector@ == kind.connector_text()
    &&& report.display_name@ == connection_id
    &&& report.account_label == labels.account_label
    &&& report.workspace_id == labels.workspace_id
    &&& report.workspace_name == labels.workspace_name
    &&& report.auth_kind@ == kind.auth_kind_text()
}

/// The failure to write down something of a source.
pub open spec fn encode_failure(kind: ConnectKind, message: String) -> ConnectError {
    ConnectError::CredentialEncode(
        CredentialEncodeFailure {
            connector: CredentialFailureConnector::of(kind.connector_text()),
            message,
        },
    )
}

/// What a source tells about an authorisation, beside the secret.
#[derive(Debug, PartialEq, Eq)]
pub struct Grant {
    pub labels: AccountLabels,
    /// What the connection may do.
    pub scopes: Vec<String>,
    /// What the profile may do.
    pub profile_scopes: Vec<String>,
    /// What the connector can do, in JSON, or why that could not be written.
    pub capabilities: Result<String, String>,
    /// When the authorisation ends, in seconds.
    pub expires_at: Option<u64>,
}

/// Whether a plan makes a connection. Only the secret to keep depends on the
/// secret.
pub open spec fn is_connect_plan(
    plan: ConnectPlan,
    kind: ConnectKind,
    connection_id: Seq<char>,
    secret: Seq<char>,
    grant: Grant,
    now: Seq<char>,
) -> bool {
    &&& plan.secret_ref@ == "connection:"@ + connection_id
    &&& plan.secret@ == secret
    &&& is_profile(
        plan.profile,
        kind,
        text::texts(grant.profile_scopes@),
        grant.capabilities,
        now,
    )
    &&& match grant.capabilities {
        Ok(json) => plan.connection matches Ok(made) && is_connection(
            made.0,
            kind,
            connection_id,
            grant.labels,
            text::texts(grant.scopes@),
            json@,
            grant.expires_at,
            now,
        ) && is_connect_report(made.1, kind, connection_id, grant.labels),
        Err(why) => plan.connection == Err::<(ConnectionRecord, ConnectReport), _>(
            encode_failure(kind, why),
        ),
    }
}

fn duplicate_labels(labels: &AccountLabels) -> (r: AccountLabels)
    ensures
        r == *labels,
{
    AccountLabels {
        account_label: text::clone_option(&labels.account_label),
        workspace_id: text::clone_option(&labels.workspace_id),
        workspace_name: text::clone_option(&labels.workspace_name),
    }
}

/// What is done to make a connection.
pub fn connect_plan(
    kind: ConnectKind,
    connection_id: String,
    secret: String,
    grant: Grant,
    now: &str,
) -> (r: ConnectPlan)
    ensures
        is_connect_plan(r, kind, connection_id@, secret@, grant, now@),
{
    let mut secret_ref = "connection:".to_string();
    secret_ref.append(&connection_id);
    let profile = ConnectorProfileRecord {
        profile_id: kind.profile_id().to_string(),
        connector: kind.connector().to_string(),
        display_name: kind.profile_name().to_string(),
        auth_kind: kind.auth_kind().to_string(),
        scopes: grant.profile_scopes,
        capabilities_json: match &grant.capabilities {
            Ok(json) => json.clone(),
            Err(_) => "{}".to_string(),
        },
        enabled_actions_json: kind.enabled_actions().to_string(),
        connector_version: kind.version().to_string(),
        status: "active".to_string(),
        created_at: now.to_string(),
        updated_at: now.to_string(),
    };
    let connection = match grant.capabilities {
        Err(message) => Err(
            ConnectError::CredentialEncode(
                CredentialEncodeFailure {
                    connector: CredentialFailureConnector::from_connector_id(kind.connector()),
                    message,
                },
            ),
        ),
        Ok(capabilities_json) => {
            let labels = duplicate_labels(&grant.labels);
            let report = ConnectReport {
                ok: true,
                command: "connect",
                connection_id: connection_id.clone(),
                profile_id: kind.profile_id().to_string(),
                connector: kind.connector().to_string(),
                display_name: connection_id.clone(),
                account_label: labels.account_label,
                workspace_id: labels.workspace_id,
                workspace_name: labels.workspace_name,
                auth_kind: kind.auth_kind().to_string(),
            };
            let record = ConnectionRecord {
                display_name: connection_id.clone(),
                connection_id,
                profile_id: Some(kind.profile_id().to_string()),
                connector: kind.connector().to_string(),
                account_label: grant.labels.account_label,
                workspace_id: grant.labels.workspace_id,
                workspace_name: grant.labels.workspace_name,
                auth_kind: kind.auth_kind().to_string(),
                secret_ref: secret_ref.clone(),
                scopes: grant.scopes,
                capabilities_json,
                status: "active".to_string(),
                created_at: now.to_string(),
                updated_at: now.to_string(),
                expires_at: match grant.expires_at {
                    Some(at) => Some(text::decimal_text(at as u128)),
                    None => None,
                },
            };
            Ok((record, report))
        },
    };
    ConnectPlan { secret_ref, secret, profile, connection }
}

/// Whether two profiles hold the same in every field.
pub open spec fn same_profile(a: ConnectorProfileRecord, b: ConnectorProfileRecord) -> bool {
    &&& a.profile_id@ == b.profile_id@
    &&& a.connector@ == b.connector@
    &&& a.display_name@ == b.display_name@
    &&& a.auth_kind@ == b.auth_kind@
    &&& text::texts(a.scopes@) == text::texts(b.scopes@)
    &&& a.capabilities_json@ == b.capabilities_json@
    &&& a.enabled_actions_json@ == b.enabled_actions_json@
    &&& a.connector_version@ == b.connector_version@
    &&& a.status@ == b.status@
    &&& a.created_at@ == b.created_at@
    &&& a.updated_at@ == b.updated_at@
}

/// Whether two connections hold the same in every field.
pub open spec fn same_connection(a: ConnectionRecord, b: ConnectionRecord) -> bool {
    &&& a.connection_id@ == b.connection_id@
    &&& text::opt_text(a.profile_id) == text::opt_text(b.profile_id)
    &&& a.connector@ == b.connector@
    &&& a.display_name@ == b.display_name@
    &&& text::opt_text(a.account_label) == text::opt_text(b.account_label)
    &&& text::opt_text(a.workspace_id) == text::opt_text(b.workspace_id)
    &&& text::opt_text(a.workspace_name) == text::opt_text(b.workspace_name)
    &&& a.auth_kind@ == b.auth_kind@
    &&& a.secret_ref@ == b.secret_ref@
    &&& text::texts(a.scopes@) == text::texts(b.scopes@)
    &&& a.capabilities_json@ == b.capabilities_json@
    &&& a.status@ == b.status@
    &&& a.created_at@ == b.created_at@
    &&& a.updated_at@ == b.updated_at@
    &&& text::opt_text(a.expires_at) == text::opt_text(b.expires_at)
}

/// Whether two reports of a connection say the same in every field.
pub open spec fn same_connect_report(a: ConnectReport, b: ConnectReport) -> bool {
    &&& a.ok == b.ok
    &&& a.command@ == b.command@
    &&& a.connection_id@ == b.connection_id@
    &&& a.profile_id@ == b.profile_id@
    &&& a.connector@ == b.connector@
    &&& a.display_name@ == b.display_name@
    &&& text::opt_text(a.account_label) == text::opt_text(b.account_label)
    &&& text::opt_text(a.workspace_id) == text::opt_text(b.workspace_id)
    &&& text::opt_text(a.workspace_name) == text::opt_text(b.workspace_name)
    &&& a.auth_kind@ == b.auth_kind@
}

/// What is saved and reported of a connection does not depend on its secret:
/// two connections that differ in nothing else are kept under the same
/// reference, with the same profile, the same record and the same report, or
/// fail alike.
pub proof fn law_secret_stays_out_of_records(
    a: ConnectPlan,
    b: ConnectPlan,
    kind: ConnectKind,
    connection_id: Seq<char>,
    secret_a: Seq<char>,
    secret_b: Seq<char>,
    grant: Grant,
    now: Seq<char>,
)
    requires
        is_connect_plan(a, kind, connection_id, secret_a, grant, now),
        is_connect_plan(b, kind, connection_id, secret_b, grant, now),
    ensures
        a.secret_ref@ == b.secret_ref@,
        same_profile(a.profile, b.profile),
        match (a.connection, b.connection) {
            (Ok(x), Ok(y)) => same_connection(x.0, y.0) && same_connect_report(x.1, y.1),
            (Err(x), Err(y)) => x == y,
            _ => false,
        },
{
}

/// The failure to keep the secret of a connection.
pub fn credential_not_kept(kind: ConnectKind, error: CredentialError) -> (r: ConnectError)
    ensures
        r == ConnectError::Credential(
            CredentialStorageFailure {
                connector: CredentialFailureConnector::of(kind.connector_text()),
                error,
            },
        ),
{
    ConnectError::Credential(
        CredentialStorageFailure::for_connector_id(kind.connector(), error),
    )
}

/// What the Notion connector can do, in JSON.
pub open spec fn notion_capabilities_text() -> Seq<char> {
    "{\"supports_block_updates\":true,\"supports_entity_body_updates\":false,\"supports_databases\":true,\"supports_oauth\":true,\"supports_remote_observation\":true,\"supports_lazy_child_enumeration\":true,\"supports_media_download\":true,\"supports_undo\":true,\"supports_batch_observation\":false}"@
}

/// What the Notion connector can do, in JSON.
pub fn notion_capabilities_json() -> (r: String)
    ensures
        r@ == notion_capabilities_text(),
{
    "{\"supports_block_updates\":true,\"supports_entity_body_updates\":false,\"supports_databases\":true,\"supports_oauth\":true,\"supports_remote_observation\":true,\"supports_lazy_child_enumeration\":true,\"supports_media_download\":true,\"supports_undo\":true,\"supports_batch_observation\":false}".to_string()
}

/// Whether a grant tells what the Notion connector can do.
pub open spec fn tells_notion_capabilities(grant: Grant) -> bool {
    grant.capabilities matches Ok(json) && json@ == notion_capabilities_text()
}

/// Whether the outcome of connecting with a token follows what the probe said:
/// its failure, or the plan for whom the token belongs to.
pub open spec fn follows_notion_probe(
    outcome: Result<ConnectPlan, ConnectError>,
    probed: Result<NotionConnectionProbeResult, ConnectError>,
    connection_id: Seq<char>,
    token: Seq<char>,
    now: Seq<char>,
) -> bool {
    match probed {
        Err(e) => outcome == Err::<ConnectPlan, _>(e),
        Ok(found) => outcome matches Ok(plan) && exists|grant: Grant|
            grant.labels == (AccountLabels {
                account_label: found.account_label,
                workspace_id: found.workspace_id,
                workspace_name: found.workspace_name,
            }) && grant.scopes@.len() == 0 && grant.profile_scopes@.len() == 0
                && tells_notion_capabilities(grant) && grant.expires_at is None
                && #[trigger] is_connect_plan(
                plan,
                ConnectKind::NotionToken,
                connection_id,
                token,
                grant,
                now,
            ),
    }
}

/// What is done to connect Notion with a token, once the probe has said whom it
/// belongs to.
pub fn connect_notion_probed(
    connection_id: String,
    token: String,
    probed: Result<NotionConnectionProbeResult, ConnectError>,
    now: &str,
) -> (r: Result<ConnectPlan, ConnectError>)
    ensures
        follows_notion_probe(r, probed, connection_id@, token@, now@),
{
    match probed {
        Err(e) => Err(e),
        Ok(found) => {
            let grant = Grant {
                labels: AccountLabels {
                    account_label: found.account_label,
                    workspace_id: found.workspace_id,
                    workspace_name: found.workspace_name,
                },
                scopes: Vec::new(),
                profile_scopes: Vec::new(),
                capabilities: Ok(notion_capabilities_json()),
                expires_at: None,
            };
            let ghost told = grant;
            let ghost id = connection_id@;
            let ghost secret = token@;
            let plan = connect_plan(ConnectKind::NotionToken, connection_id, token, grant, now);
            assert(is_connect_plan(plan, ConnectKind::NotionToken, id, secret, told, now@));
            Ok(plan)
        },
    }
}

/// Connects Notion with a token: the identifier is settled first, then the
/// probe is asked about the token, and what it says is followed.
pub fn run_connect_notion<P: NotionConnectionProbe>(
    connections: &Result<Vec<ConnectionRecord>, StoreError>,
    options: ConnectOptions,
    probe: &P,
    now: &str,
) -> (r: Result<ConnectPlan, ConnectError>)
    ensures
        match id_choice(
            ConnectKind::NotionToken,
            text::opt_text(options.connection_id),
            *connections,
        ) {
            IdChoice::Id(id) => exists|key: &str, probed|
                key@ == options.token@ && call_ensures(P::probe, (probe, key), probed)
                    && #[trigger] follows_notion_probe(
                    r,
                    probed,
                    id,
                    key@,
                    now@,
                ),
            choice => r matches Err(e) && is_unsettled(e, ConnectKind::NotionToken, choice),
        },
{
    let connection_id = match connection_id_for(
        ConnectKind::NotionToken,
        options.connection_id,
        connections,
    ) {
        Ok(id) => id,
        Err(e) => {
            return Err(e);
        },
    };
    let ghost id = connection_id@;
    let token = options.token;
    let key = token.as_str();
    let probed = probe.probe(key);
    let ghost said = probed;
    let r = connect_notion_probed(connection_id, token.clone(), probed, now);
    assert(follows_notion_probe(r, said, id, key@, now@));
    r
}

/// Whether the outcome of connecting with an API key follows what the probe
/// said.
pub open spec fn follows_granola_probe(
    outcome: Result<ConnectPlan, ConnectError>,
    probed: Result<(), ConnectError>,
    connection_id: Seq<char>,
    api_key: Seq<char>,
    capabilities: Result<String, String>,
    now: Seq<char>,
) -> bool {
    match probed {
        Err(e) => outcome == Err::<ConnectPlan, _>(e),
        Ok(()) => outcome matches Ok(plan) && exists|grant: Grant|
            grant.labels == (AccountLabels {
                account_label: None,
                workspace_id: None,
                workspace_name: None,
            }) && text::texts(grant.scopes@) == seq!["read"@] && text::texts(
                grant.profile_scopes@,
            ) == seq!["read"@] && grant.capabilities == capabilities && grant.expires_at is None
                && #[trigger] is_connect_plan(
                plan,
                ConnectKind::GranolaApiKey,
                connection_id,
                api_key,
                grant,
                now,
            ),
    }
}

fn read_scope() -> (r: Vec<String>)
    ensures
        text::texts(r@) == seq!["read"@],
{
    let mut scopes: Vec<String> = Vec::new();
    text::push_text(&mut scopes, "read");
    assert(text::texts(scopes@) =~= seq!["read"@]);
    scopes
}

/// What is done to connect Granola with an API key, once the probe has tried
/// it.
pub fn connect_granola_probed(
    connection_id: String,
    api_key: String,
    probed: Result<(), ConnectError>,
    capabilities: Result<String, String>,
    now: &str,
) -> (r: Result<ConnectPlan, ConnectError>)
    ensures
        follows_granola_probe(r, probed, connection_id@, api_key@, capabilities, now@),
{
    if let Err(e) = probed {
        return Err(e);
    }
    let grant = Grant {
        labels: AccountLabels { account_label: None, workspace_id: None, workspace_name: None },
        scopes: read_scope(),
        profile_scopes: read_scope(),
        capabilities,
        expires_at: None,
    };
    let ghost told = grant;
    let ghost id = connection_id@;
    let ghost secret = api_key@;
    let plan = connect_plan(ConnectKind::GranolaApiKey, connection_id, api_key, grant, now);
    assert(is_connect_plan(plan, ConnectKind::GranolaApiKey, id, secret, told, now@));
    Ok(plan)
}

/// Connects Granola with an API key: the identifier is settled first, then the
/// probe tries the key, and what it says is followed.
pub fn run_connect_granola<P: GranolaConnectionProbe>(
    connections: &Result<Vec<ConnectionRecord>, StoreError>,
    options: ConnectOptions,
    probe: &P,
    capabilities: Result<String, String>,
    now: &str,
) -> (r: Result<ConnectPlan, ConnectError>)
    ensures
        match id_choice(
            ConnectKind::GranolaApiKey,
            text::opt_text(options.connection_id),
            *connections,
        ) {
            IdChoice::Id(id) => exists|key: &str, probed|
                key@ == options.token@ && call_ensures(P::probe, (probe, key), probed)
                    && #[trigger] follows_granola_probe(
                    r,
                    probed,
                    id,
                    key@,
                    capabilities,
                    now@,
                ),
            choice => r matches Err(e) && is_unsettled(e, ConnectKind::GranolaApiKey, choice),
        },
{
    let connection_id = match connection_id_for(
        ConnectKind::GranolaApiKey,
        options.connection_id,
        connections,
    ) {
        Ok(id) => id,
        Err(e) => {
            return Err(e);
        },
    };
    let ghost id = connection_id@;
    let token = options.token;
    let key = token.as_str();
    let probed = probe.probe(key);
    let ghost said = probed;
    let r = connect_granola_probed(connection_id, token.clone(), probed, capabilities, now);
    assert(follows_granola_probe(r, said, id, key@, capabilities, now@));
    r
}

/// What Notion tells about an authorisation.
#[derive(Debug, PartialEq, Eq)]
pub struct NotionTokenOwner {
    pub workspace_id: Option<String>,
    pub workspace_name: Option<String>,
    pub bot_id: Option<String>,
}

/// What a broker tells about an authorisation.
#[derive(Debug, PartialEq, Eq)]
pub struct BrokerTokenOwner {
    pub account_label: Option<String>,
    pub account_id: Option<String>,
    pub workspace_id: Option<String>,
    pub workspace_name: Option<String>,
    pub scopes: Vec<String>,
}

/// The first of three that is there.
pub open spec fn first_of(
    a: Option<String>,
    b: Option<String>,
    c: Option<String>,
) -> Option<String> {
    if a is Some {
        a
    } else if b is Some {
        b
    } else {
        c
    }
}

fn first_present(a: &Option<String>, b: &Option<String>, c: &Option<String>) -> (r: Option<String>)
    ensures
        r == first_of(*a, *b, *c),
{
    if a.is_some() {
        text::clone_option(a)
    } else if b.is_some() {
        text::clone_option(b)
    } else {
        text::clone_option(c)
    }
}

/// Whose account a Notion authorisation is of: of the workspace by its name,
/// else by its identifier, else of the bot.
pub fn notion_labels(owner: NotionTokenOwner) -> (r: AccountLabels)
    ensures
        r == (AccountLabels {
            account_label: first_of(owner.workspace_name, owner.workspace_id, owner.bot_id),
            workspace_id: owner.workspace_id,
            workspace_name: owner.workspace_name,
        }),
{
    AccountLabels {
        account_label: first_present(&owner.workspace_name, &owner.workspace_id, &owner.bot_id),
        workspace_id: owner.workspace_id,
        workspace_name: owner.workspace_name,
    }
}

/// Whose account a broker's authorisation is of: by its label, else by its
/// identifier, else by the workspace's name.
pub fn broker_labels(owner: &BrokerTokenOwner) -> (r: AccountLabels)
    ensures
        r == (AccountLabels {
            account_label: first_of(owner.account_label, owner.account_id, owner.workspace_name),
            workspace_id: owner.workspace_id,
            workspace_name: owner.workspace_name,
        }),
{
    AccountLabels {
        account_label: first_present(
            &owner.account_label,
            &owner.account_id,
            &owner.workspace_name,
        ),
        workspace_id: text::clone_option(&owner.workspace_id),
        workspace_name: text::clone_option(&owner.workspace_name),
    }
}

/// A code to be exchanged at a broker.
#[derive(Debug, PartialEq, Eq)]
pub struct OAuthBrokerCodeExchange {
    pub connector: String,
    pub session: String,
    pub state: String,
    pub code: String,
    pub redirect_uri: String,
}

/// The code to be exchanged for Notion.
pub fn notion_exchange(options: &BrokerOAuthConnectOptions) -> (r: OAuthBrokerCodeExchange)
    ensures
        r.connector@ == "notion"@,
        r.session == options.session,
        r.state == options.state,
        r.code == options.code,
        r.redirect_uri == options.redirect_uri,
{
    OAuthBrokerCodeExchange {
        connector: "notion".to_string(),
        session: options.session.clone(),
        state: options.state.clone(),
        code: options.code.clone(),
        redirect_uri: options.redirect_uri.clone(),
    }
}

/// The code to be exchanged for Google Docs.
pub fn google_docs_exchange(options: &GoogleDocsBrokerOAuthConnectOptions) -> (r:
    OAuthBrokerCodeExchange)
    ensures
        r.connector@ == "google-docs"@,
        r.session == options.session,
        r.state == options.state,
        r.code == options.code,
        r.redirect_uri == options.redirect_uri,
{
    OAuthBrokerCodeExchange {
        connector: "google-docs".to_string(),
        session: options.session.clone(),
        state: options.state.clone(),
        code: options.code.clone(),
        redirect_uri: options.redirect_uri.clone(),
    }
}

/// The code to be exchanged for Gmail.
pub fn gmail_exchange(options: &GmailBrokerOAuthConnectOptions) -> (r: OAuthBrokerCodeExchange)
    ensures
        r.connector@ == "gmail"@,
        r.session == options.session,
        r.state == options.state,
        r.code == options.code,
        r.redirect_uri == options.redirect_uri,
{
    OAuthBrokerCodeExchange {
        connector: "gmail".to_string(),
        session: options.session.clone(),
        state: options.state.clone(),
        code: options.code.clone(),
        redirect_uri: options.redirect_uri.clone(),
    }
}

/// What came back from an exchange, beside the labels: the credential to keep,
/// or why it could not be written down, and when it ends.
#[derive(Debug, PartialEq, Eq)]
pub struct ExchangedCredential {
    pub secret: Result<String, String>,
    pub expires_at: Option<u64>,
}

/// Whether the outcome of connecting Notion by authorisation follows what the
/// exchange of the code gave.
pub open spec fn follows_notion_oauth(
    connection_id: Seq<char>,
    exchanged: Result<(NotionTokenOwner, ExchangedCredential), String>,
    now: Seq<char>,
    r: Result<ConnectPlan, ConnectError>,
) -> bool {
    match exchanged {
        Err(why) => r == Err::<ConnectPlan, _>(
            ConnectError::OAuthExchangeFailed(
                OAuthExchangeFailure { connector: OAuthExchangeConnector::Notion, message: why },
            ),
        ),
        Ok(got) => match got.1.secret {
            Err(why) => r == Err::<ConnectPlan, _>(encode_failure(ConnectKind::NotionOAuth, why)),
            Ok(secret) => r matches Ok(plan) && exists|grant: Grant|
                grant.labels == (AccountLabels {
                    account_label: first_of(
                        got.0.workspace_name,
                        got.0.workspace_id,
                        got.0.bot_id,
                    ),
                    workspace_id: got.0.workspace_id,
                    workspace_name: got.0.workspace_name,
                }) && grant.scopes@.len() == 0 && grant.profile_scopes@.len() == 0
                    && tells_notion_capabilities(grant) && grant.expires_at == got.1.expires_at
                    && #[trigger] is_connect_plan(
                    plan,
                    ConnectKind::NotionOAuth,
                    connection_id,
                    secret@,
                    grant,
                    now,
                ),
        },
    }
}

/// What is done to connect Notion by authorisation through a broker.
/// `exchanged` is what the exchange of the code gave.
pub fn run_connect_notion_broker_oauth(
    connection_id: String,
    exchanged: Result<(NotionTokenOwner, ExchangedCredential), String>,
    now: &str,
) -> (r: Result<ConnectPlan, ConnectError>)
    ensures
        follows_notion_oauth(connection_id@, exchanged, now@, r),
{
    run_connect_notion_oauth(connection_id, exchanged, now)
}

/// What is done to connect Notion by authorisation with a client of one's own.
/// `exchanged` is what the exchange of the code gave.
pub fn run_connect_notion_oauth(
    connection_id: String,
    exchanged: Result<(NotionTokenOwner, ExchangedCredential), String>,
    now: &str,
) -> (r: Result<ConnectPlan, ConnectError>)
    ensures
        follows_notion_oauth(connection_id@, exchanged, now@, r),
{
    let (owner, credential) = match exchanged {
        Ok(got) => got,
        Err(why) => {
            return Err(ConnectError::OAuthExchangeFailed(OAuthExchangeFailure::notion(why)));
        },
    };
    let secret = match credential.secret {
        Ok(secret) => secret,
        Err(why) => {
            proof {
                reveal_strlit("notion");
                reveal_strlit("google-docs");
                reveal_strlit("gmail");
                reveal_strlit("granola");
                assert("notion"@.len() == 6);
            }
            return Err(ConnectError::CredentialEncode(CredentialEncodeFailure::notion(why)));
        },
    };
    let grant = Grant {
        labels: notion_labels(owner),
        scopes: Vec::new(),
        profile_scopes: Vec::new(),
        capabilities: Ok(notion_capabilities_json()),
        expires_at: credential.expires_at,
    };
    let ghost told = grant;
    let ghost id = connection_id@;
    let ghost kept = secret@;
    let plan = connect_plan(ConnectKind::NotionOAuth, connection_id, secret, grant, now);
    assert(is_connect_plan(plan, ConnectKind::NotionOAuth, id, kept, told, now@));
    Ok(plan)
}

/// What a broker gave for a code.
#[derive(Debug, PartialEq, Eq)]
pub struct BrokerExchange {
    pub owner: BrokerTokenOwner,
    /// Why the scopes do not do, if so.
    pub scope_failure: Option<String>,
    pub credential: ExchangedCredential,
}

/// Whether the outcome of connecting through a broker follows what it gave:
/// scopes that do not do are a failed authorisation, and a credential that
/// cannot be written down is none.
pub open spec fn follows_broker(
    outcome: Result<ConnectPlan, ConnectError>,
    kind: ConnectKind,
    failed: OAuthExchangeConnector,
    exchanged: Result<BrokerExchange, String>,
    connection_id: Seq<char>,
    profile_scopes: Seq<Seq<char>>,
    capabilities: Result<String, String>,
    now: Seq<char>,
) -> bool {
    match exchanged {
        Err(why) => outcome == Err::<ConnectPlan, _>(
            ConnectError::OAuthExchangeFailed(
                OAuthExchangeFailure { connector: failed, message: why },
            ),
        ),
        Ok(got) => if got.scope_failure is Some {
            outcome == Err::<ConnectPlan, _>(
                ConnectError::OAuthExchangeFailed(
                    OAuthExchangeFailure { connector: failed, message: got.scope_failure->0 },
                ),
            )
        } else {
            match got.credential.secret {
                Err(why) => outcome == Err::<ConnectPlan, _>(encode_failure(kind, why)),
                Ok(secret) => outcome matches Ok(plan) && exists|grant: Grant|
                    grant.labels == (AccountLabels {
                        account_label: first_of(
                            got.owner.account_label,
                            got.owner.account_id,
                            got.owner.workspace_name,
                        ),
                        workspace_id: got.owner.workspace_id,
                        workspace_name: got.owner.workspace_name,
                    }) && grant.scopes@ == got.owner.scopes@ && text::texts(
                        grant.profile_scopes@,
                    ) == profile_scopes && grant.capabilities == capabilities
                        && grant.expires_at == got.credential.expires_at
                        && #[trigger] is_connect_plan(
                        plan,
                        kind,
                        connection_id,
                        secret@,
                        grant,
                        now,
                    ),
            }
        },
    }
}

fn connect_through_broker(
    kind: ConnectKind,
    failed: OAuthExchangeConnector,
    connection_id: String,
    exchanged: Result<BrokerExchange, String>,
    profile_scopes: Vec<String>,
    capabilities: Result<String, String>,
    now: &str,
) -> (r: Result<ConnectPlan, ConnectError>)
    ensures
        follows_broker(
            r,
            kind,
            failed,
            exchanged,
            connection_id@,
            text::texts(profile_scopes@),
            capabilities,
            now@,
        ),
{
    let got = match exchanged {
        Ok(got) => got,
        Err(message) => {
            return Err(
                ConnectError::OAuthExchangeFailed(
                    OAuthExchangeFailure { connector: failed, message },
                ),
            );
        },
    };
    if let Some(message) = got.scope_failure {
        return Err(
            ConnectError::OAuthExchangeFailed(OAuthExchangeFailure { connector: failed, message }),
        );
    }
    let secret = match got.credential.secret {
        Ok(secret) => secret,
        Err(message) => {
            return Err(
                ConnectError::CredentialEncode(
                    CredentialEncodeFailure {
                        connector: CredentialFailureConnector::from_connector_id(kind.connector()),
                        message,
                    },
                ),
            );
        },
    };
    let grant = Grant {
        labels: broker_labels(&got.owner),
        scopes: got.owner.scopes,
        profile_scopes,
        capabilities,
        expires_at: got.credential.expires_at,
    };
    let ghost told = grant;
    let ghost id = connection_id@;
    let ghost kept = secret@;
    let plan = connect_plan(kind, connection_id, secret, grant, now);
    assert(is_connect_plan(plan, kind, id, kept, told, now@));
    Ok(plan)
}

/// What is done to connect Google Docs through a broker.
pub fn run_connect_google_docs_broker_oauth(
    connection_id: String,
    exchanged: Result<BrokerExchange, String>,
    profile_scopes: Vec<String>,
    capabilities: Result<String, String>,
    now: &str,
) -> (r: Result<ConnectPlan, ConnectError>)
    ensures
        follows_broker(
            r,
            ConnectKind::GoogleDocsOAuth,
            OAuthExchangeConnector::GoogleDocs,
            exchanged,
            connection_id@,
            text::texts(profile_scopes@),
            capabilities,
            now@,
        ),
{
    connect_through_broker(
        ConnectKind::GoogleDocsOAuth,
        OAuthExchangeConnector::GoogleDocs,
        connection_id,
        exchanged,
        profile_scopes,
        capabilities,
        now,
    )
}

/// What is done to connect Gmail through a broker.
pub fn run_connect_gmail_broker_oauth(
    connection_id: String,
    exchanged: Result<BrokerExchange, String>,
    profile_scopes: Vec<String>,
    capabilities: Result<String, String>,
    now: &str,
) -> (r: Result<ConnectPlan, ConnectError>)
    ensures
        follows_broker(
            r,
            ConnectKind::GmailOAuth,
            OAuthExchangeConnector::Gmail,
            exchanged,
            connection_id@,
            text::texts(profile_scopes@),
            capabilities,
            now@,
        ),
{
    connect_through_broker(
        ConnectKind::GmailOAuth,
        OAuthExchangeConnector::Gmail,
        connection_id,
        exchanged,
        profile_scopes,
        capabilities,
        now,
    )
}

impl Keyed for ConnectionSummary {
    open spec fn key_text(&self) -> Seq<char> {
        self.connection_id@
    }

    fn key(&self) -> &str {
        self.connection_id.as_str()
    }
}

impl Keyed for ConnectorProfileSummary {
    open spec fn key_text(&self) -> Seq<char> {
        self.profile_id@
    }

    fn key(&self) -> &str {
        self.profile_id.as_str()
    }
}

impl ConnectionSummary {
    /// What is shown of a connection: all but the secret's place, the scopes and
    /// the capabilities.
    pub open spec fn of(value: ConnectionRecord) -> ConnectionSummary {
        ConnectionSummary {
            connection_id: value.connection_id,
            profile_id: value.profile_id,
            connector: value.connector,
            display_name: value.display_name,
            account_label: value.account_label,
            workspace_id: value.workspace_id,
            workspace_name: value.workspace_name,
            auth_kind: value.auth_kind,
            status: value.status,
            created_at: value.created_at,
            updated_at: value.updated_at,
            expires_at: value.expires_at,
        }
    }

    /// What is shown of a connection.
    pub fn from(value: ConnectionRecord) -> (r: Self)
        ensures
            r == ConnectionSummary::of(value),
    {
        ConnectionSummary {
            connection_id: value.connection_id,
            profile_id: value.profile_id,
            connector: value.connector,
            display_name: value.display_name,
            account_label: value.account_label,
            workspace_id: value.workspace_id,
            workspace_name: value.workspace_name,
            auth_kind: value.auth_kind,
            status: value.status,
            created_at: value.created_at,
            updated_at: value.updated_at,
            expires_at: value.expires_at,
        }
    }
}

impl ConnectorProfileSummary {
    /// What is shown of a profile.
    pub open spec fn of(value: ConnectorProfileRecord) -> ConnectorProfileSummary {
        ConnectorProfileSummary {
            profile_id: value.profile_id,
            connector: value.connector,
            display_name: value.display_name,
            auth_kind: value.auth_kind,
            scopes: value.scopes,
            capabilities_json: value.capabilities_json,
            enabled_actions_json: value.enabled_actions_json,
            connector_version: value.connector_version,
            status: value.status,
            created_at: value.created_at,
            updated_at: value.updated_at,
        }
    }

    /// What is shown of a profile.
    pub fn from(value: ConnectorProfileRecord) -> (r: Self)
        ensures
            r == ConnectorProfileSummary::of(value),
    {
        ConnectorProfileSummary {
            profile_id: value.profile_id,
            connector: value.connector,
            display_name: value.display_name,
            auth_kind: value.auth_kind,
            scopes: value.scopes,
            capabilities_json: value.capabilities_json,
            enabled_actions_json: value.enabled_actions_json,
            connector_version: value.connector_version,
            status: value.status,
            created_at: value.created_at,
            updated_at: value.updated_at,
        }
    }
}

/// The profiles, in the order of their identifiers.
pub fn run_profiles(profiles: Result<Vec<ConnectorProfileRecord>, StoreError>) -> (r: Result<
    ProfilesReport,
    ConnectError,
>)
    ensures
        match profiles {
            Err(e) => r == Err::<ProfilesReport, _>(ConnectError::Store(e)),
            Ok(list) => r matches Ok(report) && report.ok && report.command@ == "profiles"@
                && report.profiles@ == sorting::sorted(
                list@.map_values(|p: ConnectorProfileRecord| ConnectorProfileSummary::of(p)),
            ),
        },
{
    let list = match profiles {
        Ok(list) => list,
        Err(e) => {
            return Err(ConnectError::Store(e));
        },
    };
    let mut shown: Vec<ConnectorProfileSummary> = Vec::new();
    for p in it: list
        invariant
            it.seq() == list@,
            shown.len() == it.index(),
            forall|k: int|
                0 <= k < shown.len() ==> #[trigger] shown[k] == ConnectorProfileSummary::of(
                    list[k],
                ),
    {
        shown.push(ConnectorProfileSummary::from(p));
    }
    assert(shown@ =~= list@.map_values(
        |p: ConnectorProfileRecord| ConnectorProfileSummary::of(p),
    ));
    Ok(ProfilesReport { ok: true, command: "profiles", profiles: sorting::sort(shown) })
}

/// The connections, in the order of their identifiers.
pub fn run_connections(connections: Result<Vec<ConnectionRecord>, StoreError>) -> (r: Result<
    ConnectionsReport,
    ConnectError,
>)
    ensures
        match connections {
            Err(e) => r == Err::<ConnectionsReport, _>(ConnectError::Store(e)),
            Ok(list) => r matches Ok(report) && report.ok && report.command@ == "connections"@
                && report.connections@ == sorting::sorted(
                list@.map_values(|c: ConnectionRecord| ConnectionSummary::of(c)),
            ),
        },
{
    let list = match connections {
        Ok(list) => list,
        Err(e) => {
            return Err(ConnectError::Store(e));
        },
    };
    let mut shown: Vec<ConnectionSummary> = Vec::new();
    for c in it: list
        invariant
            it.seq() == list@,
            shown.len() == it.index(),
            forall|k: int|
                0 <= k < shown.len() ==> #[trigger] shown[k] == ConnectionSummary::of(list[k]),
    {
        shown.push(ConnectionSummary::from(c));
    }
    assert(shown@ =~= list@.map_values(|c: ConnectionRecord| ConnectionSummary::of(c)));
    Ok(ConnectionsReport { ok: true, command: "connections", connections: sorting::sort(shown) })
}

/// One connection. `found` is what the store has under the identifier.
pub fn run_connection_show(
    found: Result<Option<ConnectionRecord>, StoreError>,
    connection_id: String,
) -> (r: Result<ConnectionShowReport, ConnectError>)
    ensures
        match found {
            Err(e) => r == Err::<ConnectionShowReport, _>(ConnectError::Store(e)),
            Ok(None) => r == Err::<ConnectionShowReport, _>(
                ConnectError::ConnectionMissing(connection_id),
            ),
            Ok(Some(c)) => r matches Ok(report) && report.ok && report.command@
                == "connection show"@ && report.connection == ConnectionSummary::of(c),
        },
{
    match found {
        Err(e) => Err(ConnectError::Store(e)),
        Ok(None) => Err(ConnectError::ConnectionMissing(connection_id)),
        Ok(Some(c)) => Ok(
            ConnectionShowReport {
                ok: true,
                command: "connection show",
                connection: ConnectionSummary::from(c),
            },
        ),
    }
}

/// The connection to give up, with the place of its secret, which is deleted
/// first. `found` is what the store has under the identifier.
pub fn connection_to_revoke(
    found: Result<Option<ConnectionRecord>, StoreError>,
    connection_id: &str,
) -> (r: Result<ConnectionRecord, ConnectError>)
    ensures
        match found {
            Err(e) => r == Err::<ConnectionRecord, _>(ConnectError::Store(e)),
            Ok(None) => r matches Err(ConnectError::ConnectionMissing(id)) && id@
                == connection_id@,
            Ok(Some(c)) => r == Ok::<_, ConnectError>(c),
        },
{
    match found {
        Err(e) => Err(ConnectError::Store(e)),
        Ok(None) => Err(ConnectError::ConnectionMissing(connection_id.to_string())),
        Ok(Some(c)) => Ok(c),
    }
}

/// The connection as it is saved once it is given up, and the report. Nothing
/// changes but the status and the time; where the secret could not be deleted,
/// nothing is saved.
pub fn run_disconnect(
    connection: ConnectionRecord,
    connection_id: String,
    deleted: Result<(), CredentialError>,
    now: &str,
) -> (r: Result<(ConnectionRecord, DisconnectReport), ConnectError>)
    ensures
        match deleted {
            Err(error) => r == Err::<(ConnectionRecord, DisconnectReport), _>(
                ConnectError::Credential(
                    CredentialStorageFailure {
                        connector: CredentialFailureConnector::of(connection.connector@),
                        error,
                    },
                ),
            ),
            Ok(()) => r matches Ok(done) && done.0 == (ConnectionRecord {
                status: done.0.status,
                updated_at: done.0.updated_at,
                ..connection
            }) && done.0.status@ == "revoked"@ && done.0.updated_at@ == now@ && done.1.ok
                && done.1.command@ == "disconnect"@ && done.1.connection_id == connection_id
                && done.1.status@ == "revoked"@,
        },
{
    if let Err(error) = deleted {
        return Err(
            ConnectError::Credential(
                CredentialStorageFailure::for_connector_id(&connection.connector, error),
            ),
        );
    }
    let revoked = ConnectionRecord {
        status: "revoked".to_string(),
        updated_at: now.to_string(),
        ..connection
    };
    Ok(
        (
            revoked,
            DisconnectReport {
                ok: true,
                command: "disconnect",
                connection_id,
                status: "revoked".to_string(),
            },
        ),
    )
}

/// The text under two keys, one inside the other.
pub open spec fn nested_text(value: Json, outer: Seq<char>, inner: Seq<char>) -> Option<Seq<char>> {
    match value.at(outer) {
        Some(v) => v.text_at(inner),
        None => None,
    }
}

fn nested(value: &Json, outer: &str, inner: &str) -> (r: Option<String>)
    ensures
        text::opt_text(r) == nested_text(*value, outer@, inner@),
{
    match value.get(outer) {
        Some(v) => match v.get_text(inner) {
            Some(s) => Some(s.to_string()),
            None => None,
        },
        None => None,
    }
}

/// Whose a Notion user object is: by its name, else by the person's address,
/// else by the bot's workspace.
pub open spec fn user_label_text(user: Json) -> Option<Seq<char>> {
    if user.text_at("name"@) is Some {
        user.text_at("name"@)
    } else if nested_text(user, "person"@, "email"@) is Some {
        nested_text(user, "person"@, "email"@)
    } else {
        nested_text(user, "bot"@, "workspace_name"@)
    }
}

/// What Notion's answer about the current user tells.
pub fn notion_probe_result(user: &Json) -> (r: NotionConnectionProbeResult)
    ensures
        text::opt_text(r.account_label) == user_label_text(*user),
        text::opt_text(r.workspace_id) == nested_text(*user, "bot"@, "workspace_id"@),
        text::opt_text(r.workspace_name) == nested_text(*user, "bot"@, "workspace_name"@),
{
    let account_label = match user.get_text("name") {
        Some(name) => Some(name.to_string()),
        None => match nested(user, "person", "email") {
            Some(email) => Some(email),
            None => nested(user, "bot", "workspace_name"),
        },
    };
    NotionConnectionProbeResult {
        account_label,
        workspace_id: nested(user, "bot", "workspace_id"),
        workspace_name: nested(user, "bot", "workspace_name"),
    }
}

} // verus!
