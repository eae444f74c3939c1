//! Startup: the settings, then a workspace API client for the first request.
//! Nothing here talks to the network.
use vstd::prelude::*;
use crate::config::{spec_load, BotConfig, ConfigError};

verus! {

#[verifier::external_type_specification]
#[verifier::external_body]
pub struct ExNotionApi(notion::NotionApi);

/// Why startup stopped before any request was sent.
#[derive(Clone, Copy, Debug, PartialEq, Eq, Structural)]
pub enum StartupError {
    /// A setting is missing from the environment.
    Config(ConfigError),
    /// The API token cannot stand in an HTTP header.
    InvalidApiToken,
    /// The HTTP client could not be built.
    ClientBuild,
}

/// Whether a character may stand in an HTTP header value: a tab, or anything
/// from the space on but the delete character.
pub open spec fn header_char_ok(c: char) -> bool {
    c == '\t' || ((c as u32) >= 32 && (c as u32) != 127)
}

/// Whether the API token may stand in the authorization header.
pub open spec fn token_ok(token: Seq<char>) -> bool {
    forall|i: int| 0 <= i < token.len() ==> header_char_ok(#[trigger] token[i])
}

/// A workspace API client, with the API token it authenticates with.
pub struct WorkspaceClient {
    api: notion::NotionApi,
    token: Ghost<Seq<char>>,
}

impl WorkspaceClient {
    /// The API token that the client sends with each request.
    pub closed spec fn token(&self) -> Seq<char> {
        self.token@
    }

    /// The client itself, to make requests with.
    pub fn api(&self) -> &notion::NotionApi {
        &self.api
    }
}

/// Relies on `notion::NotionApi::new`: the client it returns authenticates with
/// the token it was given; it fails with `InvalidApiToken` exactly when
/// `"Bearer "` followed by the token is no valid header value (http's check on
/// each byte), and otherwise returns a client or fails to build one.
#[verifier::external_body]
fn connect(api_token: String) -> (r: Result<WorkspaceClient, StartupError>)
    ensures
        r is Ok ==> r->Ok_0.token() == api_token@,
        (r matches Err(StartupError::InvalidApiToken)) == !token_ok(api_token@),
        r is Err ==> r->Err_0 == StartupError::InvalidApiToken || r->Err_0 == StartupError::ClientBuild,
{
    let token = Ghost(api_token@);
    match notion::NotionApi::new(api_token) {
        Ok(api) => Ok(WorkspaceClient { api, token }),
        Err(notion::Error::InvalidApiToken { .. }) => Err(StartupError::InvalidApiToken),
        Err(_) => Err(StartupError::ClientBuild),
    }
}

/// Everything the bot needs before its first request: its settings and a
/// workspace API client. The request fetches the database `config.collection_id`;
/// the workspace API's identifier type takes any text, so no identifier stops startup.
pub struct Startup {
    pub config: BotConfig,
    pub client: WorkspaceClient,
}

/// Builds the workspace API client from `config`, keeping `config` as it is.
pub fn bootstrap(config: BotConfig) -> (r: Result<Startup, StartupError>)
    ensures
        r is Ok ==> r->Ok_0.config.bot_token@ == config.bot_token@
            && r->Ok_0.config.api_token@ == config.api_token@
            && r->Ok_0.config.collection_id@ == config.collection_id@
            && r->Ok_0.client.token() == config.api_token@,
        (r matches Err(StartupError::InvalidApiToken)) == !token_ok(config.api_token@),
        r is Err ==> r->Err_0 == StartupError::InvalidApiToken || r->Err_0 == StartupError::ClientBuild,
{
    let client = match connect(config.api_token.clone()) {
        Ok(client) => client,
        Err(e) => {
            return Err(e);
        },
    };
    Ok(Startup { config, client })
}

/// Reads the settings from the environment `vars` and bootstraps from them.
/// A missing or repeated setting stops it before any client exists.
pub fn start(vars: &Vec<(String, String)>) -> (r: Result<Startup, StartupError>)
    ensures
        match spec_load(vars@) {
            Err(e) => r == Err::<Startup, _>(StartupError::Config(e)),
            Ok((t, a, d)) => {
                &&& r is Ok ==> r->Ok_0.config.bot_token@ == t
                    && r->Ok_0.config.api_token@ == a
                    && r->Ok_0.config.collection_id@ == d
                    && r->Ok_0.client.token() == a
                &&& (r matches Err(StartupError::InvalidApiToken)) == !token_ok(a)
                &&& r is Err ==> r->Err_0 == StartupError::InvalidApiToken || r->Err_0 == StartupError::ClientBuild
            },
        },
{
    match BotConfig::from_vars(vars) {
        Ok(config) => bootstrap(config),
        Err(e) => Err(StartupError::Config(e)),
    }
}

} // verus!
