//! Stored credentials of the music provider and the exchange that renews
//! them.

use vstd::prelude::*;
use crate::config::Config;
use crate::text::{base64_of, base64_text, joined};

verus! {

/// The credential pair that is persisted between requests.
#[derive(Debug, Clone, PartialEq, Eq)]
pub struct TokenStorage {
    pub access_token: String,
    pub refresh_token: String,
}

/// What the token endpoint answers: always a new access token, sometimes a
/// new refresh token.
#[derive(Debug, Clone, PartialEq, Eq)]
pub struct TokenResponse {
    pub access_token: String,
    pub refresh_token: Option<String>,
}

/// The form POST, with an empty body, that asks for a new access token.
#[derive(Debug, Clone, PartialEq, Eq)]
pub struct RefreshRequest {
    pub url: String,
    pub accept_encoding: String,
    pub content_type: String,
    pub content_length: u64,
    pub authorization: String,
}

/// Address of the token endpoint with the grant in its query.
pub open spec fn refresh_url(accounts_api: Seq<char>, refresh_token: Seq<char>) -> Seq<char> {
    accounts_api + "/token?refresh_token="@ + refresh_token + "&grant_type=refresh_token"@
}

/// HTTP Basic authorization for a client id and its secret.
pub open spec fn basic_authorization(client_id: Seq<char>, secret: Seq<char>) -> Seq<char> {
    "Basic "@ + base64_text(client_id + ":"@ + secret)
}

/// The credentials to persist after a token response: the new access token,
/// and the new refresh token if one came, else the one already stored.
pub open spec fn renewed(stored: TokenStorage, response: TokenResponse) -> TokenStorage {
    TokenStorage {
        access_token: response.access_token,
        refresh_token: match response.refresh_token {
            Some(token) => token,
            None => stored.refresh_token,
        },
    }
}

/// Builds the request that exchanges the stored refresh token for a new
/// access token.
pub fn refresh_request(storage: &TokenStorage, config: &Config) -> (request: RefreshRequest)
    ensures
        request.url@ == refresh_url(
            config.base_url.spotify_accounts_api@,
            storage.refresh_token@,
        ),
        request.accept_encoding@ == "gzip, deflate, br"@,
        request.content_type@ == "application/x-www-form-urlencoded"@,
        request.content_length == 0,
        request.authorization@ == basic_authorization(
            config.spotify.client_id@,
            config.spotify.secret@,
        ),
{
    let mut url = joined(config.base_url.spotify_accounts_api.as_str(), "/token?refresh_token=");
    url.push_str(storage.refresh_token.as_str());
    url.push_str("&grant_type=refresh_token");

    let mut credentials = joined(config.spotify.client_id.as_str(), ":");
    credentials.push_str(config.spotify.secret.as_str());
    let encoded = base64_of(credentials.as_str());

    RefreshRequest {
        url,
        accept_encoding: "gzip, deflate, br".to_owned(),
        content_type: "application/x-www-form-urlencoded".to_owned(),
        content_length: 0,
        authorization: joined("Basic ", encoded.as_str()),
    }
}

/// Decides what a refresh leaves in the credential store. `parsed` is the
/// token endpoint's answer, or `None` where it could not be read. The result
/// is the value to persist; `None` means the stored credentials stay as they
/// are.
pub fn refresh_spotify_token(stored: TokenStorage, parsed: Option<TokenResponse>) -> (persist:
    Option<TokenStorage>)
    ensures
        persist == match parsed {
            Some(response) => Some(renewed(stored, response)),
            None => None,
        },
{
    match parsed {
        Some(response) => {
            let refresh_token = match response.refresh_token {
                Some(token) => token,
                None => stored.refresh_token,
            };
            Some(TokenStorage { access_token: response.access_token, refresh_token })
        },
        None => None,
    }
}

/// A token response without a refresh token keeps the stored one; a response
/// with one replaces it. The access token is replaced either way.
pub proof fn refresh_token_kept_or_replaced(stored: TokenStorage, response: TokenResponse)
    ensures
        renewed(stored, response).access_token == response.access_token,
        response.refresh_token is None ==> renewed(stored, response).refresh_token
            == stored.refresh_token,
        response.refresh_token is Some ==> renewed(stored, response).refresh_token
            == response.refresh_token->0,
{
}

} // verus!
