//! Google sign-in with PKCE: the authorization URL, the checks on the
//! callback, and which account the signed-in Google user maps to.

use vstd::prelude::*;
use crate::text::concat;

verus! {

/// Why the OAuth flow failed.
#[derive(Debug)]
pub enum OauthError {
    BadRequest(String),
    TokenError(String),
    Unexpected(String),
    DatabaseError(String),
}

/// The description of an `OauthError`.
pub open spec fn oauth_error_message(e: OauthError) -> Seq<char> {
    match e {
        OauthError::BadRequest(s) => "Auth error occured: "@ + s@,
        OauthError::TokenError(s) => "Token error: "@ + s@,
        OauthError::Unexpected(s) => "Unexpected error: "@ + s@,
        OauthError::DatabaseError(s) => "Database error: "@ + s@,
    }
}

impl OauthError {
    /// 400 for a bad callback, 500 for every other failure.
    pub fn status_code(&self) -> (r: u16)
        ensures
            r == (if self is BadRequest { 400u16 } else { 500u16 }),
    {
        match self {
            OauthError::BadRequest(_) => 400,
            OauthError::TokenError(_) => 500,
            OauthError::Unexpected(_) => 500,
            OauthError::DatabaseError(_) => 500,
        }
    }

    /// The error's description.
    pub fn message(&self) -> (r: String)
        ensures
            r@ == oauth_error_message(*self),
    {
        match self {
            OauthError::BadRequest(s) => concat("Auth error occured: ", s.as_str()),
            OauthError::TokenError(s) => concat("Token error: ", s.as_str()),
            OauthError::Unexpected(s) => concat("Unexpected error: ", s.as_str()),
            OauthError::DatabaseError(s) => concat("Database error: ", s.as_str()),
        }
    }
}

/// The query of Google's redirect back to the application.
#[derive(Debug)]
pub struct CallbackParams {
    pub code: String,
    pub state: Option<String>,
    pub error: Option<String>,
}

/// Google's authorization endpoint.
pub open spec fn auth_base_url() -> Seq<char> {
    "https://accounts.google.com/o/oauth2/v2/auth"@
}

/// The authorization URL the user is sent to. The challenge is always an
/// S256 challenge, so the method is named: without it the provider would
/// take the challenge as a plain one.
pub open spec fn auth_url_of(client_id: Seq<char>, redirect_uri: Seq<char>, state: Seq<char>, code_challenge: Seq<char>) -> Seq<char> {
    auth_base_url() + "?client_id="@ + client_id + "&redirect_uri="@ + redirect_uri
        + "&response_type=code&state="@ + state + "&scope=openid%20email%20profile&code_challenge="@
        + code_challenge + "&code_challenge_method=S256"@
}

/// The authorization URL for a client, a CSRF state and a PKCE challenge.
pub fn google_auth_url(client_id: &str, redirect_uri: &str, state: &str, code_challenge: &str) -> (r: String)
    ensures
        r@ == auth_url_of(client_id@, redirect_uri@, state@, code_challenge@),
{
    let s = concat("https://accounts.google.com/o/oauth2/v2/auth", "?client_id=");
    let s = concat(s.as_str(), client_id);
    let s = concat(s.as_str(), "&redirect_uri=");
    let s = concat(s.as_str(), redirect_uri);
    let s = concat(s.as_str(), "&response_type=code&state=");
    let s = concat(s.as_str(), state);
    let s = concat(s.as_str(), "&scope=openid%20email%20profile&code_challenge=");
    let s = concat(s.as_str(), code_challenge);
    concat(s.as_str(), "&code_challenge_method=S256")
}

/// The first check on the callback: an `error` from Google refuses it,
/// then a missing `state` does; otherwise the state is returned.
pub fn callback_state(params: &CallbackParams) -> (r: Result<String, OauthError>)
    ensures
        match params.error {
            Some(e) => r matches Err(OauthError::BadRequest(m)) && m@ == "Auth rejected "@ + e@,
            None => match params.state {
                Some(s) => r matches Ok(t) && t@ == s@,
                None => r matches Err(OauthError::BadRequest(m)) && m@ == "Invalid state parameter"@,
            },
        },
{
    match &params.error {
        Some(e) => Err(OauthError::BadRequest(concat("Auth rejected ", e.as_str()))),
        None => match &params.state {
            Some(s) => Ok(s.clone()),
            None => Err(OauthError::BadRequest("Invalid state parameter".to_owned())),
        },
    }
}

/// Whether a stored OAuth state is still live at `now` (Unix seconds): it
/// was stored with its expiry, and lives until that moment.
pub open spec fn state_is_live(expires_at: i64, now: i64) -> bool {
    now < expires_at
}

/// The verifier of the state row that the callback removed (its verifier and
/// expiry), kept only while the state is live: a row that has expired counts
/// as no row.
pub fn live_state_verifier(found: Option<(String, i64)>, now: i64) -> (r: Option<String>)
    ensures
        match found {
            Some((v, expires_at)) => if state_is_live(expires_at, now) {
                r matches Some(t) && t@ == v@
            } else {
                r is None
            },
            None => r is None,
        },
{
    match found {
        Some((v, expires_at)) => if now < expires_at {
            Some(v)
        } else {
            None
        },
        None => None,
    }
}

/// The stored PKCE verifier of a state: a state that is unknown or
/// expired refuses the callback.
pub fn stored_verifier(found: Option<String>) -> (r: Result<String, OauthError>)
    ensures
        match found {
            Some(v) => r matches Ok(t) && t@ == v@,
            None => r matches Err(OauthError::BadRequest(m)) && m@ == "Invalid or expired state"@,
        },
{
    match found {
        Some(v) => Ok(v),
        None => Err(OauthError::BadRequest("Invalid or expired state".to_owned())),
    }
}

/// The e-mail of the Google account: one without an e-mail refuses the
/// callback.
pub fn require_email(email: Option<String>) -> (r: Result<String, OauthError>)
    ensures
        match email {
            Some(e) => r matches Ok(t) && t@ == e@,
            None => r matches Err(OauthError::BadRequest(m)) && m@ == "Google did not return an email"@,
        },
{
    match email {
        Some(e) => Ok(e),
        None => Err(OauthError::BadRequest("Google did not return an email".to_owned())),
    }
}

/// A step of the callback that can fail with an outside error.
#[derive(Debug, Clone, Copy, PartialEq, Eq, Structural)]
pub enum OauthStep {
    StoreState,
    VerifyState,
    TokenExchange,
    TokenResponse,
    UserInfoRequest,
    UserInfoResponse,
    FindOrCreateUser,
    BeginTransaction,
    StoreToken,
    Commit,
}

/// The variant of an `OauthError`, without its message.
#[derive(Debug, Clone, Copy, PartialEq, Eq, Structural)]
pub enum OauthErrorKind {
    BadRequest,
    TokenError,
    Unexpected,
    DatabaseError,
}

/// The variant of `e`.
pub open spec fn kind_of(e: OauthError) -> OauthErrorKind {
    match e {
        OauthError::BadRequest(_) => OauthErrorKind::BadRequest,
        OauthError::TokenError(_) => OauthErrorKind::TokenError,
        OauthError::Unexpected(_) => OauthErrorKind::Unexpected,
        OauthError::DatabaseError(_) => OauthErrorKind::DatabaseError,
    }
}

/// The variant and the message of the error reported when `step` fails with
/// an error described by `detail`.
pub open spec fn step_error(step: OauthStep, detail: Seq<char>) -> (OauthErrorKind, Seq<char>) {
    match step {
        OauthStep::StoreState => (OauthErrorKind::Unexpected, "Failed to store state: "@ + detail),
        OauthStep::VerifyState => (OauthErrorKind::Unexpected, detail),
        OauthStep::TokenExchange => (OauthErrorKind::TokenError, "Token Exchange failed "@ + detail),
        OauthStep::TokenResponse => (OauthErrorKind::TokenError, "Failed to parse token response "@ + detail),
        OauthStep::UserInfoRequest => (OauthErrorKind::Unexpected, "Failed to get user info: "@ + detail),
        OauthStep::UserInfoResponse => (OauthErrorKind::Unexpected, "Failed to parse user info response "@ + detail),
        OauthStep::FindOrCreateUser => (OauthErrorKind::Unexpected, "DB error: "@ + detail),
        OauthStep::BeginTransaction => (OauthErrorKind::Unexpected, "Failed to start DB transaction: "@ + detail),
        OauthStep::StoreToken => (OauthErrorKind::Unexpected, "Failed to store token: "@ + detail),
        OauthStep::Commit => (OauthErrorKind::DatabaseError, detail),
    }
}

/// The message an `OauthError` carries.
pub open spec fn carried(e: OauthError) -> Seq<char> {
    match e {
        OauthError::BadRequest(s) => s@,
        OauthError::TokenError(s) => s@,
        OauthError::Unexpected(s) => s@,
        OauthError::DatabaseError(s) => s@,
    }
}

/// The error reported when `step` fails with an error described by `detail`.
pub fn step_failure(step: OauthStep, detail: &str) -> (r: OauthError)
    ensures
        kind_of(r) == step_error(step, detail@).0,
        carried(r) == step_error(step, detail@).1,
{
    match step {
        OauthStep::StoreState => OauthError::Unexpected(concat("Failed to store state: ", detail)),
        OauthStep::VerifyState => OauthError::Unexpected(detail.to_owned()),
        OauthStep::TokenExchange => OauthError::TokenError(concat("Token Exchange failed ", detail)),
        OauthStep::TokenResponse => OauthError::TokenError(concat("Failed to parse token response ", detail)),
        OauthStep::UserInfoRequest => OauthError::Unexpected(concat("Failed to get user info: ", detail)),
        OauthStep::UserInfoResponse => OauthError::Unexpected(concat("Failed to parse user info response ", detail)),
        OauthStep::FindOrCreateUser => OauthError::Unexpected(concat("DB error: ", detail)),
        OauthStep::BeginTransaction => OauthError::Unexpected(concat("Failed to start DB transaction: ", detail)),
        OauthStep::StoreToken => OauthError::Unexpected(concat("Failed to store token: ", detail)),
        OauthStep::Commit => OauthError::DatabaseError(detail.to_owned()),
    }
}

/// Which account a Google user signs in to.
#[derive(Debug, Clone, Copy, PartialEq, Eq, Structural)]
pub enum OauthAccount {
    /// The Google account is already linked to this user.
    Linked(u128),
    /// A user with the same e-mail exists: link the Google account to it.
    LinkToExisting(u128),
    /// No such user: create one and link the Google account.
    CreateNew,
}

/// The account decision: a linked user first, then a user holding the
/// e-mail, else a new user.
pub open spec fn account_decision(linked_user: Option<u128>, user_with_email: Option<u128>) -> OauthAccount {
    match linked_user {
        Some(id) => OauthAccount::Linked(id),
        None => match user_with_email {
            Some(id) => OauthAccount::LinkToExisting(id),
            None => OauthAccount::CreateNew,
        },
    }
}

/// The account for a Google user, from the user linked to the Google id
/// (looked up first) and the user holding its e-mail (looked up only when
/// no link exists).
pub fn oauth_account(linked_user: Option<u128>, user_with_email: Option<u128>) -> (r: OauthAccount)
    ensures
        match linked_user {
            Some(id) => r == OauthAccount::Linked(id),
            None => match user_with_email {
                Some(id) => r == OauthAccount::LinkToExisting(id),
                None => r == OauthAccount::CreateNew,
            },
        },
        r == account_decision(linked_user, user_with_email),
{
    match linked_user {
        Some(id) => OauthAccount::Linked(id),
        None => match user_with_email {
            Some(id) => OauthAccount::LinkToExisting(id),
            None => OauthAccount::CreateNew,
        },
    }
}

} // verus!
