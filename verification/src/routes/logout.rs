//! Logout: which token of the session is revoked.

use vstd::prelude::*;
use crate::text::{chars_of, concat, matches_at, occurs_at, string_of, suffix_from};

verus! {

/// Why a logout fails.
#[derive(Debug)]
pub enum LogoutError {
    UserNotFound,
    InvalidToken,
    DatabaseError(String),
}

/// The description of a `LogoutError`.
pub open spec fn logout_error_message(e: LogoutError) -> Seq<char> {
    match e {
        LogoutError::UserNotFound => "Not authenticated"@,
        LogoutError::InvalidToken => "Missing or invalid token"@,
        LogoutError::DatabaseError(s) => "Database error: "@ + s@,
    }
}

impl LogoutError {
    /// 401 when the request is not authenticated, 500 for a database failure.
    pub fn status_code(&self) -> (r: u16)
        ensures
            r == (if self is DatabaseError { 500u16 } else { 401u16 }),
    {
        match self {
            LogoutError::UserNotFound => 401,
            LogoutError::InvalidToken => 401,
            LogoutError::DatabaseError(_) => 500,
        }
    }

    /// The error's description.
    pub fn message(&self) -> (r: String)
        ensures
            r@ == logout_error_message(*self),
    {
        match self {
            LogoutError::UserNotFound => "Not authenticated".to_owned(),
            LogoutError::InvalidToken => "Missing or invalid token".to_owned(),
            LogoutError::DatabaseError(s) => concat("Database error: ", s.as_str()),
        }
    }
}

/// The token to revoke: the `Authorization` header value after a single
/// `Bearer ` prefix, taken as it is.
pub open spec fn logout_token_of(header: Seq<char>) -> Option<Seq<char>> {
    if occurs_at(header, "Bearer "@, 0) {
        Some(header.subrange(7, header.len() as int))
    } else {
        None
    }
}

/// The token a logout revokes: the request must belong to an authenticated
/// user and carry a `Bearer` token (`authorization` is `None` when the
/// header is missing or not visible ASCII).
pub fn logout_token(authenticated: bool, authorization: Option<&str>) -> (r: Result<String, LogoutError>)
    ensures
        !authenticated ==> r matches Err(LogoutError::UserNotFound),
        authenticated ==> match authorization {
            None => r matches Err(LogoutError::InvalidToken),
            Some(h) => match logout_token_of(h@) {
                Some(t) => r matches Ok(s) && s@ == t,
                None => r matches Err(LogoutError::InvalidToken),
            },
        },
{
    if !authenticated {
        return Err(LogoutError::UserNotFound);
    }
    match authorization {
        None => Err(LogoutError::InvalidToken),
        Some(h) => {
            let hc = chars_of(h);
            let prefix = chars_of("Bearer ");
            proof {
                reveal_strlit("Bearer ");
            }
            if matches_at(hc.as_slice(), prefix.as_slice(), 0) {
                let rest = suffix_from(hc.as_slice(), 7);
                Ok(string_of(rest.as_slice()))
            } else {
                Err(LogoutError::InvalidToken)
            }
        },
    }
}

/// Where a logged-out client is sent (303 See Other).
pub fn logout_redirect() -> (r: &'static str)
    ensures
        r@ == "/v1/api"@,
{
    "/v1/api"
}

/// A header `Bearer <token>` revokes exactly that token.
pub proof fn lemma_logout_header_round_trip(t: Seq<char>)
    ensures
        logout_token_of("Bearer "@ + t) == Some(t),
{
    reveal_strlit("Bearer ");
    let h = "Bearer "@ + t;
    assert(h.subrange(0, 7) =~= "Bearer "@);
    assert(h.subrange(7, h.len() as int) =~= t);
}

} // verus!
