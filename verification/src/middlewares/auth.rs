//! Bearer-token authentication of HTTP requests.

use vstd::prelude::*;
use crate::text::{
    chars_of, concat, is_unicode_whitespace, matches_at, occurs_at, string_of, strip_all_prefixes,
    trim, trim_chars, trim_end, trim_start, trim_start_matches,
};
use crate::utils::tokens::{token_hash, Token};

verus! {

/// Why a request is refused.
#[derive(Debug)]
pub enum AuthError {
    /// invalid or missing authentication token
    Unauthorized,
    /// unexpected error
    Unexpected(String),
}

/// The description of an `AuthError`.
pub open spec fn auth_error_message(e: AuthError) -> Seq<char> {
    match e {
        AuthError::Unauthorized => "invalid or missing authentication token"@,
        AuthError::Unexpected(s) => "unexpected error: "@ + s@,
    }
}

impl AuthError {
    /// 401 for a refused token, 500 otherwise.
    pub fn status_code(&self) -> (r: u16)
        ensures
            r == (if self is Unauthorized { 401u16 } else { 500u16 }),
    {
        match self {
            AuthError::Unauthorized => 401,
            AuthError::Unexpected(_) => 500,
        }
    }

    /// The `WWW-Authenticate` header of the response: `Bearer` on a refused
    /// token, none otherwise.
    pub fn www_authenticate(&self) -> (r: Option<&'static str>)
        ensures
            self is Unauthorized ==> (r matches Some(h) && h@ == "Bearer"@),
            self is Unexpected ==> r is None,
    {
        match self {
            AuthError::Unauthorized => Some("Bearer"),
            AuthError::Unexpected(_) => None,
        }
    }

    /// The error's description.
    pub fn message(&self) -> (r: String)
        ensures
            r@ == auth_error_message(*self),
    {
        match self {
            AuthError::Unauthorized => "invalid or missing authentication token".to_owned(),
            AuthError::Unexpected(s) => concat("unexpected error: ", s.as_str()),
        }
    }

    /// A database failure, carried as its message.
    pub fn from_db_error(message: String) -> (r: AuthError)
        ensures
            r == AuthError::Unexpected(message),
    {
        AuthError::Unexpected(message)
    }
}

/// The token of an `Authorization` header value: after the `Bearer `
/// prefix (every repetition of it removed), with white space trimmed;
/// `None` when the prefix is missing or nothing is left.
pub open spec fn bearer_token_of(header: Seq<char>) -> Option<Seq<char>> {
    if occurs_at(header, "Bearer "@, 0) {
        let t = trim(strip_all_prefixes(header, "Bearer "@));
        if t.len() == 0 {
            None
        } else {
            Some(t)
        }
    } else {
        None
    }
}

/// Reads the bearer token of a request from its `Authorization` header
/// (`None` when the header is missing or is not visible ASCII).
pub fn bearer_token(authorization: Option<&str>) -> (r: Result<String, AuthError>)
    ensures
        match authorization {
            None => r matches Err(e) && e is Unauthorized,
            Some(h) => match bearer_token_of(h@) {
                Some(t) => r matches Ok(s) && s@ == t,
                None => r matches Err(e) && e is Unauthorized,
            },
        },
{
    match authorization {
        None => Err(AuthError::Unauthorized),
        Some(h) => {
            let hc = chars_of(h);
            let prefix = chars_of("Bearer ");
            proof {
                reveal_strlit("Bearer ");
            }
            if !matches_at(hc.as_slice(), prefix.as_slice(), 0) {
                return Err(AuthError::Unauthorized);
            }
            let stripped = trim_start_matches(hc.as_slice(), prefix.as_slice());
            let token = trim_chars(stripped.as_slice());
            if token.len() == 0 {
                return Err(AuthError::Unauthorized);
            }
            Ok(string_of(token.as_slice()))
        },
    }
}

/// The key under which the request's token is looked up: the SHA-256
/// digest of the token, as bytes. It is the stored hash of the token that
/// `Token::new` issued with this plaintext.
pub fn token_lookup_key(token: &str) -> (r: Vec<u8>)
    ensures
        r@ == token_hash(token@),
{
    Token::hash_token(token)
}

/// After the lookup: a request whose token belongs to a user continues,
/// any other is refused.
pub fn authorize(user_found: bool) -> (r: Result<(), AuthError>)
    ensures
        user_found ==> r is Ok,
        !user_found ==> (r matches Err(e) && e is Unauthorized),
{
    if user_found {
        Ok(())
    } else {
        Err(AuthError::Unauthorized)
    }
}

/// A header `Bearer <token>` yields the token, when the token is not empty,
/// has no white space at either end and does not itself start with
/// `Bearer `.
pub proof fn lemma_bearer_header_round_trip(t: Seq<char>)
    requires
        t.len() > 0,
        !is_unicode_whitespace(t[0]),
        !is_unicode_whitespace(t[t.len() - 1]),
        !occurs_at(t, "Bearer "@, 0),
    ensures
        bearer_token_of("Bearer "@ + t) == Some(t),
{
    reveal_strlit("Bearer ");
    let h = "Bearer "@ + t;
    assert(h.subrange(0, 7) =~= "Bearer "@);
    assert(h.subrange(7, h.len() as int) =~= t);
    assert(strip_all_prefixes(h, "Bearer "@) == strip_all_prefixes(t, "Bearer "@));
    assert(strip_all_prefixes(t, "Bearer "@) == t);
    assert(trim_start(t) == t);
    assert(trim_end(t) == t);
}

} // verus!
