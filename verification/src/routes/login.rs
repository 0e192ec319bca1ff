//! Login: which stored hash the password is checked against and whether
//! the login succeeds.

use vstd::prelude::*;
use crate::domain::subscriber_password::PasswordVerifyError;

verus! {

/// Why a login fails.
#[derive(Debug)]
pub enum LoginError {
    /// Authentication failed (the hasher reported an error).
    AuthError(String),
    /// A database lookup failed.
    DatabaseError(String),
    /// Unknown e-mail or wrong password.
    InvalidCredentials,
    /// The session token could not be stored.
    TokenError(String),
    /// Anything else.
    UnexpectedError(String),
}

/// The description of a `LoginError`.
pub open spec fn login_error_message(e: LoginError) -> Seq<char> {
    match e {
        LoginError::AuthError(_) => "Authentication failed"@,
        LoginError::DatabaseError(_) => "Database error occurred"@,
        LoginError::InvalidCredentials => "Invalid email or password"@,
        LoginError::TokenError(_) => "A database failure was encountered while trying to store a authentication token."@,
        LoginError::UnexpectedError(_) => "something went wrong"@,
    }
}

impl LoginError {
    /// 401 for refused credentials, 500 for failures of the server.
    pub fn status_code(&self) -> (r: u16)
        ensures
            r == (if self is AuthError || self is InvalidCredentials { 401u16 } else { 500u16 }),
    {
        match self {
            LoginError::AuthError(_) => 401,
            LoginError::DatabaseError(_) => 500,
            LoginError::InvalidCredentials => 401,
            LoginError::TokenError(_) => 500,
            LoginError::UnexpectedError(_) => 500,
        }
    }

    /// The error's description.
    pub fn message(&self) -> (r: String)
        ensures
            r@ == login_error_message(*self),
    {
        match self {
            LoginError::AuthError(_) => "Authentication failed".to_owned(),
            LoginError::DatabaseError(_) => "Database error occurred".to_owned(),
            LoginError::InvalidCredentials => "Invalid email or password".to_owned(),
            LoginError::TokenError(_) =>
                "A database failure was encountered while trying to store a authentication token.".to_owned(),
            LoginError::UnexpectedError(_) => "something went wrong".to_owned(),
        }
    }
}

/// The result of looking a user up by e-mail.
#[derive(Debug)]
pub enum UserLookup {
    /// The user's id and stored password hash.
    Found(u128, String),
    /// No user has the e-mail.
    NotFound,
    /// The lookup failed; the message describes why.
    Failed(String),
}

/// The fixed Argon2id hash the password is checked against when the e-mail
/// belongs to no user, so that an unknown e-mail costs the same work as a
/// known one.
pub open spec fn dummy_password_hash() -> Seq<char> {
    "$argon2id$v=19$m=15000,t=2,p=1$gZiV/M1gPc22ElAH/Jh1Hw$CWOrkoo7oJBQ/iyh7uJ0LO2aLEfrHwTWllSAxT0zRno"@
}

/// The user (if any) and the hash the password is checked against: a known
/// e-mail gives its user and stored hash, an unknown one no user and the
/// dummy hash (the password is still checked, and `login_outcome` refuses
/// afterwards); a failed lookup is a database error.
pub fn credentials_for(lookup: UserLookup) -> (r: Result<(Option<u128>, String), LoginError>)
    ensures
        match lookup {
            UserLookup::Found(id, hash) => r matches Ok((i, h)) && i == Some(id) && h@ == hash@,
            UserLookup::NotFound => r matches Ok((i, h)) && i is None && h@ == dummy_password_hash(),
            UserLookup::Failed(m) => r matches Err(LoginError::DatabaseError(e)) && e@ == m@,
        },
{
    match lookup {
        UserLookup::Found(id, hash) => Ok((Some(id), hash)),
        UserLookup::NotFound => Ok((
            None,
            "$argon2id$v=19$m=15000,t=2,p=1$gZiV/M1gPc22ElAH/Jh1Hw$CWOrkoo7oJBQ/iyh7uJ0LO2aLEfrHwTWllSAxT0zRno".to_owned(),
        )),
        UserLookup::Failed(m) => Err(LoginError::DatabaseError(m)),
    }
}

/// The outcome of a login: the user logs in only when the password was
/// accepted and the e-mail belongs to a user; a hash that cannot be read or
/// a wrong password refuses the credentials.
pub fn login_outcome(user_id: Option<u128>, verification: Result<bool, PasswordVerifyError>) -> (r: Result<u128, LoginError>)
    ensures
        match (verification, user_id) {
            (Ok(true), Some(id)) => r == Ok::<u128, LoginError>(id),
            _ => r matches Err(LoginError::InvalidCredentials),
        },
{
    match verification {
        Ok(true) => match user_id {
            Some(id) => Ok(id),
            None => Err(LoginError::InvalidCredentials),
        },
        _ => Err(LoginError::InvalidCredentials),
    }
}

/// An unknown e-mail never logs in, whatever the dummy hash's verification
/// gives.
pub proof fn lemma_unknown_email_refused(verification: Result<bool, PasswordVerifyError>, r: Result<u128, LoginError>)
    requires
        match (verification, None::<u128>) {
            (Ok(true), Some(id)) => r == Ok::<u128, LoginError>(id),
            _ => r matches Err(LoginError::InvalidCredentials),
        },
    ensures
        r matches Err(LoginError::InvalidCredentials),
{
}

/// A login succeeds only with an accepted password for a known user.
pub proof fn lemma_login_needs_accepted_password(user_id: Option<u128>, verification: Result<bool, PasswordVerifyError>, r: Result<u128, LoginError>)
    requires
        match (verification, user_id) {
            (Ok(true), Some(id)) => r == Ok::<u128, LoginError>(id),
            _ => r matches Err(LoginError::InvalidCredentials),
        },
    ensures
        r is Ok ==> verification == Ok::<bool, PasswordVerifyError>(true) && user_id == Some(r->Ok_0),
{
}

} // verus!
