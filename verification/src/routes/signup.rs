//! Sign-up and account activation.

use vstd::prelude::*;
use crate::text::concat;

verus! {

/// Why a sign-up fails.
#[derive(Debug)]
pub enum SignUpError {
    EmailConflict,
    PoolConnectionFailed(String),
    TransactionCommitFailed(String),
    UserInsertionFailed(String),
    ValidationError(String),
}

/// The description of a `SignUpError`; the JSON error body carries it.
pub open spec fn sign_up_error_message(e: SignUpError) -> Seq<char> {
    match e {
        SignUpError::EmailConflict => "An account with this email already exists."@,
        SignUpError::PoolConnectionFailed(_) => "Failed to acquire a Postgres connection from the pool"@,
        SignUpError::TransactionCommitFailed(_) => "Failed to commit SQL transaction to store a new subscriber."@,
        SignUpError::UserInsertionFailed(_) => "Failed to execute subscriber insertion query"@,
        SignUpError::ValidationError(s) => "validating user "@ + s@,
    }
}

/// The HTTP status of a `SignUpError`.
pub open spec fn sign_up_status(e: SignUpError) -> u16 {
    match e {
        SignUpError::EmailConflict => 409,
        SignUpError::ValidationError(_) => 400,
        _ => 500,
    }
}

impl SignUpError {
    /// 409 for a taken e-mail, 400 for invalid input, 500 otherwise.
    pub fn status_code(&self) -> (r: u16)
        ensures
            r == sign_up_status(*self),
    {
        match self {
            SignUpError::EmailConflict => 409,
            SignUpError::PoolConnectionFailed(_) => 500,
            SignUpError::TransactionCommitFailed(_) => 500,
            SignUpError::UserInsertionFailed(_) => 500,
            SignUpError::ValidationError(_) => 400,
        }
    }

    /// The error's description.
    pub fn message(&self) -> (r: String)
        ensures
            r@ == sign_up_error_message(*self),
    {
        match self {
            SignUpError::EmailConflict => "An account with this email already exists.".to_owned(),
            SignUpError::PoolConnectionFailed(_) =>
                "Failed to acquire a Postgres connection from the pool".to_owned(),
            SignUpError::TransactionCommitFailed(_) =>
                "Failed to commit SQL transaction to store a new subscriber.".to_owned(),
            SignUpError::UserInsertionFailed(_) => "Failed to execute subscriber insertion query".to_owned(),
            SignUpError::ValidationError(s) => concat("validating user ", s.as_str()),
        }
    }
}

/// The error for a failed insertion of the user row: a unique-key
/// violation means the e-mail is taken.
pub fn insertion_failure(is_unique_violation: bool, message: String) -> (r: SignUpError)
    ensures
        is_unique_violation ==> r matches SignUpError::EmailConflict,
        !is_unique_violation ==> (r matches SignUpError::UserInsertionFailed(m) && m@ == message@),
{
    if is_unique_violation {
        SignUpError::EmailConflict
    } else {
        SignUpError::UserInsertionFailed(message)
    }
}

/// The error when the welcome e-mail cannot be prepared.
pub fn email_client_failure(detail: &str) -> (r: SignUpError)
    ensures
        r matches SignUpError::ValidationError(m) && m@ == "Failed to create email client: "@ + detail@,
{
    SignUpError::ValidationError(concat("Failed to create email client: ", detail))
}

/// The message of a successful sign-up.
pub fn sign_up_confirmation() -> (r: &'static str)
    ensures
        r@ == "User created Successfully please check your email to activate your account"@,
{
    "User created Successfully please check your email to activate your account"
}

/// The query carrying an activation token.
#[derive(Debug)]
pub struct ActivateUserData {
    pub token: String,
}

/// Why an activation fails.
#[derive(Debug)]
pub enum ActivateUserError {
    PoolConnectionFailed(String),
    UserActivationFailed(String),
    InvalidToken,
}

/// The description of an `ActivateUserError`.
pub open spec fn activate_user_error_message(e: ActivateUserError) -> Seq<char> {
    match e {
        ActivateUserError::PoolConnectionFailed(_) => "Failed to acquire a Postgres connection from the pool"@,
        ActivateUserError::UserActivationFailed(_) => "Failed to execute SQL query to activate user account."@,
        ActivateUserError::InvalidToken => "Invalid or expired activation token."@,
    }
}

impl ActivateUserError {
    /// The error's description.
    pub fn message(&self) -> (r: &'static str)
        ensures
            r@ == activate_user_error_message(*self),
    {
        match self {
            ActivateUserError::PoolConnectionFailed(_) => "Failed to acquire a Postgres connection from the pool",
            ActivateUserError::UserActivationFailed(_) => "Failed to execute SQL query to activate user account.",
            ActivateUserError::InvalidToken => "Invalid or expired activation token.",
        }
    }
}

/// The user an unexpired activation token belongs to: an unknown or
/// expired token is refused.
pub fn activation_token_owner(owner: Option<u128>) -> (r: Result<u128, ActivateUserError>)
    ensures
        match owner {
            Some(id) => r == Ok::<u128, ActivateUserError>(id),
            None => r matches Err(ActivateUserError::InvalidToken),
        },
{
    match owner {
        Some(id) => Ok(id),
        None => Err(ActivateUserError::InvalidToken),
    }
}

} // verus!
