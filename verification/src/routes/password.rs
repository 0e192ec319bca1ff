//! Password reset: who may ask for one, and which token sets the new
//! password.

use vstd::prelude::*;
use crate::crypto::{draw_salt, utf8_bytes, SALT_BYTES};
use crate::domain::subscriber_password::{is_salt_draw, stored_with_salt, SubscriberPassword};

verus! {

/// Why a password reset fails.
#[derive(Debug)]
pub enum PasswordResetError {
    PoolConnectionFailed(String),
    EmailNotFound,
    EmailSendFailed(String),
    UserNotActivated,
    EmailClientCreationFailed(String),
    InvalidToken,
    StoreTokenFailed(String),
}

/// The description of a `PasswordResetError`.
pub open spec fn password_reset_error_message(e: PasswordResetError) -> Seq<char> {
    match e {
        PasswordResetError::PoolConnectionFailed(_) => "Failed to acquire a Postgres connection from the pool"@,
        PasswordResetError::EmailNotFound => "Email not found"@,
        PasswordResetError::EmailSendFailed(_) => "Failed to send password reset email"@,
        PasswordResetError::UserNotActivated => "User account not activated cannot reset password"@,
        PasswordResetError::EmailClientCreationFailed(_) => "Failed to create email client"@,
        PasswordResetError::InvalidToken => "Invalid or expired token"@,
        PasswordResetError::StoreTokenFailed(_) => "failed to insert token in database"@,
    }
}

/// The HTTP status of a `PasswordResetError`.
pub open spec fn password_reset_status(e: PasswordResetError) -> u16 {
    match e {
        PasswordResetError::EmailNotFound => 404,
        PasswordResetError::UserNotActivated => 403,
        PasswordResetError::InvalidToken => 400,
        _ => 500,
    }
}

impl PasswordResetError {
    /// 404 for an unknown e-mail, 403 for an account not activated, 400 for
    /// a bad token, 500 otherwise.
    pub fn status_code(&self) -> (r: u16)
        ensures
            r == password_reset_status(*self),
    {
        match self {
            PasswordResetError::EmailNotFound => 404,
            PasswordResetError::PoolConnectionFailed(_) => 500,
            PasswordResetError::EmailSendFailed(_) => 500,
            PasswordResetError::UserNotActivated => 403,
            PasswordResetError::EmailClientCreationFailed(_) => 500,
            PasswordResetError::InvalidToken => 400,
            PasswordResetError::StoreTokenFailed(_) => 500,
        }
    }

    /// The error's description.
    pub fn message(&self) -> (r: &'static str)
        ensures
            r@ == password_reset_error_message(*self),
    {
        match self {
            PasswordResetError::PoolConnectionFailed(_) => "Failed to acquire a Postgres connection from the pool",
            PasswordResetError::EmailNotFound => "Email not found",
            PasswordResetError::EmailSendFailed(_) => "Failed to send password reset email",
            PasswordResetError::UserNotActivated => "User account not activated cannot reset password",
            PasswordResetError::EmailClientCreationFailed(_) => "Failed to create email client",
            PasswordResetError::InvalidToken => "Invalid or expired token",
            PasswordResetError::StoreTokenFailed(_) => "failed to insert token in database",
        }
    }
}

/// The form asking for a reset.
#[derive(Debug)]
pub struct PasswordResetFormData {
    pub email: String,
}

/// The query carrying the reset token.
#[derive(Debug)]
pub struct PasswordResetData {
    pub token: String,
}

/// A user as the reset request needs it.
#[derive(Debug)]
pub struct UserRecord {
    pub id: u128,
    pub email: String,
    pub first_name: String,
}

/// The user who asked for the reset: an unknown e-mail refuses it.
pub fn reset_requester(found: Option<UserRecord>) -> (r: Result<UserRecord, PasswordResetError>)
    ensures
        match found {
            Some(u) => r matches Ok(v) && v == u,
            None => r matches Err(PasswordResetError::EmailNotFound),
        },
{
    match found {
        Some(u) => Ok(u),
        None => Err(PasswordResetError::EmailNotFound),
    }
}

/// Only an activated account may reset its password; an account whose
/// activation is unknown counts as not found.
pub fn check_activated(is_activated: Option<bool>) -> (r: Result<(), PasswordResetError>)
    ensures
        match is_activated {
            Some(true) => r is Ok,
            Some(false) => r matches Err(PasswordResetError::UserNotActivated),
            None => r matches Err(PasswordResetError::EmailNotFound),
        },
{
    match is_activated {
        Some(true) => Ok(()),
        Some(false) => Err(PasswordResetError::UserNotActivated),
        None => Err(PasswordResetError::EmailNotFound),
    }
}

/// The user a reset token belongs to: an unknown token is refused.
pub fn reset_token_owner(owner: Option<u128>) -> (r: Result<u128, PasswordResetError>)
    ensures
        match owner {
            Some(id) => r == Ok::<u128, PasswordResetError>(id),
            None => r matches Err(PasswordResetError::InvalidToken),
        },
{
    match owner {
        Some(id) => Ok(id),
        None => Err(PasswordResetError::InvalidToken),
    }
}

/// The hash of the new password, with a salt drawn from the operating
/// system (`draw_salt`). The new password is hashed as given (the sign-up rules are not
/// applied); a failure of the hasher is reported as a failed update, which
/// for a password of at most `0xFFFF_FFFF` bytes happens only when the draw
/// fails (see `new_password_hash_with_salt`).
pub fn new_password_hash(password: &str) -> (r: Result<SubscriberPassword, PasswordResetError>)
    ensures
        r matches Ok(p) ==> p.plaintext_password@ == password@ && p.hashes(password@),
        r matches Err(e) ==> (e matches PasswordResetError::StoreTokenFailed(m) && m@ == "Failed to update password"@),
        utf8_bytes(password@).len() > 0xFFFF_FFFF ==> r is Err,
{
    let salt = draw_salt();
    new_password_hash_with_salt(password, salt)
}

/// `new_password_hash` for a given draw of salt bytes: `Ok` exactly when
/// the draw holds `SALT_BYTES` bytes and the password is at most
/// `0xFFFF_FFFF` bytes long.
pub fn new_password_hash_with_salt(password: &str, salt: Option<Vec<u8>>) -> (r: Result<SubscriberPassword, PasswordResetError>)
    ensures
        r is Ok <==> (is_salt_draw(salt) && utf8_bytes(password@).len() <= 0xFFFF_FFFF),
        r matches Ok(p) ==> p.plaintext_password@ == password@ && p.hashes(password@),
        r matches Ok(p) ==> stored_with_salt(p, password@, salt),
        r matches Err(e) ==> (e matches PasswordResetError::StoreTokenFailed(m) && m@ == "Failed to update password"@),
{
    match SubscriberPassword::hash_with_salt(password, salt) {
        Some(p) => Ok(p),
        None => Err(PasswordResetError::StoreTokenFailed("Failed to update password".to_owned())),
    }
}

} // verus!
