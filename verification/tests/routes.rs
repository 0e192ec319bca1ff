use chat_app::oauth::live_state_verifier;
use chat_app::domain::subscriber_password::PasswordVerifyError;
use chat_app::oauth::{
    callback_state, google_auth_url, oauth_account, require_email, step_failure, stored_verifier,
    CallbackParams, OauthAccount, OauthError, OauthStep,
};
use chat_app::routes::home::greet;
use chat_app::routes::login::{credentials_for, login_outcome, LoginError, UserLookup};
use chat_app::routes::logout::{logout_redirect, logout_token, LogoutError};
use chat_app::routes::password::{
    check_activated, new_password_hash, new_password_hash_with_salt, reset_requester, reset_token_owner, PasswordResetError,
    UserRecord,
};
use chat_app::routes::signup::{
    activation_token_owner, email_client_failure, insertion_failure, sign_up_confirmation,
    ActivateUserError, SignUpError,
};

#[test]
fn greeting() {
    assert_eq!(greet("Ada"), "Welcome Ada to your favorite Chat App");
    assert_eq!(greet(""), "Welcome  to your favorite Chat App");
}

#[test]
fn login_decisions() {
    match credentials_for(UserLookup::Found(3, "$argon2id$x".to_string())) {
        Ok((id, h)) => {
            assert_eq!(id, Some(3));
            assert_eq!(h, "$argon2id$x");
        }
        Err(e) => panic!("unexpected {:?}", e),
    }
    // An unknown e-mail is still checked, against the fixed dummy hash.
    match credentials_for(UserLookup::NotFound) {
        Ok((None, h)) => {
            assert_eq!(
                h,
                "$argon2id$v=19$m=15000,t=2,p=1$gZiV/M1gPc22ElAH/Jh1Hw$CWOrkoo7oJBQ/iyh7uJ0LO2aLEfrHwTWllSAxT0zRno"
            );
            let v = chat_app::domain::subscriber_password::SubscriberPassword::verify_password(b"Pass123!", h);
            assert_eq!(v, Ok(false));
            assert!(matches!(login_outcome(None, v), Err(LoginError::InvalidCredentials)));
        }
        other => panic!("unexpected {:?}", other),
    }
    match credentials_for(UserLookup::Failed("down".to_string())) {
        Err(LoginError::DatabaseError(m)) => assert_eq!(m, "down"),
        other => panic!("unexpected {:?}", other),
    }
    assert_eq!(login_outcome(Some(3), Ok(true)).unwrap(), 3);
    assert!(matches!(login_outcome(Some(3), Ok(false)), Err(LoginError::InvalidCredentials)));
    assert!(matches!(
        login_outcome(Some(3), Err(PasswordVerifyError::MalformedHash)),
        Err(LoginError::InvalidCredentials)
    ));
    assert!(matches!(login_outcome(None, Ok(true)), Err(LoginError::InvalidCredentials)));
}

#[test]
fn login_errors() {
    let cases = [
        (LoginError::AuthError("x".into()), 401, "Authentication failed"),
        (LoginError::DatabaseError("x".into()), 500, "Database error occurred"),
        (LoginError::InvalidCredentials, 401, "Invalid email or password"),
        (
            LoginError::TokenError("x".into()),
            500,
            "A database failure was encountered while trying to store a authentication token.",
        ),
        (LoginError::UnexpectedError("x".into()), 500, "something went wrong"),
    ];
    for (e, status, message) in cases {
        assert_eq!(e.status_code(), status);
        assert_eq!(e.message(), message);
    }
}

#[test]
fn logout_decisions() {
    assert_eq!(logout_token(true, Some("Bearer abc")).unwrap(), "abc");
    // Only one prefix is removed and nothing is trimmed.
    assert_eq!(logout_token(true, Some("Bearer Bearer abc ")).unwrap(), "Bearer abc ");
    assert_eq!(logout_token(true, Some("Bearer ")).unwrap(), "");
    assert!(matches!(logout_token(false, Some("Bearer abc")), Err(LogoutError::UserNotFound)));
    assert!(matches!(logout_token(true, None), Err(LogoutError::InvalidToken)));
    assert!(matches!(logout_token(true, Some("Basic abc")), Err(LogoutError::InvalidToken)));
    assert_eq!(LogoutError::UserNotFound.status_code(), 401);
    assert_eq!(LogoutError::UserNotFound.message(), "Not authenticated");
    assert_eq!(LogoutError::InvalidToken.status_code(), 401);
    assert_eq!(LogoutError::InvalidToken.message(), "Missing or invalid token");
    let e = LogoutError::DatabaseError("gone".into());
    assert_eq!(e.status_code(), 500);
    assert_eq!(e.message(), "Database error: gone");
    assert_eq!(logout_redirect(), "/v1/api");
}

#[test]
fn password_reset_decisions() {
    let u = UserRecord { id: 8, email: "a@b.c".into(), first_name: "A".into() };
    assert_eq!(reset_requester(Some(u)).unwrap().id, 8);
    assert!(matches!(reset_requester(None), Err(PasswordResetError::EmailNotFound)));
    assert!(check_activated(Some(true)).is_ok());
    assert!(matches!(check_activated(Some(false)), Err(PasswordResetError::UserNotActivated)));
    assert!(matches!(check_activated(None), Err(PasswordResetError::EmailNotFound)));
    assert_eq!(reset_token_owner(Some(8)).unwrap(), 8);
    assert!(matches!(reset_token_owner(None), Err(PasswordResetError::InvalidToken)));
    // The new password is hashed as given, without the sign-up rules.
    let p = new_password_hash("weak").unwrap();
    assert_eq!(p.plaintext_password, "weak");
    let hash = String::from_utf8(p.hashed_password).unwrap();
    assert!(hash.starts_with("$argon2id$v=19$"));
    assert_eq!(
        chat_app::domain::subscriber_password::SubscriberPassword::verify_password(b"weak", hash),
        Ok(true)
    );
}

#[test]
fn password_reset_errors() {
    let cases = [
        (PasswordResetError::PoolConnectionFailed("x".into()), 500, "Failed to acquire a Postgres connection from the pool"),
        (PasswordResetError::EmailNotFound, 404, "Email not found"),
        (PasswordResetError::EmailSendFailed("x".into()), 500, "Failed to send password reset email"),
        (PasswordResetError::UserNotActivated, 403, "User account not activated cannot reset password"),
        (PasswordResetError::EmailClientCreationFailed("x".into()), 500, "Failed to create email client"),
        (PasswordResetError::InvalidToken, 400, "Invalid or expired token"),
        (PasswordResetError::StoreTokenFailed("x".into()), 500, "failed to insert token in database"),
    ];
    for (e, status, message) in cases {
        assert_eq!(e.status_code(), status);
        assert_eq!(e.message(), message);
    }
}

#[test]
fn sign_up_errors() {
    let cases = [
        (SignUpError::EmailConflict, 409, "An account with this email already exists."),
        (SignUpError::PoolConnectionFailed("x".into()), 500, "Failed to acquire a Postgres connection from the pool"),
        (SignUpError::TransactionCommitFailed("x".into()), 500, "Failed to commit SQL transaction to store a new subscriber."),
        (SignUpError::UserInsertionFailed("x".into()), 500, "Failed to execute subscriber insertion query"),
        (SignUpError::ValidationError("bad".into()), 400, "validating user bad"),
    ];
    for (e, status, message) in cases {
        assert_eq!(e.status_code(), status);
        assert_eq!(e.message(), message);
    }
    assert!(matches!(insertion_failure(true, "dup".into()), SignUpError::EmailConflict));
    match insertion_failure(false, "io".into()) {
        SignUpError::UserInsertionFailed(m) => assert_eq!(m, "io"),
        other => panic!("unexpected {:?}", other),
    }
    match email_client_failure("no env") {
        SignUpError::ValidationError(m) => assert_eq!(m, "Failed to create email client: no env"),
        other => panic!("unexpected {:?}", other),
    }
    assert_eq!(
        sign_up_confirmation(),
        "User created Successfully please check your email to activate your account"
    );
}

#[test]
fn activation_decisions() {
    assert_eq!(activation_token_owner(Some(2)).unwrap(), 2);
    assert!(matches!(activation_token_owner(None), Err(ActivateUserError::InvalidToken)));
    assert_eq!(ActivateUserError::InvalidToken.message(), "Invalid or expired activation token.");
    assert_eq!(
        ActivateUserError::UserActivationFailed("x".into()).message(),
        "Failed to execute SQL query to activate user account."
    );
    assert_eq!(
        ActivateUserError::PoolConnectionFailed("x".into()).message(),
        "Failed to acquire a Postgres connection from the pool"
    );
}

#[test]
fn oauth_url_and_callback() {
    assert_eq!(
        google_auth_url("cid", "https://app/cb", "st4te", "chal"),
        "https://accounts.google.com/o/oauth2/v2/auth?client_id=cid&redirect_uri=https://app/cb&response_type=code&state=st4te&scope=openid%20email%20profile&code_challenge=chal&code_challenge_method=S256"
    );
    let rejected = CallbackParams { code: "c".into(), state: Some("s".into()), error: Some("access_denied".into()) };
    match callback_state(&rejected) {
        Err(OauthError::BadRequest(m)) => assert_eq!(m, "Auth rejected access_denied"),
        other => panic!("unexpected {:?}", other),
    }
    let no_state = CallbackParams { code: "c".into(), state: None, error: None };
    match callback_state(&no_state) {
        Err(OauthError::BadRequest(m)) => assert_eq!(m, "Invalid state parameter"),
        other => panic!("unexpected {:?}", other),
    }
    let good = CallbackParams { code: "c".into(), state: Some("s".into()), error: None };
    assert_eq!(callback_state(&good).unwrap(), "s");
    assert_eq!(stored_verifier(Some("v".into())).unwrap(), "v");
    match stored_verifier(None) {
        Err(OauthError::BadRequest(m)) => assert_eq!(m, "Invalid or expired state"),
        other => panic!("unexpected {:?}", other),
    }
    assert_eq!(require_email(Some("a@b.c".into())).unwrap(), "a@b.c");
    match require_email(None) {
        Err(OauthError::BadRequest(m)) => assert_eq!(m, "Google did not return an email"),
        other => panic!("unexpected {:?}", other),
    }
}

#[test]
fn oauth_errors() {
    let e = step_failure(OauthStep::TokenExchange, "timeout");
    assert_eq!(e.status_code(), 500);
    assert_eq!(e.message(), "Token error: Token Exchange failed timeout");
    let e = step_failure(OauthStep::StoreState, "x");
    assert_eq!(e.message(), "Unexpected error: Failed to store state: x");
    let e = step_failure(OauthStep::VerifyState, "x");
    assert_eq!(e.message(), "Unexpected error: x");
    let e = step_failure(OauthStep::TokenResponse, "eof");
    assert_eq!(e.message(), "Token error: Failed to parse token response eof");
    let e = step_failure(OauthStep::UserInfoRequest, "x");
    assert_eq!(e.message(), "Unexpected error: Failed to get user info: x");
    let e = step_failure(OauthStep::UserInfoResponse, "x");
    assert_eq!(e.message(), "Unexpected error: Failed to parse user info response x");
    let e = step_failure(OauthStep::FindOrCreateUser, "x");
    assert_eq!(e.message(), "Unexpected error: DB error: x");
    let e = step_failure(OauthStep::BeginTransaction, "x");
    assert_eq!(e.message(), "Unexpected error: Failed to start DB transaction: x");
    let e = step_failure(OauthStep::StoreToken, "x");
    assert_eq!(e.message(), "Unexpected error: Failed to store token: x");
    let e = step_failure(OauthStep::Commit, "x");
    assert_eq!(e.status_code(), 500);
    assert_eq!(e.message(), "Database error: x");
    let e = OauthError::BadRequest("y".into());
    assert_eq!(e.status_code(), 400);
    assert_eq!(e.message(), "Auth error occured: y");
}

#[test]
fn oauth_account_choice() {
    assert_eq!(oauth_account(Some(1), Some(2)), OauthAccount::Linked(1));
    assert_eq!(oauth_account(None, Some(2)), OauthAccount::LinkToExisting(2));
    assert_eq!(oauth_account(None, None), OauthAccount::CreateNew);
}

#[test]
fn new_password_hash_needs_a_full_salt_draw() {
    let p = new_password_hash_with_salt("weak", Some(vec![7u8; 16])).unwrap();
    let hash = String::from_utf8(p.hashed_password).unwrap();
    assert!(hash.starts_with("$argon2id$v=19$m=19456,t=2,p=1$BwcHBwcHBwcHBwcHBwcHBw$"));
    for salt in [None, Some(vec![7u8; 15]), Some(vec![7u8; 17])] {
        match new_password_hash_with_salt("weak", salt) {
            Err(PasswordResetError::StoreTokenFailed(m)) => assert_eq!(m, "Failed to update password"),
            other => panic!("unexpected {:?}", other.map(|p| p.plaintext_password)),
        }
    }
}

#[test]
fn oauth_state_lives_until_its_expiry() {
    assert_eq!(live_state_verifier(Some(("v".to_string(), 1_000)), 999), Some("v".to_string()));
    assert_eq!(live_state_verifier(Some(("v".to_string(), 1_000)), 1_000), None);
    assert_eq!(live_state_verifier(Some(("v".to_string(), 1_000)), 1_500), None);
    assert_eq!(live_state_verifier(None, 0), None);
}
