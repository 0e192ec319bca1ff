//! A sign-up request that passed validation.

use vstd::prelude::*;
use crate::crypto::{draw_salt, SALT_BYTES};
use crate::domain::subscriber_password::{
    hashing_failed_message, is_salt_draw, password_violation, stored_with_salt, SubscriberPassword,
};

verus! {

/// The sign-up form as submitted.
#[derive(Debug)]
pub struct FormSignUpData {
    pub email: String,
    pub first_name: String,
    pub last_name: String,
    pub password: String,
}

/// A new subscriber: its e-mail and names, and its hashed password.
#[derive(Debug)]
pub struct NewSubscriber {
    pub email: String,
    pub first_name: String,
    pub last_name: String,
    pub password: SubscriberPassword,
}

/// The subscriber built from a form whose password was hashed into
/// `password`: the e-mail and names are kept as given.
pub open spec fn built_from(s: NewSubscriber, form: FormSignUpData) -> bool {
    &&& s.email@ == form.email@
    &&& s.first_name@ == form.first_name@
    &&& s.last_name@ == form.last_name@
    &&& s.password.plaintext_password@ == form.password@
    &&& s.password.hashes(form.password@)
}

impl NewSubscriber {
    /// Builds a subscriber from the form: the password must pass the
    /// password rules and is hashed with a salt drawn from the operating
    /// system (`draw_salt`); the e-mail and names are kept as given. A password that
    /// passes the rules is refused only when that draw fails (see
    /// `try_from_form_with_salt`).
    pub fn try_from_form(form: FormSignUpData) -> (r: Result<NewSubscriber, String>)
        ensures
            password_violation(form.password@) matches Some(msg) ==> (r matches Err(e) && e@ == msg),
            password_violation(form.password@) is None ==> match r {
                Ok(s) => built_from(s, form),
                Err(e) => e@ == hashing_failed_message(),
            },
    {
        let salt = draw_salt();
        NewSubscriber::try_from_form_with_salt(form, salt)
    }

    /// `try_from_form` for a given draw of salt bytes: a form whose
    /// password passes the rules gives a subscriber exactly when the draw
    /// holds `SALT_BYTES` bytes.
    pub fn try_from_form_with_salt(form: FormSignUpData, salt: Option<Vec<u8>>) -> (r: Result<NewSubscriber, String>)
        ensures
            password_violation(form.password@) matches Some(msg) ==> (r matches Err(e) && e@ == msg),
            password_violation(form.password@) is None ==> (is_salt_draw(salt) <==> r is Ok),
            password_violation(form.password@) is None && !is_salt_draw(salt) ==> (r matches Err(e)
                && e@ == hashing_failed_message()),
            r matches Ok(s) ==> built_from(s, form),
            r matches Ok(s) ==> stored_with_salt(s.password, form.password@, salt),
    {
        let FormSignUpData { email, first_name, last_name, password } = form;
        let password = SubscriberPassword::parse_with_salt(password, salt)?;
        Ok(NewSubscriber { email, first_name, last_name, password })
    }
}

} // verus!
