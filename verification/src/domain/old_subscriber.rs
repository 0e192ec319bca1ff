//! The credentials of a returning subscriber.

use vstd::prelude::*;
use crate::domain::subscriber_password::SubscriberPassword;

verus! {

/// An e-mail and a password that passed the password rules.
#[derive(Debug)]
pub struct LoginCredentials {
    pub email: String,
    pub password: SubscriberPassword,
}

} // verus!
