//! Decisions of the account routes: sign-up, activation, login, logout and
//! password reset.

pub mod home;
pub mod login;
pub mod logout;
pub mod password;
pub mod signup;
