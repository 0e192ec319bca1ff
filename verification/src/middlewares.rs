//! Decisions of the authentication and rate-limiting middlewares.

pub mod auth;
pub mod socket_auth;
pub mod rate_limit;
