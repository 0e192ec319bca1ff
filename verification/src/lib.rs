//! Verified core of a chat application backend: credential rules, token
//! handling, request parsing and the decisions its handlers make.

pub mod text;
pub mod crypto;
pub mod domain;
pub mod random;
pub mod utils;
pub mod handlers;
pub mod middlewares;
pub mod oauth;
pub mod oauth_tables;
pub mod routes;
