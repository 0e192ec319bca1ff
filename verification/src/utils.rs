//! Tokens, PKCE challenges and e-mail text.

pub mod oauth_utils;
pub mod tokens;
pub mod email;
