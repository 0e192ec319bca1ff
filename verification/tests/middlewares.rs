use chat_app::middlewares::auth::{authorize, bearer_token, token_lookup_key, AuthError};
use chat_app::middlewares::rate_limit::{IpAddress, KeySource, ParsedAddress, RealIpKeyExtractor};
use chat_app::middlewares::socket_auth::{
    socket_authorize, socket_lookup_key, token_from_query, SocketAuthError,
};
use chat_app::utils::tokens::Token;

fn token_of(header: Option<&str>) -> Option<String> {
    bearer_token(header).ok()
}

#[test]
fn bearer_header_yields_its_token() {
    assert_eq!(token_of(Some("Bearer abc123")), Some("abc123".to_string()));
    assert_eq!(token_of(Some("Bearer   abc123  ")), Some("abc123".to_string()));
    assert_eq!(token_of(Some("Bearer Bearer abc")), Some("abc".to_string()));
    assert_eq!(token_of(Some("Bearer a b")), Some("a b".to_string()));
}

#[test]
fn bearer_header_refusals() {
    assert!(matches!(bearer_token(None), Err(AuthError::Unauthorized)));
    assert!(matches!(bearer_token(Some("")), Err(AuthError::Unauthorized)));
    assert!(matches!(bearer_token(Some("Basic abc")), Err(AuthError::Unauthorized)));
    assert!(matches!(bearer_token(Some("bearer abc")), Err(AuthError::Unauthorized)));
    assert!(matches!(bearer_token(Some("Bearer ")), Err(AuthError::Unauthorized)));
    assert!(matches!(bearer_token(Some("Bearer    ")), Err(AuthError::Unauthorized)));
    assert!(matches!(bearer_token(Some("Bearer Bearer ")), Err(AuthError::Unauthorized)));
    assert!(matches!(bearer_token(Some("Bearerabc")), Err(AuthError::Unauthorized)));
}

#[test]
fn auth_error_responses() {
    assert_eq!(AuthError::Unauthorized.status_code(), 401);
    assert_eq!(AuthError::Unauthorized.www_authenticate(), Some("Bearer"));
    assert_eq!(AuthError::Unauthorized.message(), "invalid or missing authentication token");
    let e = AuthError::from_db_error("pool timed out".to_string());
    assert_eq!(e.status_code(), 500);
    assert_eq!(e.www_authenticate(), None);
    assert_eq!(e.message(), "unexpected error: pool timed out");
}

#[test]
fn lookup_key_is_the_digest_bytes() {
    let expected: [u8; 32] = [
        0xba, 0x78, 0x16, 0xbf, 0x8f, 0x01, 0xcf, 0xea, 0x41, 0x41, 0x40, 0xde, 0x5d, 0xae, 0x22,
        0x23, 0xb0, 0x03, 0x61, 0xa3, 0x96, 0x17, 0x7a, 0x9c, 0xb4, 0x10, 0xff, 0x61, 0xf2, 0x00,
        0x15, 0xad,
    ];
    assert_eq!(token_lookup_key("abc"), expected.to_vec());
    assert_eq!(socket_lookup_key("abc"), expected.to_vec());
    for t in ["", "a", "token", "0123456789", "x-y_z"] {
        assert_eq!(token_lookup_key(t), Token::hash_token(t));
        assert_eq!(socket_lookup_key(t), Token::hash_token(t));
    }
}

#[test]
fn issued_token_is_found_by_its_lookup_key() {
    let t = Token::new(5, "authentication", 2_000).unwrap();
    assert_eq!(token_lookup_key(&t.plaintext), t.hash);
    assert_eq!(socket_lookup_key(&t.plaintext), t.hash);
}

#[test]
fn authorize_follows_the_lookup() {
    assert!(authorize(true).is_ok());
    assert!(matches!(authorize(false), Err(AuthError::Unauthorized)));
    assert_eq!(socket_authorize(Ok(true)), Ok(()));
    assert_eq!(socket_authorize(Ok(false)), Err(SocketAuthError::InvalidToken));
    assert_eq!(socket_authorize(Err(())), Err(SocketAuthError::InvalidToken));
}

#[test]
fn query_token_is_the_last_non_empty_token() {
    assert_eq!(token_from_query("token=abc"), "abc");
    assert_eq!(token_from_query("a=1&token=abc&b=2"), "abc");
    assert_eq!(token_from_query("token=abc&token=def"), "def");
    assert_eq!(token_from_query("token=abc&token="), "abc");
    assert_eq!(token_from_query("token=a=b"), "a=b");
    assert_eq!(token_from_query("tokenabc"), "");
    assert_eq!(token_from_query("&&token&=x"), "");
    assert_eq!(token_from_query(""), "");
    assert_eq!(token_from_query("Token=abc"), "");
}

#[test]
fn socket_errors() {
    assert_eq!(SocketAuthError::PoolNotFound.status_code(), 500);
    assert_eq!(SocketAuthError::PoolNotFound.message(), "database pool not found.");
    assert_eq!(SocketAuthError::InvalidToken.status_code(), 401);
    assert_eq!(SocketAuthError::InvalidToken.message(), "Invalid token");
}

#[test]
fn key_source_trusts_only_the_proxy() {
    let x = RealIpKeyExtractor;
    let proxy = IpAddress::V4(0x0a00_0001);
    let other = IpAddress::V4(0x0a00_0002);
    assert_eq!(x.key_source(Some(proxy), Some(proxy)), KeySource::ForwardedRealIp);
    assert_eq!(x.key_source(Some(proxy), Some(other)), KeySource::PeerAddress);
    assert_eq!(x.key_source(Some(proxy), None), KeySource::PeerAddress);
    assert_eq!(x.key_source(None, Some(IpAddress::V4(0))), KeySource::ForwardedRealIp);
    assert_eq!(x.key_source(None, Some(IpAddress::V6(0))), KeySource::PeerAddress);
}

#[test]
fn resolve_key_by_source() {
    let x = RealIpKeyExtractor;
    let a = IpAddress::V4(1);
    let b = IpAddress::V6(2);
    let both = ParsedAddress { socket_ip: Some(a), plain_ip: Some(b) };
    let plain = ParsedAddress { socket_ip: None, plain_ip: Some(b) };
    let neither = ParsedAddress { socket_ip: None, plain_ip: None };
    assert_eq!(x.resolve_key(KeySource::ForwardedRealIp, Some(both)), Ok(a));
    assert_eq!(x.resolve_key(KeySource::ForwardedRealIp, Some(plain)), Ok(b));
    assert_eq!(
        x.resolve_key(KeySource::ForwardedRealIp, Some(neither)),
        Err("Could not extract real IP address from request")
    );
    assert_eq!(
        x.resolve_key(KeySource::ForwardedRealIp, None),
        Err("Could not extract real IP address from request")
    );
    assert_eq!(x.resolve_key(KeySource::PeerAddress, Some(both)), Ok(a));
    assert_eq!(
        x.resolve_key(KeySource::PeerAddress, Some(plain)),
        Err("Could not extract peer IP address from request")
    );
    assert_eq!(
        x.resolve_key(KeySource::PeerAddress, None),
        Err("Could not extract peer IP address from request")
    );
}

#[test]
fn rate_limit_body_names_the_wait() {
    let x = RealIpKeyExtractor;
    assert_eq!(
        x.exceed_rate_limit_body(0),
        r#"{"code":429, "error": "TooManyRequests", "message": "Too Many Requests", "after": 0}"#
    );
    assert_eq!(
        x.exceed_rate_limit_body(1207),
        r#"{"code":429, "error": "TooManyRequests", "message": "Too Many Requests", "after": 1207}"#
    );
    let wait = u64::MAX;
    assert_eq!(
        x.exceed_rate_limit_body(wait),
        format!(
            r#"{{"code":429, "error": "TooManyRequests", "message": "Too Many Requests", "after": {wait}}}"#
        )
    );
}
