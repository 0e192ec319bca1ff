use chat_app::utils::email::render_template;
use chat_app::utils::tokens::{
    bytes_eq, expiry_after, token_is_valid, Token, ACTIVATION_SCOPE, AUTHENTICATION_SCOPE, PASSWORD_RESET_SCOPE,
    SESSION_LIFETIME_SECS, TOKEN_LENGTH,
};

#[test]
fn generated_token_is_25_alphanumerics() {
    let t = Token::generate_token().unwrap();
    assert_eq!(t.len(), TOKEN_LENGTH);
    assert_eq!(TOKEN_LENGTH, 25);
    assert!(t.chars().all(|c| c.is_ascii_alphanumeric()));
}

#[test]
fn hash_token_is_sha256() {
    let h = Token::hash_token("abc");
    let expected: [u8; 32] = [
        0xba, 0x78, 0x16, 0xbf, 0x8f, 0x01, 0xcf, 0xea, 0x41, 0x41, 0x40, 0xde, 0x5d, 0xae, 0x22,
        0x23, 0xb0, 0x03, 0x61, 0xa3, 0x96, 0x17, 0x7a, 0x9c, 0xb4, 0x10, 0xff, 0x61, 0xf2, 0x00,
        0x15, 0xad,
    ];
    assert_eq!(h, expected.to_vec());
    assert_ne!(Token::hash_token("abd"), h);
}

#[test]
fn new_token_stores_the_hash_of_its_plaintext() {
    let t = Token::new(7, AUTHENTICATION_SCOPE, 1_700_000_000).unwrap();
    assert_eq!(t.user_id, 7);
    assert_eq!(t.scope, "authentication");
    assert_eq!(t.expiry, 1_700_000_000);
    assert_eq!(t.hash, Token::hash_token(&t.plaintext));
    assert_eq!(t.hash.len(), 32);
}

#[test]
fn scopes_and_lifetimes() {
    assert_eq!(ACTIVATION_SCOPE, "activation");
    assert_eq!(PASSWORD_RESET_SCOPE, "password-reset");
    assert_eq!(expiry_after(1_000, SESSION_LIFETIME_SECS), Some(87_400));
    assert_eq!(expiry_after(i64::MAX - 10, 11), None);
    assert_eq!(expiry_after(i64::MIN, -1), None);
}

#[test]
fn template_placeholders_are_replaced() {
    assert_eq!(
        render_template("Hi, use {{token}} now. Again: {{token}}.", "T0K3N"),
        "Hi, use T0K3N now. Again: T0K3N."
    );
    assert_eq!(render_template("no placeholder here", "x"), "no placeholder here");
    assert_eq!(render_template("{{token}}", ""), "");
    assert_eq!(render_template("{{{token}}}", "v"), "{v}");
    assert_eq!(render_template("{{tok{{token}}", "v"), "{{tokv");
    assert_eq!(render_template("", "v"), "");
}

#[test]
fn from_plaintext_hashes_the_given_text() {
    let t = Token::from_plaintext(9, ACTIVATION_SCOPE, 50, "abc".to_string());
    assert_eq!(t.user_id, 9);
    assert_eq!(t.scope, "activation");
    assert_eq!(t.expiry, 50);
    assert_eq!(t.plaintext, "abc");
    assert_eq!(t.hash, Token::hash_token("abc"));
}

#[test]
fn generated_tokens_differ() {
    let a = Token::generate_token().unwrap();
    let b = Token::generate_token().unwrap();
    assert_ne!(a, b);
}

#[test]
fn token_validity_needs_hash_scope_and_time() {
    let t = Token::from_plaintext(1, AUTHENTICATION_SCOPE, 1_000, "tok".to_string());
    let key = Token::hash_token("tok");
    assert!(token_is_valid(&t.hash, &t.scope, t.expiry, &key, AUTHENTICATION_SCOPE, 999));
    // Expired: at or after the expiry.
    assert!(!token_is_valid(&t.hash, &t.scope, t.expiry, &key, AUTHENTICATION_SCOPE, 1_000));
    assert!(!token_is_valid(&t.hash, &t.scope, t.expiry, &key, AUTHENTICATION_SCOPE, 5_000));
    // Another scope.
    assert!(!token_is_valid(&t.hash, &t.scope, t.expiry, &key, PASSWORD_RESET_SCOPE, 999));
    // Another token.
    let other = Token::hash_token("tok2");
    assert!(!token_is_valid(&t.hash, &t.scope, t.expiry, &other, AUTHENTICATION_SCOPE, 999));
}

#[test]
fn byte_strings_compare_by_content() {
    assert!(bytes_eq(b"", b""));
    assert!(bytes_eq(b"abc", b"abc"));
    assert!(!bytes_eq(b"abc", b"abd"));
    assert!(!bytes_eq(b"abc", b"ab"));
}

#[test]
fn token_from_bytes_spells_the_bytes() {
    let bytes = b"ABCDEFGHIJKLMNOPQRSTUVWXY";
    assert_eq!(Token::token_from_bytes(bytes), "ABCDEFGHIJKLMNOPQRSTUVWXY");
    let bytes = b"a1b2c3d4e5f6g7h8i9j0kLmNo";
    assert_eq!(Token::token_from_bytes(bytes), "a1b2c3d4e5f6g7h8i9j0kLmNo");
}
