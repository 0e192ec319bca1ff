//! Opaque bearer tokens: a random plaintext handed to the client and its
//! SHA-256 hash, which is what gets stored.

use vstd::prelude::*;
use crate::crypto::{sha256, sha256_digest, utf8_bytes};
use crate::random::{is_ascii_alphanumeric_byte, os_seeded_rng, sample_alphanumeric};
use crate::text::{chars_eq, chars_of, push_char};

verus! {

/// Scope of a session token.
pub const AUTHENTICATION_SCOPE: &'static str = "authentication";

/// Scope of an account-activation token.
pub const ACTIVATION_SCOPE: &'static str = "activation";

/// Scope of a password-reset token.
pub const PASSWORD_RESET_SCOPE: &'static str = "password-reset";

/// Lifetime of a session token, in seconds (24 hours).
pub const SESSION_LIFETIME_SECS: i64 = 86400;

/// Lifetime of an activation token, in seconds (24 hours).
pub const ACTIVATION_LIFETIME_SECS: i64 = 86400;

/// Lifetime of a password-reset token, in seconds (30 minutes).
pub const PASSWORD_RESET_LIFETIME_SECS: i64 = 1800;

/// Lifetime of a stored OAuth state, in seconds (10 minutes).
pub const OAUTH_STATE_LIFETIME_SECS: i64 = 600;

/// The expiry of something created at `now` that lives `lifetime` seconds;
/// `None` when the time does not fit.
pub fn expiry_after(now: i64, lifetime: i64) -> (r: Option<i64>)
    ensures
        match r {
            Some(t) => t == now + lifetime,
            None => now + lifetime > i64::MAX || now + lifetime < i64::MIN,
        },
{
    now.checked_add(lifetime)
}

/// Number of characters in a generated token.
pub const TOKEN_LENGTH: usize = 25;

/// An ASCII letter or digit.
pub open spec fn is_ascii_alphanumeric_char(c: char) -> bool {
    ('A' <= c <= 'Z') || ('a' <= c <= 'z') || ('0' <= c <= '9')
}

/// A freshly generated token: `TOKEN_LENGTH` ASCII letters and digits.
pub open spec fn is_token_text(t: Seq<char>) -> bool {
    &&& t.len() == TOKEN_LENGTH
    &&& forall|i: int| 0 <= i < t.len() ==> is_ascii_alphanumeric_char(#[trigger] t[i])
}

/// The stored form of a token: the SHA-256 digest of its UTF-8 bytes.
pub open spec fn token_hash(t: Seq<char>) -> Seq<u8> {
    sha256_digest(utf8_bytes(t))
}

/// A token issued to a user for one scope ("authentication", "activation",
/// "password-reset"). The user is identified by the 128-bit value of its
/// UUID; the expiry is a Unix timestamp in seconds (UTC).
pub struct Token {
    pub hash: Vec<u8>,
    pub expiry: i64,
    pub scope: String,
    pub user_id: u128,
    pub plaintext: String,
}

impl Token {
    /// A token for `user_id` and `scope`, expiring at `expiry`, whose hash
    /// is the hash of its freshly generated plaintext. `None` is returned
    /// exactly when `generate_token` returns `None` (the seeding failed),
    /// which the contract cannot state; `from_plaintext` states the token
    /// for every plaintext.
    pub fn new(user_id: u128, scope: &str, expiry: i64) -> (r: Option<Token>)
        ensures
            r matches Some(t) ==> {
                &&& t.user_id == user_id
                &&& t.scope@ == scope@
                &&& t.expiry == expiry
                &&& is_token_text(t.plaintext@)
                &&& t.hash@ == token_hash(t.plaintext@)
            },
    {
        match Token::generate_token() {
            Some(plaintext) => Some(Token::from_plaintext(user_id, scope, expiry, plaintext)),
            None => None,
        }
    }

    /// The token with a given plaintext: its hash is the plaintext's hash.
    pub fn from_plaintext(user_id: u128, scope: &str, expiry: i64, plaintext: String) -> (r: Token)
        ensures
            r.user_id == user_id,
            r.scope@ == scope@,
            r.expiry == expiry,
            r.plaintext@ == plaintext@,
            r.hash@ == token_hash(plaintext@),
    {
        let hash = Token::hash_token(plaintext.as_str());
        Token { hash, expiry, scope: scope.to_owned(), user_id, plaintext }
    }

    /// A random token of `TOKEN_LENGTH` ASCII letters and digits, drawn from
    /// a generator seeded by the operating system. `None` when seeding the
    /// generator fails; the drawn characters become the token as
    /// `token_from_bytes` states.
    pub fn generate_token() -> (r: Option<String>)
        ensures
            r matches Some(t) ==> is_token_text(t@),
    {
        let mut rng = match os_seeded_rng() {
            Some(rng) => rng,
            None => return None,
        };
        let mut bytes: Vec<u8> = Vec::new();
        let mut i: usize = 0;
        while i < TOKEN_LENGTH
            invariant
                i <= TOKEN_LENGTH,
                bytes@.len() == i,
                forall|j: int| 0 <= j < i ==> is_ascii_alphanumeric_byte(#[trigger] bytes@[j]),
            decreases TOKEN_LENGTH - i,
        {
            let b = sample_alphanumeric(&mut rng);
            bytes.push(b);
            i = i + 1;
        }
        Some(Token::token_from_bytes(bytes.as_slice()))
    }

    /// The token spelled by `TOKEN_LENGTH` drawn bytes, each an ASCII letter
    /// or digit: each byte becomes the character with that code.
    pub fn token_from_bytes(bytes: &[u8]) -> (r: String)
        requires
            bytes@.len() == TOKEN_LENGTH,
            forall|j: int| 0 <= j < bytes@.len() ==> is_ascii_alphanumeric_byte(#[trigger] bytes@[j]),
        ensures
            r@ == bytes@.map_values(|b: u8| b as char),
            is_token_text(r@),
    {
        let mut r = String::new();
        let mut i: usize = 0;
        while i < bytes.len()
            invariant
                i <= bytes@.len(),
                bytes@.len() == TOKEN_LENGTH,
                forall|j: int| 0 <= j < bytes@.len() ==> is_ascii_alphanumeric_byte(#[trigger] bytes@[j]),
                r@ == bytes@.subrange(0, i as int).map_values(|b: u8| b as char),
                forall|j: int| 0 <= j < i ==> is_ascii_alphanumeric_char(#[trigger] r@[j]),
            decreases bytes@.len() - i,
        {
            let b = bytes[i];
            let c = b as char;
            assert(is_ascii_alphanumeric_char(c)) by {
                assert(is_ascii_alphanumeric_byte(b));
            }
            push_char(&mut r, c);
            assert(bytes@.subrange(0, i + 1).map_values(|b: u8| b as char)
                =~= bytes@.subrange(0, i as int).map_values(|b: u8| b as char).push(c));
            i = i + 1;
        }
        assert(bytes@.subrange(0, bytes@.len() as int) =~= bytes@);
        r
    }

    /// Hash token for storage (raw tokens are never stored).
    pub fn hash_token(token: &str) -> (r: Vec<u8>)
        ensures
            r@ == token_hash(token@),
            r@.len() == 32,
    {
        sha256(token.as_bytes())
    }
}

/// Whether a stored token (its hash, scope and expiry) admits a request
/// that presents the lookup key `key` for `wanted_scope` at time `now`:
/// the hashes are equal, the scopes are equal and the token has not
/// expired (`now` is before its expiry).
pub open spec fn token_admits(
    hash: Seq<u8>,
    scope: Seq<char>,
    expiry: i64,
    key: Seq<u8>,
    wanted_scope: Seq<char>,
    now: i64,
) -> bool {
    &&& hash == key
    &&& scope == wanted_scope
    &&& now < expiry
}

/// Decides whether a stored token admits a presented lookup key for a scope
/// at time `now` (Unix seconds).
pub fn token_is_valid(
    hash: &[u8],
    scope: &str,
    expiry: i64,
    key: &[u8],
    wanted_scope: &str,
    now: i64,
) -> (r: bool)
    ensures
        r == token_admits(hash@, scope@, expiry, key@, wanted_scope@, now),
{
    if !(now < expiry) {
        return false;
    }
    if !bytes_eq(hash, key) {
        return false;
    }
    let a = chars_of(scope);
    let b = chars_of(wanted_scope);
    chars_eq(a.as_slice(), b.as_slice())
}

/// Whether two byte strings are equal.
pub fn bytes_eq(a: &[u8], b: &[u8]) -> (r: bool)
    ensures
        r == (a@ == b@),
{
    if a.len() != b.len() {
        return false;
    }
    let mut k: usize = 0;
    while k < a.len()
        invariant
            k <= a@.len(),
            a@.len() == b@.len(),
            forall|j: int| 0 <= j < k ==> a@[j] == b@[j],
        decreases a@.len() - k,
    {
        if a[k] != b[k] {
            return false;
        }
        k = k + 1;
    }
    assert(a@ =~= b@);
    true
}

/// A token issued for a scope is admitted, for that scope and before its
/// expiry, when its plaintext is presented: the lookup key of the
/// plaintext is the stored hash.
pub proof fn lemma_issued_token_admitted(t: Token, now: i64)
    requires
        t.hash@ == token_hash(t.plaintext@),
        now < t.expiry,
    ensures
        token_admits(t.hash@, t.scope@, t.expiry, token_hash(t.plaintext@), t.scope@, now),
{
}

/// No token is admitted at or after its expiry, whatever is presented.
pub proof fn lemma_expired_token_refused(
    hash: Seq<u8>,
    scope: Seq<char>,
    expiry: i64,
    key: Seq<u8>,
    wanted_scope: Seq<char>,
    now: i64,
)
    requires
        expiry <= now,
    ensures
        !token_admits(hash, scope, expiry, key, wanted_scope, now),
{
}

/// Presenting the plaintext of an issued token reproduces its stored hash,
/// so the hash lookup finds the issued record.
pub proof fn lemma_presented_token_matches(t: Token, presented: Seq<char>)
    requires
        t.hash@ == token_hash(t.plaintext@),
        presented == t.plaintext@,
    ensures
        token_hash(presented) == t.hash@,
{
}

} // verus!
