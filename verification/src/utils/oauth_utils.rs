//! PKCE (RFC 7636) code verifiers and S256 code challenges.

use vstd::prelude::*;
use crate::crypto::{
    base64_nopad_len, base64url_encode, base64url_nopad, is_b64url_char, lemma_base64url_alphabet,
    lemma_base64url_len, sha256, sha256_digest, utf8_bytes,
};
use crate::random::os_random_bytes;

verus! {

/// A PKCE code verifier and its derived code challenge (S256 method).
pub struct PkceChallenge {
    /// The secret random string — keep this; send it to /token.
    pub code_verifier: String,
    /// The SHA-256 derived challenge — send this to /authorize.
    pub code_challenge: String,
    /// Always "S256" — the only method you should use.
    pub code_challenge_method: &'static str,
}

/// The S256 challenge of a verifier: `BASE64URL(SHA256(ASCII(verifier)))`.
pub open spec fn s256_challenge(verifier: Seq<char>) -> Seq<char> {
    base64url_nopad(sha256_digest(utf8_bytes(verifier)))
}

/// A verifier as RFC 7636 section 4.1 wants it: 43 to 128 characters, each
/// unreserved (here only letters, digits, `-` and `_` occur).
pub open spec fn is_valid_verifier(v: Seq<char>) -> bool {
    &&& 43 <= v.len() <= 128
    &&& forall|i: int| 0 <= i < v.len() ==> is_b64url_char(#[trigger] v[i])
}

impl PkceChallenge {
    /// The challenge is derived from the verifier (43 characters) and the
    /// method is S256.
    pub open spec fn is_derived(self) -> bool {
        &&& self.code_challenge@ == s256_challenge(self.code_verifier@)
        &&& self.code_challenge@.len() == 43
        &&& self.code_challenge_method@ == "S256"@
    }

    /// Generate a fresh PKCE pair from 32 bytes drawn from the operating
    /// system. `None` is returned exactly when that draw returns `None`,
    /// which the contract cannot state; `from_verifier_bytes` states the
    /// pair for every drawn value.
    pub fn new() -> (r: Option<Self>)
        ensures
            r matches Some(p) ==> {
                &&& p.is_derived()
                &&& is_valid_verifier(p.code_verifier@)
                &&& exists|b: Seq<u8>| b.len() == 32 && p.code_verifier@ == base64url_nopad(b)
            },
    {
        match os_random_bytes(32) {
            Some(bytes) => Some(PkceChallenge::from_verifier_bytes(&bytes)),
            None => None,
        }
    }

    /// The pair whose verifier is the unpadded URL-safe base64 of `bytes`.
    pub fn from_verifier_bytes(bytes: &[u8]) -> (r: Self)
        requires
            base64_nopad_len(bytes@.len()) <= usize::MAX,
        ensures
            r.code_verifier@ == base64url_nopad(bytes@),
            r.is_derived(),
            bytes@.len() == 32 ==> is_valid_verifier(r.code_verifier@),
    {
        let verifier = base64url_encode(bytes);
        proof {
            lemma_base64url_len(bytes@);
            lemma_base64url_alphabet(bytes@);
        }
        let challenge = derive_challenge(verifier.as_str());
        PkceChallenge {
            code_verifier: verifier,
            code_challenge: challenge,
            code_challenge_method: "S256",
        }
    }

    /// Verify that a given verifier matches this challenge.
    pub fn verify(&self, verifier: &str) -> (r: bool)
        ensures
            r == (s256_challenge(verifier@) == self.code_challenge@),
    {
        let derived = derive_challenge(verifier);
        derived == self.code_challenge
    }
}

/// Derive the S256 code challenge from a verifier: 43 characters, the
/// unpadded base64url text of a 32-byte digest.
pub fn derive_challenge(verifier: &str) -> (r: String)
    ensures
        r@ == s256_challenge(verifier@),
        r@.len() == 43,
{
    let digest = sha256(verifier.as_bytes());
    proof {
        lemma_base64url_len(digest@);
    }
    base64url_encode(digest.as_slice())
}

/// A challenge derived from a verifier accepts that verifier: `verify` on
/// the pair's own verifier returns `true`.
pub proof fn lemma_derived_pair_verifies(p: PkceChallenge)
    requires
        p.is_derived(),
    ensures
        s256_challenge(p.code_verifier@) == p.code_challenge@,
{
}

} // verus!
