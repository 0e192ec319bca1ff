//! Password rules and Argon2 password hashes.

use vstd::prelude::*;
use vstd::utf8::*;
use crate::crypto::{
    argon2_accepts, argon2_hash, argon2_phc, argon2_verify, base64_nopad, is_argon2id_v19_phc, phc_parses, salt_from_bytes,
    draw_salt, utf8_bytes, SALT_BYTES,
};
use crate::text::{char_is_alphanumeric, char_is_uppercase, chars_of, is_alphanumeric, is_uppercase};

verus! {

broadcast use encode_utf8_decode_utf8, encode_utf8_valid_utf8;

/// Fewest bytes a password may have.
pub const MIN_PASSWORD_BYTES: usize = 7;

/// Most bytes a password may have.
pub const MAX_PASSWORD_BYTES: usize = 32;

/// A password that passed the rules, with its Argon2 PHC hash string as bytes.
#[derive(Debug)]
pub struct SubscriberPassword {
    pub hashed_password: Vec<u8>,
    pub plaintext_password: String,
}

/// Why a password can be refused.
#[derive(Debug, Clone, Copy, PartialEq, Eq)]
pub enum PasswordVerifyError {
    /// The stored hash is not a PHC string that the hasher can read.
    MalformedHash,
}

/// Some character is upper case (`char::is_uppercase`).
pub open spec fn has_uppercase(pw: Seq<char>) -> bool {
    exists|i: int| 0 <= i < pw.len() && char_is_uppercase(#[trigger] pw[i])
}

/// Some character is neither alphabetic nor numeric
/// (`!char::is_alphanumeric`).
pub open spec fn has_special_character(pw: Seq<char>) -> bool {
    exists|i: int| 0 <= i < pw.len() && !char_is_alphanumeric(#[trigger] pw[i])
}

/// The message that refuses `pw`, or `None` when `pw` passes every rule.
/// The rules are checked in this order: not empty; between
/// `MIN_PASSWORD_BYTES` and `MAX_PASSWORD_BYTES` bytes of UTF-8; at least one
/// uppercase character and at least one special character.
pub open spec fn password_violation(pw: Seq<char>) -> Option<Seq<char>> {
    if pw.len() == 0 {
        Some("Password cannot be empty"@)
    } else if utf8_bytes(pw).len() < MIN_PASSWORD_BYTES || utf8_bytes(pw).len() > MAX_PASSWORD_BYTES {
        Some("Password must be at most 32 characters and at least 8 characters long"@)
    } else if !has_uppercase(pw) || !has_special_character(pw) {
        Some("Password must contain atleast one special character and uppercase character"@)
    } else {
        None
    }
}

/// The stored form of `plaintext` hashed with the salt made of
/// `salt_bytes`: the UTF-8 bytes of the Argon2 PHC string of the password's
/// bytes under the salt text (unpadded standard base64 of the bytes).
pub open spec fn salted_hash(plaintext: Seq<char>, salt_bytes: Seq<u8>) -> Seq<u8> {
    utf8_bytes(argon2_phc(utf8_bytes(plaintext), base64_nopad(salt_bytes, false)))
}

/// A password stored from `plaintext` with exactly the drawn salt.
pub open spec fn stored_with_salt(p: SubscriberPassword, plaintext: Seq<char>, salt: Option<Vec<u8>>) -> bool {
    salt matches Some(b) && p.hashed_password@ == salted_hash(plaintext, b@)
}

/// A draw of salt bytes that can be used: it succeeded and holds
/// `SALT_BYTES` bytes.
pub open spec fn is_salt_draw(salt: Option<Vec<u8>>) -> bool {
    salt matches Some(b) && b@.len() == SALT_BYTES
}

/// A password that passes the rules is short enough for the hasher.
proof fn lemma_rule_length_fits_hasher(pw: Seq<char>)
    requires
        password_violation(pw) is None,
    ensures
        utf8_bytes(pw).len() <= 0xFFFF_FFFF,
{
}

/// The message returned when the hasher fails.
pub open spec fn hashing_failed_message() -> Seq<char> {
    "Failed to hash password"@
}

/// What verifying `password` against the PHC string `phc` yields:
/// `None` when the string does not parse, else whether it accepts.
pub open spec fn verification_outcome(password: Seq<u8>, phc: Seq<char>) -> Option<bool> {
    if phc_parses(phc) {
        Some(argon2_accepts(password, phc))
    } else {
        None
    }
}

impl SubscriberPassword {
    /// The stored bytes are an Argon2id v19 PHC string that accepts
    /// `plaintext`.
    pub open spec fn hashes(self, plaintext: Seq<char>) -> bool {
        &&& valid_utf8(self.hashed_password@)
        &&& verification_outcome(utf8_bytes(plaintext), decode_utf8(self.hashed_password@))
            == Some(true)
        &&& is_argon2id_v19_phc(decode_utf8(self.hashed_password@))
    }

    /// Checks the password rules and, when they pass, hashes the password
    /// with a salt drawn from the operating system (`draw_salt`). A password that passes
    /// the rules is refused only when that draw fails (see
    /// `parse_with_salt`, which states the outcome for every draw).
    pub fn parse(pw: String) -> (r: Result<SubscriberPassword, String>)
        ensures
            password_violation(pw@) matches Some(msg) ==> (r matches Err(e) && e@ == msg),
            password_violation(pw@) is None ==> match r {
                Ok(p) => p.plaintext_password@ == pw@ && p.hashes(pw@),
                Err(e) => e@ == hashing_failed_message(),
            },
    {
        let salt = draw_salt();
        SubscriberPassword::parse_with_salt(pw, salt)
    }

    /// `parse` for a given draw of salt bytes: the rules decide first; a
    /// password that passes them is hashed exactly when the draw holds
    /// `SALT_BYTES` bytes, and is otherwise refused as a hashing failure.
    pub fn parse_with_salt(pw: String, salt: Option<Vec<u8>>) -> (r: Result<SubscriberPassword, String>)
        ensures
            password_violation(pw@) matches Some(msg) ==> (r matches Err(e) && e@ == msg),
            password_violation(pw@) is None ==> (is_salt_draw(salt) <==> r is Ok),
            password_violation(pw@) is None && !is_salt_draw(salt) ==> (r matches Err(e) && e@
                == hashing_failed_message()),
            r matches Ok(p) ==> p.plaintext_password@ == pw@ && p.hashes(pw@),
            r matches Ok(p) ==> stored_with_salt(p, pw@, salt),
    {
        match check_password_rules(pw.as_str()) {
            Err(e) => Err(e),
            Ok(()) => {
                proof {
                    lemma_rule_length_fits_hasher(pw@);
                }
                match SubscriberPassword::hash_with_salt(pw.as_str(), salt) {
                    Some(p) => Ok(p),
                    None => Err("Failed to hash password".to_owned()),
                }
            },
        }
    }

    /// Hashes `plaintext` with a salt drawn from the operating system (`draw_salt`).
    /// `None` when the password is longer than the hasher accepts
    /// (`0xFFFF_FFFF` bytes) and otherwise only when the draw fails (see
    /// `hash_with_salt`, which states the outcome for every draw).
    pub fn new(plaintext: &str) -> (r: Option<SubscriberPassword>)
        ensures
            r matches Some(p) ==> p.plaintext_password@ == plaintext@ && p.hashes(plaintext@),
            utf8_bytes(plaintext@).len() > 0xFFFF_FFFF ==> r is None,
    {
        let salt = draw_salt();
        SubscriberPassword::hash_with_salt(plaintext, salt)
    }

    /// Hashes `plaintext` with the salt made of the drawn bytes: `Some`
    /// exactly when the draw holds `SALT_BYTES` bytes and the password is
    /// at most `0xFFFF_FFFF` bytes long.
    pub fn hash_with_salt(plaintext: &str, salt: Option<Vec<u8>>) -> (r: Option<SubscriberPassword>)
        ensures
            r is Some <==> (is_salt_draw(salt) && utf8_bytes(plaintext@).len() <= 0xFFFF_FFFF),
            r matches Some(p) ==> p.plaintext_password@ == plaintext@ && p.hashes(plaintext@),
            r matches Some(p) ==> stored_with_salt(p, plaintext@, salt),
    {
        let bytes = match salt {
            Some(b) => b,
            None => return None,
        };
        if bytes.len() != SALT_BYTES {
            return None;
        }
        let salt_text = salt_from_bytes(bytes.as_slice());
        let hashed = match argon2_hash(plaintext.as_bytes(), salt_text.as_str()) {
            Ok(phc) => Some(phc),
            Err(_) => None,
        };
        SubscriberPassword::from_phc(plaintext, hashed)
    }

    /// The password `plaintext` stored with the PHC string the hasher
    /// returned, or `None` when the hasher returned nothing.
    pub fn from_phc(plaintext: &str, phc: Option<String>) -> (r: Option<SubscriberPassword>)
        ensures
            match phc {
                Some(h) => r matches Some(p) && p.plaintext_password@ == plaintext@
                    && p.hashed_password@ == utf8_bytes(h@),
                None => r is None,
            },
    {
        match phc {
            Some(h) => Some(SubscriberPassword {
                plaintext_password: plaintext.to_owned(),
                hashed_password: vstd::slice::slice_to_vec(h.as_str().as_bytes()),
            }),
            None => None,
        }
    }

    /// Verifies a password against a stored PHC string: `Err` when the string
    /// does not parse, else whether the hash accepts the password.
    pub fn verify_password(plaintext_password: &[u8], hashed_password: String) -> (r: Result<
        bool,
        PasswordVerifyError,
    >)
        ensures
            match verification_outcome(plaintext_password@, hashed_password@) {
                Some(b) => r == Ok::<bool, PasswordVerifyError>(b),
                None => r == Err::<bool, PasswordVerifyError>(PasswordVerifyError::MalformedHash),
            },
            hashed_password@.len() == 0 || hashed_password@[0] != '$' ==> r
                == Err::<bool, PasswordVerifyError>(PasswordVerifyError::MalformedHash),
    {
        match argon2_verify(plaintext_password, hashed_password.as_str()) {
            Ok(b) => Ok(b),
            Err(_) => Err(PasswordVerifyError::MalformedHash),
        }
    }
}

/// Checks the password rules in order; `Err` carries the refusing message.
pub fn check_password_rules(pw: &str) -> (r: Result<(), String>)
    ensures
        match password_violation(pw@) {
            Some(msg) => r matches Err(e) && e@ == msg,
            None => r is Ok,
        },
{
    if pw.is_empty() {
        return Err("Password cannot be empty".to_owned());
    }
    let n = pw.as_bytes().len();
    if n < MIN_PASSWORD_BYTES || n > MAX_PASSWORD_BYTES {
        return Err(
            "Password must be at most 32 characters and at least 8 characters long".to_owned(),
        );
    }
    let cs = chars_of(pw);
    let mut upper = false;
    let mut special = false;
    let mut i: usize = 0;
    while i < cs.len()
        invariant
            i <= cs@.len(),
            cs@ == pw@,
            upper <==> exists|j: int| 0 <= j < i && char_is_uppercase(#[trigger] pw@[j]),
            special <==> exists|j: int| 0 <= j < i && !char_is_alphanumeric(#[trigger] pw@[j]),
        decreases cs@.len() - i,
    {
        let c = cs[i];
        assert(c == pw@[i as int]);
        if is_uppercase(c) {
            upper = true;
        }
        if !is_alphanumeric(c) {
            special = true;
        }
        i = i + 1;
    }
    if !upper || !special {
        return Err(
            "Password must contain atleast one special character and uppercase character".to_owned(),
        );
    }
    Ok(())
}

/// What the password rules accept, stated over the characters and the UTF-8
/// length alone: a password passes exactly when it is not empty, takes 7 to
/// 32 bytes, has an upper-case character at some position and a character
/// that is neither alphabetic nor numeric at some position.
pub proof fn lemma_password_rules_accept(pw: Seq<char>)
    ensures
        password_violation(pw) is None <==> {
            &&& pw.len() > 0
            &&& 7 <= utf8_bytes(pw).len() <= 32
            &&& exists|i: int| 0 <= i < pw.len() && char_is_uppercase(#[trigger] pw[i])
            &&& exists|j: int| 0 <= j < pw.len() && !char_is_alphanumeric(#[trigger] pw[j])
        },
{
}

/// The rule that refuses a non-empty password of 7 to 32 bytes is the
/// character rule, and it refuses it exactly when no position holds an
/// upper-case character or no position holds a special character.
pub proof fn lemma_password_character_rule(pw: Seq<char>)
    requires
        pw.len() > 0,
        7 <= utf8_bytes(pw).len() <= 32,
    ensures
        password_violation(pw) is Some <==> (
            (forall|i: int| 0 <= i < pw.len() ==> !char_is_uppercase(#[trigger] pw[i]))
            || (forall|j: int| 0 <= j < pw.len() ==> char_is_alphanumeric(#[trigger] pw[j]))),
{
}

/// A password created by `SubscriberPassword::new` (or `parse`) verifies
/// against its own plaintext: verification of the stored hash with the same
/// password yields `Ok(true)`.
pub proof fn lemma_hashed_password_verifies(p: SubscriberPassword, plaintext: Seq<char>)
    requires
        p.hashes(plaintext),
    ensures
        verification_outcome(utf8_bytes(plaintext), decode_utf8(p.hashed_password@)) == Some(true),
        encode_utf8(decode_utf8(p.hashed_password@)) == p.hashed_password@,
{
    decode_utf8_encode_utf8(p.hashed_password@);
}

} // verus!
