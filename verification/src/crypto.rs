//! Hashing and encoding primitives provided by outside crates: SHA-256
//! (`sha2`), URL-safe base64 (`base64`) and Argon2 password hashing
//! (`argon2`). Each outside call stands behind one trusted item whose
//! contract is stated here; everything built on them is verified.

use vstd::prelude::*;
use vstd::utf8::*;
use crate::text::is_ascii_char;
use crate::random::os_random_bytes;
use base64::Engine;
use sha2::Digest;
use argon2::PasswordHasher;
use argon2::PasswordVerifier;

verus! {

// ---------------------------------------------------------------------------
// SHA-256
// ---------------------------------------------------------------------------

/// The SHA-256 digest of a byte sequence, as `sha2::Sha256::digest` computes it.
pub uninterp spec fn sha256_digest(data: Seq<u8>) -> Seq<u8>;

/// Calls `sha2::Sha256::digest`. Claims that the result is the (named)
/// SHA-256 digest of the input and, as its `GenericArray<u8, U32>` type
/// shows, that it is 32 bytes long.
#[verifier::external_body]
pub(crate) fn sha256(data: &[u8]) -> (r: Vec<u8>)
    ensures
        r@ == sha256_digest(data@),
        r@.len() == 32,
{
    sha2::Sha256::digest(data).to_vec()
}

// ---------------------------------------------------------------------------
// Base64, URL-safe alphabet, no padding (RFC 4648 section 5)
// ---------------------------------------------------------------------------

/// The character that encodes the 6-bit value `v`: `A-Z a-z 0-9` and then
/// `-` `_` in the URL-safe alphabet, `+` `/` in the standard one.
pub open spec fn b64_digit(v: int, url_safe: bool) -> char {
    if v < 26 {
        ('A' as int + v) as char
    } else if v < 52 {
        ('a' as int + (v - 26)) as char
    } else if v < 62 {
        ('0' as int + (v - 52)) as char
    } else if v == 62 {
        if url_safe { '-' } else { '+' }
    } else {
        if url_safe { '_' } else { '/' }
    }
}

/// The character that encodes the 6-bit value `v` in the URL-safe alphabet.
pub open spec fn b64url_digit(v: int) -> char {
    b64_digit(v, true)
}

/// Base64 of `b` without `=` padding (RFC 4648), in the URL-safe or the
/// standard alphabet: each group of three bytes becomes four characters, a
/// final group of one or two bytes becomes two or three characters.
pub open spec fn base64_nopad(b: Seq<u8>, url_safe: bool) -> Seq<char>
    decreases b.len(),
{
    if b.len() == 0 {
        Seq::empty()
    } else if b.len() == 1 {
        seq![
            b64_digit((b[0] as int) / 4, url_safe),
            b64_digit(((b[0] as int) % 4) * 16, url_safe),
        ]
    } else if b.len() == 2 {
        seq![
            b64_digit((b[0] as int) / 4, url_safe),
            b64_digit(((b[0] as int) % 4) * 16 + (b[1] as int) / 16, url_safe),
            b64_digit(((b[1] as int) % 16) * 4, url_safe),
        ]
    } else {
        seq![
            b64_digit((b[0] as int) / 4, url_safe),
            b64_digit(((b[0] as int) % 4) * 16 + (b[1] as int) / 16, url_safe),
            b64_digit(((b[1] as int) % 16) * 4 + (b[2] as int) / 64, url_safe),
            b64_digit((b[2] as int) % 64, url_safe),
        ] + base64_nopad(b.subrange(3, b.len() as int), url_safe)
    }
}

/// URL-safe base64 of `b` without `=` padding.
pub open spec fn base64url_nopad(b: Seq<u8>) -> Seq<char> {
    base64_nopad(b, true)
}

/// Length of the unpadded base64 text of `n` bytes: `ceil(4n / 3)`.
pub open spec fn base64_nopad_len(n: nat) -> nat {
    ((4 * n + 2) / 3) as nat
}

/// A character of the URL-safe base64 alphabet: `A-Z a-z 0-9 - _`.
pub open spec fn is_b64url_char(c: char) -> bool {
    ('A' <= c <= 'Z') || ('a' <= c <= 'z') || ('0' <= c <= '9') || c == '-' || c == '_'
}

/// Calls `base64::engine::general_purpose::URL_SAFE_NO_PAD.encode`, which
/// the crate documents as base64 with the URL-safe alphabet and no padding;
/// the contract states that encoding exactly. `encode` panics when the
/// output length overflows `usize`; `requires` leaves those inputs out.
#[verifier::external_body]
pub(crate) fn base64url_encode(data: &[u8]) -> (r: String)
    requires
        base64_nopad_len(data@.len()) <= usize::MAX,
    ensures
        r@ == base64url_nopad(data@),
{
    base64::engine::general_purpose::URL_SAFE_NO_PAD.encode(data)
}

/// The base64 text is `ceil(4n / 3)` characters long.
pub proof fn lemma_base64url_len(b: Seq<u8>)
    ensures
        base64url_nopad(b).len() == base64_nopad_len(b.len()),
    decreases b.len(),
{
    if b.len() >= 3 {
        lemma_base64url_len(b.subrange(3, b.len() as int));
    }
}

proof fn lemma_b64url_digit(v: int)
    requires
        0 <= v < 64,
    ensures
        is_b64url_char(b64url_digit(v)),
{
}

/// Every character of the base64 text is in the URL-safe alphabet.
pub proof fn lemma_base64url_alphabet(b: Seq<u8>)
    ensures
        forall|i: int|
            0 <= i < base64url_nopad(b).len() ==> is_b64url_char(#[trigger] base64url_nopad(b)[i]),
    decreases b.len(),
{
    if b.len() == 0 {
    } else if b.len() == 1 {
        lemma_b64url_digit((b[0] as int) / 4);
        lemma_b64url_digit(((b[0] as int) % 4) * 16);
    } else if b.len() == 2 {
        lemma_b64url_digit((b[0] as int) / 4);
        lemma_b64url_digit(((b[0] as int) % 4) * 16 + (b[1] as int) / 16);
        lemma_b64url_digit(((b[1] as int) % 16) * 4);
    } else {
        let rest = b.subrange(3, b.len() as int);
        lemma_base64url_alphabet(rest);
        lemma_b64url_digit((b[0] as int) / 4);
        lemma_b64url_digit(((b[0] as int) % 4) * 16 + (b[1] as int) / 16);
        lemma_b64url_digit(((b[1] as int) % 16) * 4 + (b[2] as int) / 64);
        lemma_b64url_digit((b[2] as int) % 64);
        let head = seq![
            b64url_digit((b[0] as int) / 4),
            b64url_digit(((b[0] as int) % 4) * 16 + (b[1] as int) / 16),
            b64url_digit(((b[1] as int) % 16) * 4 + (b[2] as int) / 64),
            b64url_digit((b[2] as int) % 64),
        ];
        assert(base64url_nopad(b) == head + base64url_nopad(rest));
        assert forall|i: int| 0 <= i < base64url_nopad(b).len() implies is_b64url_char(
            #[trigger] base64url_nopad(b)[i],
        ) by {
            if i >= 4 {
                assert(base64url_nopad(b)[i] == base64url_nopad(rest)[i - 4]);
            }
        }
    }
}

// ---------------------------------------------------------------------------
// Argon2 password hashing
// ---------------------------------------------------------------------------

#[verifier::external_type_specification]
#[verifier::external_body]
pub struct ExPasswordHashError(argon2::password_hash::Error);

/// Whether `argon2::password_hash::PasswordHash::new` parses the PHC string.
pub uninterp spec fn phc_parses(phc: Seq<char>) -> bool;

/// Whether `Argon2::default().verify_password` accepts the password against
/// the parsed PHC string.
pub uninterp spec fn argon2_accepts(password: Seq<u8>, phc: Seq<char>) -> bool;

/// Bytes in a generated salt (`Salt::RECOMMENDED_LENGTH`).
pub const SALT_BYTES: usize = 16;

/// A salt as this library makes one: the standard-alphabet base64, without
/// padding, of `SALT_BYTES` bytes.
pub open spec fn is_generated_salt(salt: Seq<char>) -> bool {
    exists|b: Seq<u8>| b.len() == SALT_BYTES && salt == base64_nopad(b, false)
}

/// A PHC string of Argon2id, version 19 (`0x13`): it starts with
/// `$argon2id$v=19$`.
pub open spec fn is_argon2id_v19_phc(phc: Seq<char>) -> bool {
    "$argon2id$v=19$"@.is_prefix_of(phc)
}

/// Calls `SaltString::encode_b64` and returns the salt's text. As the
/// source shows, it encodes with `Encoding::B64` (standard base64 without
/// padding) into at most `Salt::MAX_LENGTH` (64) characters, and fails
/// exactly when the encoding would be longer, that is for more than 48
/// bytes.
#[verifier::external_body]
pub(crate) fn salt_encode_b64(bytes: &[u8]) -> (r: Result<String, argon2::password_hash::Error>)
    ensures
        r is Ok <==> bytes@.len() <= 48,
        r matches Ok(s) ==> s@ == base64_nopad(bytes@, false),
{
    match argon2::password_hash::SaltString::encode_b64(bytes) {
        Ok(s) => Ok(s.as_str().to_owned()),
        Err(e) => Err(e),
    }
}

/// Draws the bytes of a fresh salt from the operating system: `SALT_BYTES`
/// bytes, or `None` when the operating system's source fails.
pub fn draw_salt() -> (s: Option<Vec<u8>>)
    ensures
        s matches Some(v) ==> v@.len() == SALT_BYTES,
{
    os_random_bytes(SALT_BYTES)
}

/// The salt text of `SALT_BYTES` random bytes.
pub fn salt_from_bytes(bytes: &[u8]) -> (r: String)
    requires
        bytes@.len() == SALT_BYTES,
    ensures
        r@ == base64_nopad(bytes@, false),
        is_generated_salt(r@),
{
    match salt_encode_b64(bytes) {
        Ok(s) => s,
        Err(_) => {
            assert(false);
            String::new()
        },
    }
}

/// The PHC string that `Argon2::default().hash_password` renders for a
/// password and a salt text: with the default algorithm and parameters it
/// is a function of these two alone.
pub uninterp spec fn argon2_phc(password: Seq<u8>, salt: Seq<char>) -> Seq<char>;

/// Converts the salt text with `Salt::from_b64`, calls
/// `Argon2::default().hash_password` and renders the result as its PHC
/// string. Claims, as the crate documents (hash to a PHC string, then verify
/// the password against `PasswordHash::new` of that string), that a string
/// it returns parses and accepts the same password, and, as the defaults
/// fix (`Algorithm::Argon2id`, `Version::V0x13`, rendered by `Display` as
/// `$argon2id$v=19$...`), that it is an Argon2id v19 PHC string. As the
/// source shows (`verify_inputs`: at most `MAX_PWD_LEN` password bytes, at
/// least `MIN_SALT_LEN` salt bytes; `Salt::from_b64`: 4 to 64 characters of
/// `[a-zA-Z0-9/+.-]`), a password longer than `0xFFFF_FFFF` bytes is
/// refused, and a 16-byte salt encoded as above with a password no longer
/// than that is hashed. When else it fails is not stated. The string it
/// returns is the one named `argon2_phc` for the password and the salt
/// text: `hash_password` builds it from the given salt and the defaults.
#[verifier::external_body]
pub(crate) fn argon2_hash(password: &[u8], salt: &str) -> (r: Result<String, argon2::password_hash::Error>)
    ensures
        r matches Ok(phc) ==> phc_parses(phc@) && argon2_accepts(password@, phc@),
        r matches Ok(phc) ==> is_argon2id_v19_phc(phc@),
        r matches Ok(phc) ==> phc@ == argon2_phc(password@, salt@),
        password@.len() > 0xFFFF_FFFF ==> r is Err,
        is_generated_salt(salt@) && password@.len() <= 0xFFFF_FFFF ==> r is Ok,
{
    let salt = argon2::password_hash::Salt::from_b64(salt)?;
    match argon2::Argon2::default().hash_password(password, salt) {
        Ok(h) => Ok(h.to_string()),
        Err(e) => Err(e),
    }
}

/// Converts the PHC string with `PasswordHash::new` and, when it parses,
/// calls `Argon2::default().verify_password` on it. Claims that the outcome
/// is `Err` exactly when the string does not parse, and otherwise whether
/// the password is accepted, both as named above. As `PasswordHash::parse`
/// shows, an empty string, or one whose first field is not empty (it does
/// not start with `$`), does not parse.
#[verifier::external_body]
pub(crate) fn argon2_verify(password: &[u8], phc: &str) -> (r: Result<
    bool,
    argon2::password_hash::Error,
>)
    ensures
        r is Ok <==> phc_parses(phc@),
        r matches Ok(b) ==> b == argon2_accepts(password@, phc@),
        phc@.len() == 0 || phc@[0] != '$' ==> r is Err,
{
    let parsed = argon2::password_hash::PasswordHash::new(phc)?;
    Ok(argon2::Argon2::default().verify_password(password, &parsed).is_ok())
}

/// The UTF-8 bytes of a character sequence.
pub open spec fn utf8_bytes(s: Seq<char>) -> Seq<u8> {
    encode_utf8(s)
}

/// Text made of ASCII characters takes one UTF-8 byte per character.
pub proof fn lemma_ascii_utf8_len(s: Seq<char>)
    requires
        forall|i: int| 0 <= i < s.len() ==> is_ascii_char(#[trigger] s[i]),
    ensures
        utf8_bytes(s).len() == s.len(),
    decreases s.len(),
{
    if s.len() > 0 {
        let rest = s.drop_first();
        assert forall|i: int| 0 <= i < rest.len() implies is_ascii_char(#[trigger] rest[i]) by {
            assert(rest[i] == s[i + 1]);
        }
        lemma_ascii_utf8_len(rest);
        assert(is_ascii_char(s[0]));
        assert(has_width_1_encoding(s[0] as u32));
    }
}

} // verus!
