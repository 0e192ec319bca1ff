//! Randomness from the operating system, through the `rand` crate. Random
//! values have no name: each contract states only what holds of every
//! outcome. Every draw reports a failure of the operating system's source
//! as `None` instead of panicking.

use vstd::prelude::*;
use rand::RngExt;
use rand::SeedableRng;
use rand::TryRng;

verus! {

#[verifier::external_type_specification]
#[verifier::external_body]
pub struct ExStdRng(rand::rngs::StdRng);

/// An ASCII letter or digit, as a byte: `A-Z`, `a-z` or `0-9`.
pub open spec fn is_ascii_alphanumeric_byte(b: u8) -> bool {
    (65 <= b <= 90) || (97 <= b <= 122) || (48 <= b <= 57)
}

/// Most bytes drawn at once (the callers need 16 or 32).
pub const MAX_RANDOM_BYTES: usize = 1024;

/// Calls `SysRng.try_fill_bytes` on a buffer of `len` zero bytes: bytes
/// straight from the operating system. `None` when the operating system
/// reports a failure; otherwise `len` bytes, of which nothing else is
/// stated.
#[verifier::external_body]
pub(crate) fn os_random_bytes(len: usize) -> (r: Option<Vec<u8>>)
    requires
        len <= MAX_RANDOM_BYTES,
    ensures
        r matches Some(v) ==> v@.len() == len,
{
    let mut bytes = vec![0u8; len];
    match rand::rngs::SysRng.try_fill_bytes(&mut bytes) {
        Ok(()) => Some(bytes),
        Err(_) => None,
    }
}

/// Calls `StdRng::try_from_rng(&mut SysRng)`: a ChaCha generator seeded
/// with bytes from the operating system. `None` when the operating system
/// reports a failure. Nothing is stated of the generator.
#[verifier::external_body]
pub(crate) fn os_seeded_rng() -> (r: Option<rand::rngs::StdRng>) {
    match rand::rngs::StdRng::try_from_rng(&mut rand::rngs::SysRng) {
        Ok(rng) => Some(rng),
        Err(_) => None,
    }
}

/// Calls `rng.sample(Alphanumeric)`, which the crate documents as a byte
/// drawn uniformly from the ASCII letters and digits; the contract states
/// the range, not the value. `StdRng` cannot fail, so the draw does not
/// panic.
#[verifier::external_body]
pub(crate) fn sample_alphanumeric(rng: &mut rand::rngs::StdRng) -> (r: u8)
    ensures
        is_ascii_alphanumeric_byte(r),
{
    rng.sample(rand::distr::Alphanumeric)
}

} // verus!
