//! The random supply of candidates that a generator draws from.
use rand::distributions::Alphanumeric;
use rand::distributions::DistString;
use vstd::prelude::*;

verus! {

/// An ASCII letter, upper or lower case, or an ASCII digit.
pub open spec fn is_alphanumeric(b: u8) -> bool {
    (0x41 <= b && b <= 0x5a) || (0x61 <= b && b <= 0x7a) || (0x30 <= b && b <= 0x39)
}

/// Relies on rand's `DistString::sample_string` for `Alphanumeric`, drawn from
/// the thread-local generator: it appends exactly `len` bytes, each taken from
/// the 62 characters `A-Z`, `a-z`, `0-9`. Which ones is left to chance.
#[verifier::external_body]
fn sample_alphanumeric(len: usize) -> (r: Vec<u8>)
    ensures
        r@.len() == len,
        forall|i: int| 0 <= i < r@.len() ==> is_alphanumeric(#[trigger] r@[i]),
{
    Alphanumeric.sample_string(&mut rand::thread_rng(), len).into_bytes()
}

/// Draws a fresh candidate of `length` alphanumeric bytes. A length of zero
/// gives an empty candidate.
pub fn generate_random_str_with_length(length: usize) -> (r: Vec<u8>)
    ensures
        r@.len() == length,
        forall|i: int| 0 <= i < r@.len() ==> is_alphanumeric(#[trigger] r@[i]),
{
    sample_alphanumeric(length)
}

} // verus!
