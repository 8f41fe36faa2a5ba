//! Random numbers and random identifiers, from the thread's generator.

use rand::Rng;
use vstd::prelude::*;

verus! {

/// The thread-local random number generator of `rand`.
#[verifier::external_type_specification]
#[verifier::external_body]
pub struct ExThreadRng(rand::rngs::ThreadRng);

/// Trusted: `rand::rng`, a handle to the thread's random number generator.
#[verifier::external_body]
pub(crate) fn thread_rng() -> rand::rngs::ThreadRng {
    rand::rng()
}

/// Trusted: `Rng::random_range` over `low..=high`: some number in the
/// (non-empty) range; which one is left to chance.
#[verifier::external_body]
pub(crate) fn random_range_inclusive(rng: &mut rand::rngs::ThreadRng, low: u64, high: u64) -> (r: u64)
    requires
        low <= high,
    ensures
        low <= r <= high,
{
    rng.random_range(low..=high)
}

/// Trusted: `Rng::random` for a 32-byte array: any 32 bytes, left to chance.
#[verifier::external_body]
pub(crate) fn random_bytes_32(rng: &mut rand::rngs::ThreadRng) -> [u8; 32] {
    rng.random()
}

/// A lower-case hexadecimal digit.
pub open spec fn is_lower_hex_digit(c: char) -> bool {
    ('0' <= c <= '9') || ('a' <= c <= 'f')
}

/// The text of a random (version 4) UUID: five groups of lower-case
/// hexadecimal digits of lengths 8, 4, 4, 4 and 12 joined by hyphens, the
/// version digit `4` opening the third group and one of `8`, `9`, `a`, `b`
/// opening the fourth.
pub open spec fn is_v4_uuid_text(s: Seq<char>) -> bool {
    &&& s.len() == 36
    &&& forall|i: int|
        0 <= i < 36 ==> if i == 8 || i == 13 || i == 18 || i == 23 {
            s[i] == '-'
        } else {
            is_lower_hex_digit(#[trigger] s[i])
        }
    &&& s[14] == '4'
    &&& (s[19] == '8' || s[19] == '9' || s[19] == 'a' || s[19] == 'b')
}

/// Trusted: `uuid::Uuid::new_v4` rendered by `to_string`: a random
/// version 4 UUID in hyphenated lower-case form.
#[verifier::external_body]
pub(crate) fn new_uuid_v4_string() -> (s: String)
    ensures
        is_v4_uuid_text(s@),
{
    uuid::Uuid::new_v4().to_string()
}

} // verus!
