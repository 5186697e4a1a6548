//! Random UUIDs (connection and session identifiers) and their text form.

use vstd::prelude::*;

verus! {

/// The lowercase hexadecimal digit of `v`.
pub open spec fn hex_digit(v: int) -> char {
    if v < 10 {
        (48 + v) as char
    } else {
        (87 + v) as char
    }
}

/// The `i`-th hexadecimal digit (most significant first) of a 128-bit value.
pub open spec fn nibble(u: u128, i: int) -> int {
    (u as int / vstd::arithmetic::power::pow(16, (31 - i) as nat)) % 16
}

/// The hyphenated lowercase text of a UUID (8-4-4-4-12 hex digits).
pub open spec fn uuid_text(u: u128) -> Seq<char> {
    Seq::new(36, |k: int| {
        if k == 8 || k == 13 || k == 18 || k == 23 {
            '-'
        } else {
            let i = if k < 8 {
                k
            } else if k < 13 {
                k - 1
            } else if k < 18 {
                k - 2
            } else if k < 23 {
                k - 3
            } else {
                k - 4
            };
            hex_digit(nibble(u, i))
        }
    })
}

/// `Uuid::new_v4().as_u128()`: a random version-4 UUID. Nothing is claimed
/// of its value.
#[verifier::external_body]
pub(crate) fn new_uuid() -> u128 {
    uuid::Uuid::new_v4().as_u128()
}

/// `Uuid::from_u128(u).to_string()`. Claimed: the hyphenated lowercase
/// form, big-endian (`a1a2a3a4-b1b2-c1c2-d1d2-d3d4d5d6d7d8` for
/// `0xa1a2a3a4b1b2c1c2d1d2d3d4d5d6d7d8`, as the crate documents).
#[verifier::external_body]
pub(crate) fn uuid_string(u: u128) -> (r: String)
    ensures
        r@ == uuid_text(u),
{
    uuid::Uuid::from_u128(u).to_string()
}

} // verus!
