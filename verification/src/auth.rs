//! Password hashing and the generation of session tokens, one-time
//! passwords and device IDs.

use vstd::prelude::*;
use crate::text::{push_char, push_zero_padded, zero_padded};
use vstd::string::StringSliceAdditionalSpecFns;
use argon2::password_hash::rand_core::OsRng;
use argon2::password_hash::{PasswordHash, PasswordHasher, PasswordVerifier, SaltString};
use argon2::Argon2;
use rand::distributions::Alphanumeric;
use rand::Rng;

verus! {

/// Whether the PHC-format Argon2 hash string `phc_hash` verifies against
/// `password` (parsing the string and recomputing the hash with its own
/// salt and parameters).
pub uninterp spec fn password_matches(password: Seq<u8>, phc_hash: Seq<char>) -> bool;

/// The longest password Argon2 accepts, in bytes (`argon2::MAX_PWD_LEN`).
pub const MAX_PASSWORD_BYTES: usize = 0xffff_ffff;

/// `Argon2::default().hash_password(password, &salt)` with a fresh salt from
/// `SaltString::generate(&mut OsRng)`, rendered as its PHC string; the error
/// is rendered as its message. Claimed: a produced hash verifies against
/// the password it was made from (what `verify_password` recomputes from the
/// hash's own salt and parameters), and hashing fails exactly when the
/// password is longer than `MAX_PWD_LEN`: the generated salt (16 random
/// bytes) always passes Argon2's salt checks, and the default parameters
/// its output checks.
#[verifier::external_body]
fn argon2_hash(password: &[u8]) -> (r: Result<String, String>)
    ensures
        r matches Ok(h) ==> password_matches(password@, h@),
        r is Ok <==> password@.len() <= MAX_PASSWORD_BYTES,
{
    let salt = SaltString::generate(&mut OsRng);
    match Argon2::default().hash_password(password, &salt) {
        Ok(h) => Ok(h.to_string()),
        Err(e) => Err(e.to_string()),
    }
}

/// `PasswordHash::new(phc_hash)` followed by
/// `Argon2::default().verify_password(password, &parsed)`: false when the
/// string does not parse or the password does not match. Claimed: the
/// answer is `password_matches` of the two arguments.
#[verifier::external_body]
fn argon2_verify(password: &[u8], phc_hash: &str) -> (r: bool)
    ensures
        r == password_matches(password@, phc_hash@),
{
    match PasswordHash::new(phc_hash) {
        Ok(parsed) => Argon2::default().verify_password(password, &parsed).is_ok(),
        Err(_) => false,
    }
}

/// A hashing failure as the server reports it: the text starts with
/// `failed to hash password: ` (followed by the hasher's message).
pub open spec fn is_hash_failure(m: Seq<char>) -> bool {
    let p = "failed to hash password: "@;
    m.len() >= p.len() && m.take(p.len() as int) == p
}

/// Hashes a password with Argon2 (default parameters) and a fresh random
/// salt. This succeeds unless the password is longer than Argon2 accepts;
/// the error carries the hasher's message, prefixed as the server reports
/// it.
pub fn hash_password(password: &str) -> (r: Result<String, String>)
    ensures
        r is Ok <==> password.spec_bytes().len() <= MAX_PASSWORD_BYTES,
        r matches Ok(h) ==> password_matches(password.spec_bytes(), h@),
        r matches Err(m) ==> is_hash_failure(m@),
{
    match argon2_hash(password.as_bytes()) {
        Ok(h) => Ok(h),
        Err(e) => {
            let mut msg = String::from_str("failed to hash password: ");
            msg.append(e.as_str());
            assert(msg@.take("failed to hash password: "@.len() as int) =~= "failed to hash password: "@);
            Err(msg)
        },
    }
}

/// Whether `password` matches a stored Argon2 hash; false for a hash that
/// does not parse.
pub fn verify_password(password: &str, hash: &str) -> (r: bool)
    ensures
        r == password_matches(password.spec_bytes(), hash@),
{
    argon2_verify(password.as_bytes(), hash)
}

/// An ASCII letter or digit.
pub open spec fn is_alnum(c: char) -> bool {
    ('A' <= c && c <= 'Z') || ('a' <= c && c <= 'z') || ('0' <= c && c <= '9')
}

/// `rand::thread_rng().sample(Alphanumeric)`: a uniformly random byte from
/// `A-Z`, `a-z`, `0-9` (as the distribution documents).
#[verifier::external_body]
fn sample_alphanumeric() -> (b: u8)
    ensures
        is_alnum(b as char),
{
    rand::thread_rng().sample(Alphanumeric)
}

/// `rand::thread_rng().gen_range(0..bound)`: a random number below
/// `bound` (the range must not be empty, or `gen_range` panics).
#[verifier::external_body]
fn random_below(bound: u32) -> (r: u32)
    requires
        bound > 0,
    ensures
        r < bound,
{
    rand::thread_rng().gen_range(0..bound)
}

/// The characters of a run of bytes, one for each.
pub open spec fn byte_chars(b: Seq<u8>) -> Seq<char> {
    b.map_values(|x: u8| x as char)
}

/// Every byte is an ASCII letter or digit.
pub open spec fn all_alnum(b: Seq<u8>) -> bool {
    forall|i: int| 0 <= i < b.len() ==> is_alnum(#[trigger] b[i] as char)
}

/// `len` random bytes, each an ASCII letter or digit.
fn sample_alnum_bytes(len: usize) -> (r: Vec<u8>)
    ensures
        r@.len() == len,
        all_alnum(r@),
{
    let mut r: Vec<u8> = Vec::new();
    let mut i: usize = 0;
    while i < len
        invariant
            i <= len,
            r@.len() == i,
            all_alnum(r@),
        decreases len - i,
    {
        let b = sample_alphanumeric();
        r.push(b);
        i = i + 1;
    }
    r
}

/// The text of a run of sampled bytes, one character for each.
pub fn alnum_text(bytes: &Vec<u8>) -> (r: String)
    ensures
        r@ == byte_chars(bytes@),
{
    let mut r = String::new();
    let mut i: usize = 0;
    while i < bytes.len()
        invariant
            i <= bytes@.len(),
            r@ == byte_chars(bytes@.take(i as int)),
        decreases bytes@.len() - i,
    {
        push_char(&mut r, bytes[i] as char);
        i = i + 1;
        assert(byte_chars(bytes@.take(i as int)) =~= byte_chars(bytes@.take(i - 1)).push(bytes@[i - 1] as char));
    }
    assert(bytes@.take(i as int) =~= bytes@);
    r
}

/// `len` random ASCII letters and digits: the sampled bytes, as text.
pub fn random_alnum(len: usize) -> (r: String)
    ensures
        exists|b: Seq<u8>| b.len() == len && all_alnum(b) && r@ == #[trigger] byte_chars(b),
        r@.len() == len,
        forall|i: int| 0 <= i < len ==> is_alnum(#[trigger] r@[i]),
{
    let bytes = sample_alnum_bytes(len);
    let r = alnum_text(&bytes);
    assert forall|i: int| 0 <= i < len implies is_alnum(#[trigger] r@[i]) by {
        assert(r@[i] == bytes@[i] as char);
    }
    r
}

/// An opaque session token: 32 random ASCII letters and digits.
pub fn generate_session_token() -> (r: String)
    ensures
        exists|b: Seq<u8>| b.len() == 32 && all_alnum(b) && r@ == #[trigger] byte_chars(b),
        r@.len() == 32,
        forall|i: int| 0 <= i < 32 ==> is_alnum(#[trigger] r@[i]),
{
    random_alnum(32)
}

/// The shape of a one-time password: two zero-padded 4-digit groups
/// separated by a space.
pub open spec fn otp_text(a: nat, b: nat) -> Seq<char> {
    zero_padded(a, 4) + seq![' '] + zero_padded(b, 4)
}

/// The shape of a device ID: three zero-padded 3-digit groups separated by
/// spaces.
pub open spec fn device_id_text(a: nat, b: nat, c: nat) -> Seq<char> {
    zero_padded(a, 3) + seq![' '] + zero_padded(b, 3) + seq![' '] + zero_padded(c, 3)
}

/// The one-time password for the drawn groups `a` and `b`.
pub fn one_time_password_from(a: u32, b: u32) -> (r: String)
    requires
        a < 10000,
        b < 10000,
    ensures
        r@ == otp_text(a as nat, b as nat),
{
    let mut r = String::new();
    push_zero_padded(&mut r, a as u64, 4);
    push_char(&mut r, ' ');
    push_zero_padded(&mut r, b as u64, 4);
    assert(r@ =~= otp_text(a as nat, b as nat));
    r
}

/// An 8-digit, TeamViewer-style one-time password for attended access,
/// e.g. `0042 9137`: two random groups below 10000.
pub fn generate_one_time_password() -> (r: String)
    ensures
        exists|a: nat, b: nat| a < 10000 && b < 10000 && r@ == #[trigger] otp_text(a, b),
{
    let a = random_below(10000);
    let b = random_below(10000);
    one_time_password_from(a, b)
}

/// The device ID for the drawn groups `a`, `b` and `c`.
pub fn device_id_from(a: u32, b: u32, c: u32) -> (r: String)
    requires
        a < 1000,
        b < 1000,
        c < 1000,
    ensures
        r@ == device_id_text(a as nat, b as nat, c as nat),
{
    let mut r = String::new();
    push_zero_padded(&mut r, a as u64, 3);
    push_char(&mut r, ' ');
    push_zero_padded(&mut r, b as u64, 3);
    push_char(&mut r, ' ');
    push_zero_padded(&mut r, c as u64, 3);
    assert(r@ =~= device_id_text(a as nat, b as nat, c as nat));
    r
}

/// A 9-digit device ID, grouped for readability, e.g. `012 345 678`: three
/// random groups below 1000.
pub fn generate_device_id() -> (r: String)
    ensures
        exists|a: nat, b: nat, c: nat| a < 1000 && b < 1000 && c < 1000 && r@ == #[trigger] device_id_text(a, b, c),
{
    let a = random_below(1000);
    let b = random_below(1000);
    let c = random_below(1000);
    device_id_from(a, b, c)
}

} // verus!
