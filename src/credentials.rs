use vstd::prelude::*;
use argon2::{PasswordHasher, PasswordVerifier};
use vstd::utf8::encode_utf8;

verus! {

/// The verdict of checking `password` against the encoded Argon2 hash `encoded`: `Some(true)`
/// when they match, `Some(false)` when they do not, `None` when the hash cannot be read or the
/// check cannot run.
pub uninterp spec fn argon2_verdict(password: Seq<char>, encoded: Seq<char>) -> Option<bool>;

/// The largest password, in UTF-8 bytes, that Argon2 accepts.
pub const MAX_PASSWORD_BYTES: u64 = 0xFFFF_FFFF;

/// Argon2 accepts `password`: its UTF-8 encoding is at most `MAX_PASSWORD_BYTES` long.
pub open spec fn hashable(password: Seq<char>) -> bool {
    encode_utf8(password).len() <= MAX_PASSWORD_BYTES
}

/// Outcome of checking a password against a stored hash.
#[derive(PartialEq, Eq, Structural, Clone, Copy, Debug)]
pub enum PasswordCheck {
    Match,
    Mismatch,
    /// The stored hash is corrupt.
    Malformed,
}

pub open spec fn check_of(verdict: Option<bool>) -> PasswordCheck {
    match verdict {
        Some(true) => PasswordCheck::Match,
        Some(false) => PasswordCheck::Mismatch,
        None => PasswordCheck::Malformed,
    }
}

/// Relies on argon2's PasswordHasher::hash_password with the default Argon2 parameters and a
/// salt drawn from the operating system's generator: the encoded result holds the parameters,
/// the salt and the digest, so the same password verifies against it. Hashing fails only on a
/// password longer than `MAX_PASSWORD_BYTES`.
#[verifier::external_body]
fn argon2_hash(password: &str) -> (r: Option<String>)
    ensures
        hashable(password@) ==> r is Some,
        r matches Some(h) ==> argon2_verdict(password@, h@) == Some(true),
{
    let salt = argon2::password_hash::SaltString::generate(&mut rand::rngs::OsRng);
    match argon2::Argon2::default().hash_password(password.as_bytes(), &salt) {
        Ok(h) => Some(h.to_string()),
        Err(_) => None,
    }
}

/// Relies on argon2's PasswordHash::parse (B64 encoding) and PasswordVerifier::verify_password:
/// the outcome depends on the password and the encoded hash alone; a wrong password is the
/// `Password` error.
#[verifier::external_body]
fn argon2_check(password: &str, encoded: &str) -> (r: Option<bool>)
    ensures
        r == argon2_verdict(password@, encoded@),
{
    match argon2::PasswordHash::parse(encoded, argon2::password_hash::Encoding::B64) {
        Err(_) => None,
        Ok(hash) => match argon2::Argon2::default().verify_password(password.as_bytes(), &hash) {
            Ok(()) => Some(true),
            Err(argon2::password_hash::Error::Password) => Some(false),
            Err(_) => None,
        },
    }
}

/// Hashes `password` under a fresh random salt; `None` when the password is too long.
pub fn hash_password(password: &str) -> (r: Option<String>)
    ensures
        hashable(password@) ==> r is Some,
        r matches Some(h) ==> argon2_verdict(password@, h@) == Some(true),
{
    argon2_hash(password)
}

/// Checks `password` against the encoded hash `stored`.
pub fn verify_password(password: &str, stored: &str) -> (r: PasswordCheck)
    ensures
        r == check_of(argon2_verdict(password@, stored@)),
{
    match argon2_check(password, stored) {
        Some(true) => PasswordCheck::Match,
        Some(false) => PasswordCheck::Mismatch,
        None => PasswordCheck::Malformed,
    }
}

} // verus!
