//! Password hashing and checking with Argon2.

use vstd::prelude::*;
use argon2::password_hash::rand_core::OsRng;
use argon2::password_hash::{Error, PasswordHash, PasswordHasher, PasswordVerifier, SaltString};
use argon2::Argon2;
use crate::errors::AppError;

verus! {

/// What checking `password` against the stored hash `hash` gives:
/// `Some(true)` where hashing `password` with the salt and parameters that
/// `hash` records gives the output that `hash` records; `Some(false)` where
/// it gives another, or where `hash` records no salt or no output; `None`
/// where `hash` cannot be read or the computation fails.
pub uninterp spec fn argon2_verified(hash: Seq<char>, password: Seq<char>) -> Option<bool>;

/// Checks a password against a stored hash.
///
/// Trusted: parses `hash` with `PasswordHash::new` and hands it to
/// `Argon2::default().verify_password`, which computes the hash of `password`
/// with the salt and parameters that `hash` records and compares. The answer
/// depends on the two texts alone. `Ok` becomes `Some(true)`,
/// `Error::Password`, which is also the answer for a hash without salt or
/// output, becomes `Some(false)`; a hash that does not parse and every other
/// error become `None`.
#[verifier::external_body]
pub(crate) fn argon2_verify(hash: &str, password: &str) -> (r: Option<bool>)
    ensures
        r == argon2_verified(hash@, password@),
{
    match PasswordHash::new(hash) {
        Ok(parsed) => match Argon2::default().verify_password(password.as_bytes(), &parsed) {
            Ok(()) => Some(true),
            Err(Error::Password) => Some(false),
            Err(_) => None,
        },
        Err(_) => None,
    }
}

/// Hashes a password under a fresh random salt.
///
/// Trusted: `Argon2::default().hash_password` with a salt from
/// `SaltString::generate`, written out as a PHC string. The salt is random,
/// so nothing is said of the text itself; what is claimed is what the hash is
/// for: checking the same password against it succeeds.
#[verifier::external_body]
fn argon2_hash(password: &str) -> (r: Option<String>)
    ensures
        r matches Some(h) ==> argon2_verified(h@, password@) == Some(true),
{
    let salt = SaltString::generate(&mut OsRng);
    match Argon2::default().hash_password(password.as_bytes(), &salt) {
        Ok(hash) => Some(hash.to_string()),
        Err(_) => None,
    }
}

/// The answer of [`verify_password`] for what the check gave.
pub open spec fn check_result(check: Option<bool>) -> Result<bool, AppError> {
    match check {
        Some(matches) => Ok(matches),
        None => Err(AppError::InternalServerError),
    }
}

/// Turns what the check gave into an answer: a check that could not be
/// made is an internal error, never a mismatch.
pub fn password_check_result(check: Option<bool>) -> (r: Result<bool, AppError>)
    ensures
        r == check_result(check),
{
    match check {
        Some(matches) => Ok(matches),
        None => Err(AppError::InternalServerError),
    }
}

/// Hashes `password` for storage. A hash that is returned accepts `password`.
pub fn hash_password(password: String) -> (r: Result<String, AppError>)
    ensures
        r matches Ok(h) ==> argon2_verified(h@, password@) == Some(true),
        r matches Err(e) ==> e == AppError::InternalServerError,
{
    match argon2_hash(password.as_str()) {
        Some(h) => Ok(h),
        None => Err(AppError::InternalServerError),
    }
}

/// Checks `password` against the stored `hash`: `Ok(true)` where the hash
/// accepts it, `Ok(false)` where it does not, an internal error where the
/// hash cannot be read.
pub fn verify_password(hash: String, password: String) -> (r: Result<bool, AppError>)
    ensures
        r == check_result(argon2_verified(hash@, password@)),
{
    password_check_result(argon2_verify(hash.as_str(), password.as_str()))
}

} // verus!
