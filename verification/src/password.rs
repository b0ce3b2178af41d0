//! Hashing passwords and checking them against a stored hash.
//!
//! The hash is Argon2's, in the PHC text form, under a salt that is drawn
//! afresh each time. The two functions at the end of this file are the only
//! places where `argon2` is called.

use crate::errors::{ApiError, ApiErrorView};
use argon2::password_hash::rand_core::OsRng;
use argon2::password_hash::{PasswordHash, PasswordHasher, PasswordVerifier, SaltString};
use argon2::Argon2;
use vstd::prelude::*;

verus! {

/// What Argon2 makes of a password and a stored hash: `None` where the text
/// is no hash at all, else whether the password is the one that was hashed.
pub uninterp spec fn password_verdict(password: Seq<char>, hash: Seq<char>) -> Option<bool>;

/// What the caller of a hashing gets: the hash, or the hashing error where
/// Argon2 gave none.
pub open spec fn hashing_outcome(hashed: Option<Seq<char>>) -> Result<Seq<char>, ApiErrorView> {
    match hashed {
        Some(hash) => Ok(hash),
        None => Err(ApiErrorView::PasswordHashError),
    }
}

/// What the caller of a check gets: the verdict, or the hashing error where
/// the stored text is no hash.
pub open spec fn checking_outcome(verdict: Option<bool>) -> Result<bool, ApiErrorView> {
    match verdict {
        Some(matches) => Ok(matches),
        None => Err(ApiErrorView::PasswordHashError),
    }
}

/// The result of a hashing by its view.
pub open spec fn hashed_view(r: Result<String, ApiError>) -> Result<Seq<char>, ApiErrorView> {
    match r {
        Ok(hash) => Ok(hash@),
        Err(e) => Err(e@),
    }
}

/// The result of a check by its view.
pub open spec fn checked_view(r: Result<bool, ApiError>) -> Result<bool, ApiErrorView> {
    match r {
        Ok(matches) => Ok(matches),
        Err(e) => Err(e@),
    }
}

/// The characters of an optional hash.
pub open spec fn hash_text(hashed: Option<String>) -> Option<Seq<char>> {
    match hashed {
        Some(hash) => Some(hash@),
        None => None,
    }
}

/// Turns what Argon2 gave for a hashing into the caller's result.
pub fn hashing_result(hashed: Option<String>) -> (r: Result<String, ApiError>)
    ensures
        hashed_view(r) == hashing_outcome(hash_text(hashed)),
{
    match hashed {
        Some(hash) => Ok(hash),
        None => Err(ApiError::PasswordHashError),
    }
}

/// Turns Argon2's verdict into the caller's result.
pub fn checking_result(verdict: Option<bool>) -> (r: Result<bool, ApiError>)
    ensures
        checked_view(r) == checking_outcome(verdict),
{
    match verdict {
        Some(matches) => Ok(matches),
        None => Err(ApiError::PasswordHashError),
    }
}

/// Hashes a password under a fresh salt. Whatever salt is drawn, the hash
/// that comes back is one under which the password checks out.
pub fn hash_password(password: &str) -> (r: Result<String, ApiError>)
    ensures
        r matches Ok(hash) ==> password_verdict(password@, hash@) == Some(true),
        r matches Err(e) ==> e@ == ApiErrorView::PasswordHashError,
{
    hashing_result(argon2_hash(password))
}

/// Checks a password against a stored hash.
pub fn verify_password(password: &str, hash: &str) -> (r: Result<bool, ApiError>)
    ensures
        checked_view(r) == checking_outcome(password_verdict(password@, hash@)),
{
    checking_result(argon2_verify(password, hash))
}

/// Draws a salt with `SaltString::generate` and calls
/// `Argon2::hash_password` with the default parameters. The salt is random,
/// so the hash is not named; what holds of every outcome is that a hash
/// that comes back verifies against the password it was made from, as
/// Argon2's verification recomputes the hash from the parameters and the
/// salt that the text carries.
#[verifier::external_body]
fn argon2_hash(password: &str) -> (r: Option<String>)
    ensures
        r matches Some(hash) ==> password_verdict(password@, hash@) == Some(true),
{
    let salt = SaltString::generate(&mut OsRng);
    match Argon2::default().hash_password(password.as_bytes(), &salt) {
        Ok(hash) => Some(hash.to_string()),
        Err(_) => None,
    }
}

/// Parses the stored text with `PasswordHash::new` and calls
/// `Argon2::verify_password` on it. The outcome is [`password_verdict`] of
/// the two texts: the check reads nothing else.
#[verifier::external_body]
fn argon2_verify(password: &str, hash: &str) -> (r: Option<bool>)
    ensures
        r == password_verdict(password@, hash@),
{
    match PasswordHash::new(hash) {
        Ok(parsed) => Some(Argon2::default().verify_password(password.as_bytes(), &parsed).is_ok()),
        Err(_) => None,
    }
}

} // verus!
