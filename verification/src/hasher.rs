//! The password hasher: a salted one-way transform and its verifier.
//!
//! Hashing draws a random salt, so two hashes of one plaintext differ and
//! nothing exact can be said of the output string itself beyond its shape
//! (60 characters, `$`-prefixed). What the contracts pin down instead is the
//! relation that matters to every caller: verification, a deterministic
//! function of the stored hash and the candidate plaintext, accepts exactly
//! the plaintext that the hash was made from.

use vstd::prelude::*;

use crate::errors::CredentialError;

verus! {

/// What verification decides for a stored hash and a plaintext candidate:
/// `Some(b)` when the stored hash is structurally well formed and the
/// candidate matches (`b == true`) or not (`b == false`); `None` when the
/// stored hash is not a product of hashing and verification fails.
pub uninterp spec fn verify_outcome(stored: Seq<char>, plain: Seq<char>) -> Option<bool>;

/// Relies on bcrypt::hash with DEFAULT_COST: the cost is always in range, so
/// the call fails only when the OS entropy source does; on success it formats
/// a 60-character `$`-prefixed hash string embedding the random salt, and
/// bcrypt::verify, recomputing with that embedded salt, accepts the hashed
/// plaintext. The output is structurally well formed, so verifying any
/// candidate against it parses and recomputes without error.
#[verifier::external_body]
fn bcrypt_hash(plain: &str) -> (r: Result<String, CredentialError>)
    ensures
        r matches Ok(h) ==> verify_outcome(h@, plain@) == Some(true),
        r matches Ok(h) ==> h@.len() == 60 && h@[0] == '$',
        r matches Ok(h) ==> forall|p: Seq<char>| (#[trigger] verify_outcome(h@, p)) is Some,
        r matches Err(e) ==> e == CredentialError::HashingFailure,
{
    match bcrypt::hash(plain, bcrypt::DEFAULT_COST) {
        Ok(h) => Ok(h),
        Err(_) => Err(CredentialError::HashingFailure),
    }
}

/// Relies on bcrypt::verify: a deterministic function of the stored hash and
/// the candidate — it parses the stored hash, recomputes with the embedded
/// salt and compares in constant time; it errs exactly when the stored hash
/// is malformed, and a mismatch is a `false` result, not an error.
#[verifier::external_body]
fn bcrypt_verify(stored: &str, plain: &str) -> (r: Result<bool, CredentialError>)
    ensures
        r matches Ok(b) ==> verify_outcome(stored@, plain@) == Some(b),
        r matches Err(e) ==> verify_outcome(stored@, plain@) is None
            && e == CredentialError::HashingFailure,
{
    match bcrypt::verify(plain, stored) {
        Ok(b) => Ok(b),
        Err(_) => Err(CredentialError::HashingFailure),
    }
}

/// One-way transform of a plaintext password into a storable hash string.
///
/// The output embeds a fresh random salt, so callers must never compare hash
/// strings directly; they compare a candidate through `verify_password`. The
/// only failure is the catastrophic internal one, surfaced as
/// `HashingFailure`.
pub fn hash_password(plain: &str) -> (r: Result<String, CredentialError>)
    ensures
        r matches Ok(h) ==> verify_outcome(h@, plain@) == Some(true),
        r matches Ok(h) ==> h@.len() == 60 && h@[0] == '$',
        r matches Ok(h) ==> forall|p: Seq<char>| (#[trigger] verify_outcome(h@, p)) is Some,
        r matches Ok(h) ==> (!(plain@.len() == 60 && plain@[0] == '$') ==> h@ != plain@),
        r matches Err(e) ==> e == CredentialError::HashingFailure,
{
    bcrypt_hash(plain)
}

/// Verification of a plaintext candidate against a stored hash.
///
/// Returns `Ok(true)` exactly when the candidate is the plaintext the hash
/// was made from, `Ok(false)` on a simple mismatch, and `HashingFailure` only
/// when the stored hash is structurally malformed (not a product of
/// `hash_password`).
pub fn verify_password(stored: &str, plain: &str) -> (r: Result<bool, CredentialError>)
    ensures
        r matches Ok(b) ==> verify_outcome(stored@, plain@) == Some(b),
        r matches Err(e) ==> verify_outcome(stored@, plain@) is None
            && e == CredentialError::HashingFailure,
{
    bcrypt_verify(stored, plain)
}

} // verus!
