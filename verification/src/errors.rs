//! Error taxonomy of the credential subsystem.

use vstd::prelude::*;

verus! {

/// Outcome classification for credential operations.
///
/// - `DuplicateKeyError`: registration attempted for an existing username.
/// - `NotFoundError`: login for a username with no matching row.
/// - `AuthenticationFailure`: login with a wrong password for an existing user.
/// - `HashingFailure`: the hashing primitive malfunctioned or was handed a
///   stored hash that is not a product of `hash_password`.
/// - `StoreError`: a fault in an external persistence layer; the in-memory
///   store never raises it, but callers that persist elsewhere map their
///   transport faults to it.
#[derive(Clone, Copy, Debug, PartialEq, Eq, Structural)]
pub enum CredentialError {
    DuplicateKeyError,
    NotFoundError,
    AuthenticationFailure,
    HashingFailure,
    StoreError,
}

} // verus!
