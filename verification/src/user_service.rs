//! The credential service: orchestrates registration and login above the
//! hasher and the store, classifying every outcome exactly.

use vstd::prelude::*;

use crate::errors::CredentialError;
use crate::hasher::{hash_password, verify_outcome, verify_password};
use crate::store::CredentialStore;
use crate::user::{NewUser, User, UserV};

verus! {

/// The model of a service result: the returned row, by view, or the error.
pub open spec fn res_view(r: Result<User, CredentialError>) -> Result<UserV, CredentialError> {
    match r {
        Ok(u) => Ok(u@),
        Err(e) => Err(e),
    }
}

/// What a login decides, as a function of the store state, the username and
/// the password: an unknown username is `NotFoundError`; for a known one the
/// stored hash arbitrates — a match returns the row, a mismatch is
/// `AuthenticationFailure`, and a malformed stored hash is `HashingFailure`.
pub open spec fn login_outcome(
    store: CredentialStore,
    username: Seq<char>,
    password: Seq<char>,
) -> Result<UserV, CredentialError> {
    if !store.has_user(username) {
        Err(CredentialError::NotFoundError)
    } else {
        match verify_outcome(store.user_of(username).password_hash, password) {
            Some(true) => Ok(store.user_of(username)),
            Some(false) => Err(CredentialError::AuthenticationFailure),
            None => Err(CredentialError::HashingFailure),
        }
    }
}

/// Completes a registration from the outcome of the hash computation: a
/// hashing failure is propagated and the store is left untouched; a computed
/// hash is inserted under the store's uniqueness constraint.
pub fn apply_registration(
    store: &mut CredentialStore,
    username: &str,
    hashed: Result<String, CredentialError>,
) -> (r: Result<User, CredentialError>)
    requires
        old(store).wf(),
    ensures
        final(store).wf(),
        hashed matches Err(e) ==> r == Err::<User, CredentialError>(e)
            && *final(store) == *old(store),
        hashed matches Ok(h) ==> (if old(store).has_user(username@) {
            r == Err::<User, CredentialError>(CredentialError::DuplicateKeyError)
                && *final(store) == *old(store)
        } else {
            r matches Ok(u)
                && u@.username == username@
                && u@.password_hash == h@
                && u@.id == old(store).rows().len()
                && final(store).rows() == old(store).rows().push(u@)
                && final(store).has_user(username@)
                && final(store).user_of(username@) == u@
        }),
        forall|n: Seq<char>|
            n != username@ ==> #[trigger] final(store).has_user(n) == old(store).has_user(n),
        forall|n: Seq<char>|
            n != username@ && old(store).has_user(n)
                ==> #[trigger] final(store).user_of(n) == old(store).user_of(n),
{
    match hashed {
        Err(e) => Err(e),
        Ok(h) => store.insert(NewUser { username: username.to_owned(), password_hash: h }),
    }
}

/// Registration: hash the password, then insert under the store's
/// uniqueness constraint.
///
/// No partial state survives a failure: a hashing failure reaches the caller
/// before any store mutation, and a duplicate username leaves the store
/// exactly as it was. On success the new row is appended, its id the next
/// free position, and the stored hash verifies against the registered
/// password.
pub fn register_user(store: &mut CredentialStore, username: &str, password: &str) -> (r: Result<
    User,
    CredentialError,
>)
    requires
        old(store).wf(),
    ensures
        final(store).wf(),
        r matches Ok(u) ==> !old(store).has_user(username@)
            && u@.username == username@
            && u@.id == old(store).rows().len()
            && verify_outcome(u@.password_hash, password@) == Some(true)
            && (forall|p: Seq<char>| (#[trigger] verify_outcome(u@.password_hash, p)) is Some)
            && final(store).rows() == old(store).rows().push(u@)
            && final(store).has_user(username@)
            && final(store).user_of(username@) == u@,
        r matches Err(e) ==> *final(store) == *old(store)
            && (e == CredentialError::DuplicateKeyError || e == CredentialError::HashingFailure),
        r == Err::<User, CredentialError>(CredentialError::DuplicateKeyError)
            ==> old(store).has_user(username@),
        old(store).has_user(username@) ==> r is Err,
        forall|n: Seq<char>|
            n != username@ ==> #[trigger] final(store).has_user(n) == old(store).has_user(n),
{
    let hashed = hash_password(password);
    apply_registration(store, username, hashed)
}

/// Login: look the username up, then let the stored hash arbitrate.
///
/// The result is exactly `login_outcome` of the store state and the inputs.
pub fn login(store: &CredentialStore, username: &str, password: &str) -> (r: Result<
    User,
    CredentialError,
>)
    requires
        store.wf(),
    ensures
        res_view(r) == login_outcome(*store, username@, password@),
{
    match store.find_by_username(username) {
        Err(e) => Err(e),
        Ok(user) => match verify_password(user.password_hash.as_str(), password) {
            Err(e) => Err(e),
            Ok(true) => Ok(user),
            Ok(false) => Err(CredentialError::AuthenticationFailure),
        },
    }
}

/// Law: after a successful registration, a login with the registered
/// username and its password returns the registered row. The premises are
/// exactly what `register_user` ensures of the store it leaves behind.
pub proof fn lemma_login_after_register(
    store: CredentialStore,
    username: Seq<char>,
    password: Seq<char>,
    u: UserV,
)
    requires
        store.wf(),
        store.has_user(username),
        store.user_of(username) == u,
        verify_outcome(u.password_hash, password) == Some(true),
    ensures
        login_outcome(store, username, password) == Ok::<UserV, CredentialError>(u),
{
}

/// Law: a login with a non-matching password for a stored username is an
/// authentication failure — a dedicated outcome, never `NotFoundError`.
pub proof fn lemma_login_wrong_password(
    store: CredentialStore,
    username: Seq<char>,
    password: Seq<char>,
)
    requires
        store.wf(),
        store.has_user(username),
        verify_outcome(store.user_of(username).password_hash, password) == Some(false),
    ensures
        login_outcome(store, username, password) == Err::<UserV, CredentialError>(
            CredentialError::AuthenticationFailure,
        ),
{
}

/// Law: for a stored row whose hash verification is defined for the
/// attempted password — as it is, for every candidate, of any hash the
/// hasher produced — a login is decided by the password alone: it returns
/// that row or rejects the password, and never reports an unknown user or a
/// hashing fault.
pub proof fn lemma_login_on_registered_user(
    store: CredentialStore,
    username: Seq<char>,
    password: Seq<char>,
)
    requires
        store.wf(),
        store.has_user(username),
        verify_outcome(store.user_of(username).password_hash, password) is Some,
    ensures
        login_outcome(store, username, password) != Err::<UserV, CredentialError>(
            CredentialError::NotFoundError,
        ),
        login_outcome(store, username, password) != Err::<UserV, CredentialError>(
            CredentialError::HashingFailure,
        ),
        login_outcome(store, username, password) matches Ok(u) ==> u == store.user_of(username),
{
}

/// Law: on an empty store, every login reports the username as unknown.
pub proof fn lemma_login_empty_store(
    store: CredentialStore,
    username: Seq<char>,
    password: Seq<char>,
)
    requires
        store.rows().len() == 0,
    ensures
        login_outcome(store, username, password) == Err::<UserV, CredentialError>(
            CredentialError::NotFoundError,
        ),
{
}

} // verus!
