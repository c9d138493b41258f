//! The persistent `User` entity and its transient companion `NewUser`.

use vstd::prelude::*;

verus! {

/// Mathematical model of a stored user row.
pub struct UserV {
    pub id: u64,
    pub username: Seq<char>,
    pub password_hash: Seq<char>,
}

/// A user row: surrogate `id` assigned by the store on insert, a unique
/// `username`, and the `password_hash` produced by the one-way hasher —
/// never the plaintext password.
#[derive(Debug)]
pub struct User {
    pub id: u64,
    pub username: String,
    pub password_hash: String,
}

impl View for User {
    type V = UserV;

    open spec fn view(&self) -> UserV {
        UserV {
            id: self.id,
            username: self.username@,
            password_hash: self.password_hash@,
        }
    }
}

impl Clone for User {
    fn clone(&self) -> (r: Self)
        ensures
            r@ == self@,
    {
        User {
            id: self.id,
            username: self.username.clone(),
            password_hash: self.password_hash.clone(),
        }
    }
}

/// Transient value object holding the data of one insert; it has no identity
/// of its own — the store assigns the `id` when the row is created.
pub struct NewUser {
    pub username: String,
    pub password_hash: String,
}

} // verus!
