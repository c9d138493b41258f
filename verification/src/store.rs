//! The credential store: rows of users with a store-enforced uniqueness
//! constraint on the username.
//!
//! The store models the persistent table: rows are kept in insertion order,
//! each row's surrogate `id` is its position, and no two rows share a
//! username. Uniqueness is enforced by the insert itself — a caller never
//! has to (and must not) run its own check-then-insert sequence.

use vstd::prelude::*;

use crate::errors::CredentialError;
use crate::user::{NewUser, User, UserV};

verus! {

pub struct CredentialStore {
    users: Vec<User>,
}

impl CredentialStore {
    /// The rows of the table, in insertion order.
    pub closed spec fn rows(&self) -> Seq<UserV> {
        self.users@.map(|i: int, u: User| u@)
    }

    /// Well-formedness: usernames are pairwise distinct and each row's
    /// surrogate id is its position in the table.
    pub open spec fn wf(&self) -> bool {
        &&& forall|i: int, j: int|
            0 <= i < j < self.rows().len() ==> (#[trigger] self.rows()[i]).username != (
            #[trigger] self.rows()[j]).username
        &&& forall|i: int| 0 <= i < self.rows().len() ==> (#[trigger] self.rows()[i].id) == i
    }

    /// Whether some row carries this username.
    pub open spec fn has_user(&self, name: Seq<char>) -> bool {
        exists|i: int| 0 <= i < self.rows().len() && (#[trigger] self.rows()[i]).username == name
    }

    /// The index of the row carrying this username (meaningful only when
    /// `has_user(name)` holds; with `wf()` it is unique).
    pub open spec fn index_of(&self, name: Seq<char>) -> int {
        choose|i: int| 0 <= i < self.rows().len() && (#[trigger] self.rows()[i]).username == name
    }

    /// The row carrying this username (meaningful only when `has_user(name)`).
    pub open spec fn user_of(&self, name: Seq<char>) -> UserV {
        self.rows()[self.index_of(name)]
    }

    /// In a well-formed store, any row whose username is `name` is the row
    /// `user_of(name)`.
    pub proof fn lemma_user_of_at(&self, i: int, name: Seq<char>)
        requires
            self.wf(),
            0 <= i < self.rows().len(),
            self.rows()[i].username == name,
        ensures
            self.has_user(name),
            self.index_of(name) == i,
            self.user_of(name) == self.rows()[i],
    {
        assert(self.has_user(name));
        let j = self.index_of(name);
        if i < j {
            assert(self.rows()[i].username != self.rows()[j].username);
        } else if j < i {
            assert(self.rows()[j].username != self.rows()[i].username);
        }
    }

    /// An empty store.
    pub fn new() -> (s: Self)
        ensures
            s.rows() == Seq::<UserV>::empty(),
            s.wf(),
    {
        let s = CredentialStore { users: Vec::new() };
        proof {
            assert(s.rows() =~= Seq::<UserV>::empty());
        }
        s
    }

    /// The index of the row carrying `username`, if any.
    fn find_index(&self, username: &str) -> (r: Option<usize>)
        ensures
            r matches Some(i) ==> i < self.rows().len() && self.rows()[i as int].username == username@,
            r is None ==> !self.has_user(username@),
    {
        let target: String = username.to_owned();
        let n = self.users.len();
        let mut k: usize = 0;
        while k < n
            invariant
                n == self.users.len(),
                k <= n,
                target@ == username@,
                forall|j: int| 0 <= j < k ==> (#[trigger] self.rows()[j]).username != username@,
            decreases n - k,
        {
            if self.users[k].username == target {
                return Some(k);
            }
            k += 1;
        }
        None
    }

    /// Atomic insert-and-return. Surfaces `DuplicateKeyError` when the
    /// username already has a row — in that case the store is unchanged —
    /// and otherwise appends a row whose id is the next free position.
    pub fn insert(&mut self, new_user: NewUser) -> (r: Result<User, CredentialError>)
        requires
            old(self).wf(),
        ensures
            final(self).wf(),
            old(self).has_user(new_user.username@) ==> r == Err::<User, CredentialError>(
                CredentialError::DuplicateKeyError,
            ) && *final(self) == *old(self),
            !old(self).has_user(new_user.username@) ==> (r matches Ok(u)
                && u@.username == new_user.username@
                && u@.password_hash == new_user.password_hash@
                && u@.id == old(self).rows().len()
                && final(self).rows() == old(self).rows().push(u@)
                && final(self).has_user(new_user.username@)
                && final(self).user_of(new_user.username@) == u@),
            forall|n: Seq<char>|
                n != new_user.username@ ==> #[trigger] final(self).has_user(n) == old(self).has_user(n),
            forall|n: Seq<char>|
                n != new_user.username@ && old(self).has_user(n) ==> #[trigger] final(self).user_of(
                    n,
                ) == old(self).user_of(n),
    {
        match self.find_index(new_user.username.as_str()) {
            Some(i) => {
                proof {
                    self.lemma_user_of_at(i as int, new_user.username@);
                }
                Err(CredentialError::DuplicateKeyError)
            },
            None => {
                let id = self.users.len() as u64;
                let user = User { id, username: new_user.username, password_hash: new_user.password_hash };
                let returned = user.clone();
                let ghost pre = *self;
                self.users.push(user);
                proof {
                    assert(self.rows() =~= pre.rows().push(returned@));
                    self.lemma_user_of_at(pre.rows().len() as int, returned@.username);
                    assert forall|n: Seq<char>| n != returned@.username implies #[trigger] self.has_user(
                        n,
                    ) == pre.has_user(n) by {
                        if pre.has_user(n) {
                            let j = pre.index_of(n);
                            assert(self.rows()[j].username == n);
                        }
                        if self.has_user(n) {
                            let j = self.index_of(n);
                            assert(self.rows()[j].username == n);
                            assert(j < pre.rows().len());
                            assert(pre.rows()[j].username == n);
                        }
                    }
                    assert forall|n: Seq<char>| n != returned@.username && pre.has_user(n) implies #[trigger] self.user_of(
                        n,
                    ) == pre.user_of(n) by {
                        let j = pre.index_of(n);
                        assert(pre.rows()[j].username == n);
                        assert(self.rows()[j].username == n);
                        self.lemma_user_of_at(j, n);
                    }
                }
                Ok(returned)
            },
        }
    }

    /// Single-row lookup by username. `NotFoundError` is the normal outcome
    /// for an absent username, not a fault.
    pub fn find_by_username(&self, username: &str) -> (r: Result<User, CredentialError>)
        requires
            self.wf(),
        ensures
            self.has_user(username@) ==> (r matches Ok(u) && u@ == self.user_of(username@)),
            !self.has_user(username@) ==> r == Err::<User, CredentialError>(
                CredentialError::NotFoundError,
            ),
    {
        match self.find_index(username) {
            Some(i) => {
                proof {
                    self.lemma_user_of_at(i as int, username@);
                }
                Ok(self.users[i].clone())
            },
            None => Err(CredentialError::NotFoundError),
        }
    }

    /// The number of rows.
    pub fn len(&self) -> (n: usize)
        ensures
            n == self.rows().len(),
    {
        self.users.len()
    }
}

} // verus!
