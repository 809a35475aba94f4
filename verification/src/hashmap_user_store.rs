use vstd::prelude::*;

use crate::data_stores::{UserStore, UserStoreError};
use crate::email::Email;
use crate::user::{User, UserView};

verus! {

/// The credential map a sequence of user records denotes: later records
/// win, though a well-formed store never holds two records for one email.
spec fn users_map_of(s: Seq<User>) -> Map<Seq<char>, UserView>
    decreases s.len(),
{
    if s.len() == 0 {
        Map::<Seq<char>, UserView>::empty()
    } else {
        users_map_of(s.drop_last()).insert(s.last()@.email, s.last()@)
    }
}

/// An email is a key of the denoted map exactly when some record carries it.
proof fn lemma_users_map_contains(s: Seq<User>, k: Seq<char>)
    ensures
        users_map_of(s).contains_key(k) <==> exists|i: int| 0 <= i < s.len() && s[i]@.email == k,
    decreases s.len(),
{
    if s.len() > 0 {
        lemma_users_map_contains(s.drop_last(), k);
        if s.last()@.email == k {
            assert(s[s.len() - 1]@.email == k);
        } else {
            if exists|i: int| 0 <= i < s.len() && s[i]@.email == k {
                let i = choose|i: int| 0 <= i < s.len() && s[i]@.email == k;
                assert(s.drop_last()[i] == s[i]);
            }
        }
    }
}

/// With pairwise distinct emails, the record at any index is what the
/// denoted map holds under its email.
proof fn lemma_users_map_index(s: Seq<User>, i: int)
    requires
        forall|p: int, q: int| 0 <= p < q < s.len() ==> s[p]@.email != s[q]@.email,
        0 <= i < s.len(),
    ensures
        users_map_of(s).contains_key(s[i]@.email),
        users_map_of(s)[s[i]@.email] == s[i]@,
    decreases s.len(),
{
    if i == s.len() - 1 {
    } else {
        assert(s.drop_last()[i] == s[i]);
        lemma_users_map_index(s.drop_last(), i);
        assert(s[i]@.email != s.last()@.email);
    }
}

/// Pushing a record denotes inserting it under its email.
proof fn lemma_users_map_push(s: Seq<User>, u: User)
    ensures
        users_map_of(s.push(u)) == users_map_of(s).insert(u@.email, u@),
{
    assert(s.push(u).drop_last() =~= s);
    assert(s.push(u).last() == u);
}

/// The in-memory credential store: one record per email, held in a vector.
pub struct HashmapUserStore {
    users: Vec<User>,
}

impl HashmapUserStore {
    #[verifier::type_invariant]
    spec fn well_formed(self) -> bool {
        forall|p: int, q: int|
            0 <= p < q < self.users@.len() ==> self.users@[p]@.email != self.users@[q]@.email
    }

    /// An empty store.
    pub fn new() -> (r: HashmapUserStore)
        ensures
            r.users() == Map::<Seq<char>, UserView>::empty(),
            r.infallible(),
    {
        HashmapUserStore { users: Vec::new() }
    }

    /// The index of the record for `email`, if one is held.
    fn find_user_index(&self, email: &Email) -> (r: Option<usize>)
        ensures
            r matches Some(i) ==> i < self.users@.len() && self.users@[i as int]@.email == email@,
            r is None ==> forall|i: int|
                0 <= i < self.users@.len() ==> self.users@[i]@.email != email@,
    {
        let n = self.users.len();
        let mut i: usize = 0;
        while i < n
            invariant
                n == self.users@.len(),
                i <= n,
                forall|j: int| 0 <= j < i ==> self.users@[j]@.email != email@,
            decreases n - i,
        {
            if self.users[i].email == *email {
                return Some(i);
            }
            i += 1;
        }
        None
    }
}

impl Default for HashmapUserStore {
    /// An empty store.
    fn default() -> (r: HashmapUserStore)
        ensures
            r.users() == Map::<Seq<char>, UserView>::empty(),
            r.infallible(),
    {
        HashmapUserStore::new()
    }
}

impl UserStore for HashmapUserStore {
    closed spec fn users(&self) -> Map<Seq<char>, UserView> {
        users_map_of(self.users@)
    }

    closed spec fn infallible(&self) -> bool {
        true
    }

    fn add_user(&mut self, user: User) -> (r: Result<(), UserStoreError>) {
        proof {
            use_type_invariant(&*self);
        }
        match self.find_user_index(&user.email) {
            Some(i) => {
                proof {
                    lemma_users_map_index(self.users@, i as int);
                }
                Err(UserStoreError::UserAlreadyExists)
            },
            None => {
                proof {
                    lemma_users_map_contains(self.users@, user@.email);
                    lemma_users_map_push(self.users@, user);
                }
                let mut users: Vec<User> = Vec::new();
                core::mem::swap(&mut self.users, &mut users);
                users.push(user);
                core::mem::swap(&mut self.users, &mut users);
                Ok(())
            },
        }
    }

    fn get_user(&self, email: &Email) -> (r: Result<User, UserStoreError>) {
        proof {
            use_type_invariant(self);
        }
        match self.find_user_index(email) {
            Some(i) => {
                proof {
                    lemma_users_map_index(self.users@, i as int);
                }
                Ok(self.users[i].clone())
            },
            None => {
                proof {
                    lemma_users_map_contains(self.users@, email@);
                }
                Err(UserStoreError::UserNotFound)
            },
        }
    }

    fn validate_user(&self, email: &Email, raw_password: &str) -> (r: Result<
        (),
        UserStoreError,
    >) {
        proof {
            use_type_invariant(self);
        }
        match self.find_user_index(email) {
            Some(i) => {
                proof {
                    lemma_users_map_index(self.users@, i as int);
                }
                match self.users[i].password.verify_raw_password(raw_password) {
                    Ok(()) => Ok(()),
                    Err(_) => Err(UserStoreError::InvalidCredentials),
                }
            },
            None => {
                proof {
                    lemma_users_map_contains(self.users@, email@);
                }
                Err(UserStoreError::UserNotFound)
            },
        }
    }
}

} // verus!
