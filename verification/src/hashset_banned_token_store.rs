use vstd::prelude::*;

use crate::data_stores::{BannedTokenStore, BannedTokenStoreError};
use crate::strings::str_eq;

verus! {

/// The set of token identities a sequence of recorded tokens denotes.
spec fn token_set_of(s: Seq<String>) -> Set<Seq<char>>
    decreases s.len(),
{
    if s.len() == 0 {
        Set::<Seq<char>>::empty()
    } else {
        token_set_of(s.drop_last()).insert(s.last()@)
    }
}

/// A token is in the denoted set exactly when some record holds it.
proof fn lemma_token_set_contains(s: Seq<String>, k: Seq<char>)
    ensures
        token_set_of(s).contains(k) <==> exists|i: int| 0 <= i < s.len() && s[i]@ == k,
    decreases s.len(),
{
    if s.len() > 0 {
        lemma_token_set_contains(s.drop_last(), k);
        if s.last()@ == k {
            assert(s[s.len() - 1]@ == k);
        } else {
            if exists|i: int| 0 <= i < s.len() && s[i]@ == k {
                let i = choose|i: int| 0 <= i < s.len() && s[i]@ == k;
                assert(s.drop_last()[i] == s[i]);
            }
        }
    }
}

/// Recording one more token denotes inserting it into the set.
proof fn lemma_token_set_push(s: Seq<String>, t: String)
    ensures
        token_set_of(s.push(t)) == token_set_of(s).insert(t@),
{
    assert(s.push(t).drop_last() =~= s);
    assert(s.push(t).last() == t);
}

/// The in-memory revocation store: the identities of revoked tokens, held
/// in a vector without duplicates.
pub struct HashsetBannedTokenStore {
    banned_tokens: Vec<String>,
}

impl HashsetBannedTokenStore {
    /// An empty store.
    pub fn new() -> (r: HashsetBannedTokenStore)
        ensures
            r.tokens() == Set::<Seq<char>>::empty(),
            r.infallible(),
    {
        HashsetBannedTokenStore { banned_tokens: Vec::new() }
    }

    /// Whether some record holds `token`.
    fn find_token(&self, token: &str) -> (r: bool)
        ensures
            r == exists|i: int| 0 <= i < self.banned_tokens@.len() && self.banned_tokens@[i]@
                == token@,
    {
        let n = self.banned_tokens.len();
        let mut i: usize = 0;
        while i < n
            invariant
                n == self.banned_tokens@.len(),
                i <= n,
                forall|j: int| 0 <= j < i ==> self.banned_tokens@[j]@ != token@,
            decreases n - i,
        {
            if str_eq(self.banned_tokens[i].as_str(), token) {
                return true;
            }
            i += 1;
        }
        false
    }
}

impl Default for HashsetBannedTokenStore {
    /// An empty store.
    fn default() -> (r: HashsetBannedTokenStore)
        ensures
            r.tokens() == Set::<Seq<char>>::empty(),
            r.infallible(),
    {
        HashsetBannedTokenStore::new()
    }
}

impl BannedTokenStore for HashsetBannedTokenStore {
    closed spec fn tokens(&self) -> Set<Seq<char>> {
        token_set_of(self.banned_tokens@)
    }

    closed spec fn infallible(&self) -> bool {
        true
    }

    fn add_token(&mut self, token: String) -> (r: Result<(), BannedTokenStoreError>) {
        proof {
            lemma_token_set_contains(self.banned_tokens@, token@);
        }
        if self.find_token(token.as_str()) {
            proof {
                assert(self.tokens().insert(token@) =~= self.tokens());
            }
        } else {
            proof {
                lemma_token_set_push(self.banned_tokens@, token);
            }
            self.banned_tokens.push(token);
        }
        Ok(())
    }

    fn contains_token(&self, token: &str) -> (r: Result<bool, BannedTokenStoreError>) {
        proof {
            lemma_token_set_contains(self.banned_tokens@, token@);
        }
        Ok(self.find_token(token))
    }
}

} // verus!
