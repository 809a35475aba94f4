use vstd::prelude::*;

use crate::data_stores::{
    ChallengeView, LoginAttemptId, TwoFACode, TwoFACodeStore, TwoFACodeStoreError,
};
use crate::email::Email;

verus! {

/// One live challenge record: the email it was issued for, the code that
/// was delivered out of band, and the attempt id handed to the caller.
struct TwoFAEntry {
    email: Email,
    code: TwoFACode,
    attempt_id: LoginAttemptId,
}

impl TwoFAEntry {
    spec fn challenge(&self) -> ChallengeView {
        ChallengeView { code: self.code@, id: self.attempt_id@ }
    }
}

/// The challenge map a sequence of records denotes: later records win,
/// though a well-formed store never holds two records for one email.
spec fn codes_map_of(s: Seq<TwoFAEntry>) -> Map<Seq<char>, ChallengeView>
    decreases s.len(),
{
    if s.len() == 0 {
        Map::<Seq<char>, ChallengeView>::empty()
    } else {
        codes_map_of(s.drop_last()).insert(s.last().email@, s.last().challenge())
    }
}

/// Pairwise distinct emails over the records.
spec fn entries_unique(s: Seq<TwoFAEntry>) -> bool {
    forall|p: int, q: int| 0 <= p < q < s.len() ==> s[p].email@ != s[q].email@
}

/// An email is a key of the denoted map exactly when some record carries it.
proof fn lemma_codes_map_contains(s: Seq<TwoFAEntry>, k: Seq<char>)
    ensures
        codes_map_of(s).contains_key(k) <==> exists|i: int| 0 <= i < s.len() && s[i].email@ == k,
    decreases s.len(),
{
    if s.len() > 0 {
        lemma_codes_map_contains(s.drop_last(), k);
        if s.last().email@ == k {
            assert(s[s.len() - 1].email@ == k);
        } else {
            if exists|i: int| 0 <= i < s.len() && s[i].email@ == k {
                let i = choose|i: int| 0 <= i < s.len() && s[i].email@ == k;
                assert(s.drop_last()[i] == s[i]);
            }
        }
    }
}

/// With pairwise distinct emails, the record at any index is what the
/// denoted map holds under its email.
proof fn lemma_codes_map_index(s: Seq<TwoFAEntry>, i: int)
    requires
        entries_unique(s),
        0 <= i < s.len(),
    ensures
        codes_map_of(s).contains_key(s[i].email@),
        codes_map_of(s)[s[i].email@] == s[i].challenge(),
    decreases s.len(),
{
    if i == s.len() - 1 {
    } else {
        assert(s.drop_last()[i] == s[i]);
        lemma_codes_map_index(s.drop_last(), i);
        assert(s[i].email@ != s.last().email@);
    }
}

/// Pushing a record denotes inserting its challenge under its email.
proof fn lemma_codes_map_push(s: Seq<TwoFAEntry>, e: TwoFAEntry)
    ensures
        codes_map_of(s.push(e)) == codes_map_of(s).insert(e.email@, e.challenge()),
{
    assert(s.push(e).drop_last() =~= s);
    assert(s.push(e).last() == e);
}

/// With pairwise distinct emails, taking out the record at an index
/// denotes removing its email from the map.
proof fn lemma_codes_map_remove(s: Seq<TwoFAEntry>, i: int)
    requires
        entries_unique(s),
        0 <= i < s.len(),
    ensures
        codes_map_of(s.remove(i)) == codes_map_of(s).remove(s[i].email@),
    decreases s.len(),
{
    let k = s[i].email@;
    if i == s.len() - 1 {
        assert(s.remove(i) =~= s.drop_last());
        lemma_codes_map_contains(s.drop_last(), k);
        assert(forall|j: int| 0 <= j < s.len() - 1 ==> s.drop_last()[j] == s[j]);
        assert(!codes_map_of(s.drop_last()).contains_key(k));
        assert(codes_map_of(s).remove(k) =~= codes_map_of(s.drop_last()));
    } else {
        assert(s.remove(i).drop_last() =~= s.drop_last().remove(i));
        assert(s.remove(i).last() == s.last());
        assert(forall|j: int| 0 <= j < s.len() - 1 ==> s.drop_last()[j] == s[j]);
        lemma_codes_map_remove(s.drop_last(), i);
        assert(s[i].email@ != s.last().email@);
        assert(codes_map_of(s.drop_last()).remove(k).insert(s.last().email@, s.last().challenge())
            =~= codes_map_of(s.drop_last()).insert(s.last().email@, s.last().challenge()).remove(
            k,
        ));
    }
}

/// The in-memory two-factor challenge store: at most one live challenge
/// per email, held in a vector.
pub struct HashmapTwoFACodeStore {
    two_fa_store: Vec<TwoFAEntry>,
}

impl HashmapTwoFACodeStore {
    #[verifier::type_invariant]
    spec fn well_formed(self) -> bool {
        entries_unique(self.two_fa_store@)
    }

    /// An empty store.
    pub fn new() -> (r: HashmapTwoFACodeStore)
        ensures
            r.codes() == Map::<Seq<char>, ChallengeView>::empty(),
            r.infallible(),
    {
        HashmapTwoFACodeStore { two_fa_store: Vec::new() }
    }

    /// The index of the record for `email`, if one is held.
    fn find_entry_index(&self, email: &Email) -> (r: Option<usize>)
        ensures
            r matches Some(i) ==> i < self.two_fa_store@.len() && self.two_fa_store@[i as int].email@
                == email@,
            r is None ==> forall|i: int|
                0 <= i < self.two_fa_store@.len() ==> self.two_fa_store@[i].email@ != email@,
    {
        let n = self.two_fa_store.len();
        let mut i: usize = 0;
        while i < n
            invariant
                n == self.two_fa_store@.len(),
                i <= n,
                forall|j: int| 0 <= j < i ==> self.two_fa_store@[j].email@ != email@,
            decreases n - i,
        {
            if self.two_fa_store[i].email == *email {
                return Some(i);
            }
            i += 1;
        }
        None
    }
}

impl Default for HashmapTwoFACodeStore {
    /// An empty store.
    fn default() -> (r: HashmapTwoFACodeStore)
        ensures
            r.codes() == Map::<Seq<char>, ChallengeView>::empty(),
            r.infallible(),
    {
        HashmapTwoFACodeStore::new()
    }
}

impl TwoFACodeStore for HashmapTwoFACodeStore {
    closed spec fn codes(&self) -> Map<Seq<char>, ChallengeView> {
        codes_map_of(self.two_fa_store@)
    }

    closed spec fn infallible(&self) -> bool {
        true
    }

    fn add_code(&mut self, email: Email, login_attempt_id: LoginAttemptId, code: TwoFACode) -> (r:
        Result<(), TwoFACodeStoreError>) {
        proof {
            use_type_invariant(&*self);
        }
        let entry = TwoFAEntry { email, code, attempt_id: login_attempt_id };
        let ghost s0 = self.two_fa_store@;
        match self.find_entry_index(&entry.email) {
            Some(i) => {
                proof {
                    lemma_codes_map_remove(s0, i as int);
                    s0.remove_ensures(i as int);
                    assert(entries_unique(s0.remove(i as int)));
                    lemma_codes_map_contains(s0.remove(i as int), entry.email@);
                    lemma_codes_map_push(s0.remove(i as int), entry);
                }
                let mut entries: Vec<TwoFAEntry> = Vec::new();
                core::mem::swap(&mut self.two_fa_store, &mut entries);
                entries.remove(i);
                entries.push(entry);
                core::mem::swap(&mut self.two_fa_store, &mut entries);
                proof {
                    assert(codes_map_of(self.two_fa_store@) =~= codes_map_of(s0).insert(
                        self.two_fa_store@.last().email@,
                        self.two_fa_store@.last().challenge(),
                    ));
                }
                Ok(())
            },
            None => {
                proof {
                    lemma_codes_map_push(s0, entry);
                }
                let mut entries: Vec<TwoFAEntry> = Vec::new();
                core::mem::swap(&mut self.two_fa_store, &mut entries);
                entries.push(entry);
                core::mem::swap(&mut self.two_fa_store, &mut entries);
                Ok(())
            },
        }
    }

    fn remove_code(&mut self, email: &Email) -> (r: Result<(), TwoFACodeStoreError>) {
        proof {
            use_type_invariant(&*self);
        }
        match self.find_entry_index(email) {
            Some(i) => {
                proof {
                    lemma_codes_map_index(self.two_fa_store@, i as int);
                    lemma_codes_map_remove(self.two_fa_store@, i as int);
                }
                let mut entries: Vec<TwoFAEntry> = Vec::new();
                core::mem::swap(&mut self.two_fa_store, &mut entries);
                entries.remove(i);
                core::mem::swap(&mut self.two_fa_store, &mut entries);
                Ok(())
            },
            None => {
                proof {
                    lemma_codes_map_contains(self.two_fa_store@, email@);
                }
                Err(
                    TwoFACodeStoreError::UnexpectedError(
                        String::from_str("Code not found for given email!"),
                    ),
                )
            },
        }
    }

    fn get_code(&self, email: &Email) -> (r: Result<
        (LoginAttemptId, TwoFACode),
        TwoFACodeStoreError,
    >) {
        proof {
            use_type_invariant(self);
        }
        match self.find_entry_index(email) {
            Some(i) => {
                proof {
                    lemma_codes_map_index(self.two_fa_store@, i as int);
                }
                let entry = &self.two_fa_store[i];
                Ok((entry.attempt_id.clone(), entry.code.clone()))
            },
            None => {
                proof {
                    lemma_codes_map_contains(self.two_fa_store@, email@);
                }
                Err(TwoFACodeStoreError::LoginAttemptIdNotFound)
            },
        }
    }
}

} // verus!
