use vstd::prelude::*;

use crate::email::Email;
use crate::error::AuthAPIError;
use crate::strings::{is_decimal_digit, is_decimal_digit_char};
use crate::hashed_password::digest_verifies;
use crate::user::{User, UserView};

verus! {

/// Failures of a credential store.
#[derive(Debug)]
pub enum UserStoreError {
    UserAlreadyExists,
    UserNotFound,
    InvalidCredentials,
    UnexpectedError(String),
}

impl PartialEq for UserStoreError {
    fn eq(&self, other: &Self) -> (r: bool) {
        match (self, other) {
            (UserStoreError::UserAlreadyExists, UserStoreError::UserAlreadyExists) => true,
            (UserStoreError::UserNotFound, UserStoreError::UserNotFound) => true,
            (UserStoreError::InvalidCredentials, UserStoreError::InvalidCredentials) => true,
            (UserStoreError::UnexpectedError(_), UserStoreError::UnexpectedError(_)) => true,
            _ => false,
        }
    }
}

impl vstd::std_specs::cmp::PartialEqSpecImpl for UserStoreError {
    open spec fn obeys_eq_spec() -> bool {
        true
    }

    open spec fn eq_spec(&self, other: &Self) -> bool {
        match (self, other) {
            (UserStoreError::UserAlreadyExists, UserStoreError::UserAlreadyExists) => true,
            (UserStoreError::UserNotFound, UserStoreError::UserNotFound) => true,
            (UserStoreError::InvalidCredentials, UserStoreError::InvalidCredentials) => true,
            (UserStoreError::UnexpectedError(_), UserStoreError::UnexpectedError(_)) => true,
            _ => false,
        }
    }
}

/// Failures of a revocation store.
#[derive(Debug)]
pub enum BannedTokenStoreError {
    UnexpectedError(String),
}

impl PartialEq for BannedTokenStoreError {
    fn eq(&self, other: &Self) -> (r: bool) {
        match (self, other) {
            (
                BannedTokenStoreError::UnexpectedError(_),
                BannedTokenStoreError::UnexpectedError(_),
            ) => true,
        }
    }
}

impl vstd::std_specs::cmp::PartialEqSpecImpl for BannedTokenStoreError {
    open spec fn obeys_eq_spec() -> bool {
        true
    }

    open spec fn eq_spec(&self, other: &Self) -> bool {
        match (self, other) {
            (
                BannedTokenStoreError::UnexpectedError(_),
                BannedTokenStoreError::UnexpectedError(_),
            ) => true,
        }
    }
}

/// Failures of a two-factor challenge store.
#[derive(Debug)]
pub enum TwoFACodeStoreError {
    LoginAttemptIdNotFound,
    UnexpectedError(String),
}

impl PartialEq for TwoFACodeStoreError {
    fn eq(&self, other: &Self) -> (r: bool) {
        match (self, other) {
            (
                TwoFACodeStoreError::LoginAttemptIdNotFound,
                TwoFACodeStoreError::LoginAttemptIdNotFound,
            ) => true,
            (TwoFACodeStoreError::UnexpectedError(_), TwoFACodeStoreError::UnexpectedError(_)) => true,
            _ => false,
        }
    }
}

impl vstd::std_specs::cmp::PartialEqSpecImpl for TwoFACodeStoreError {
    open spec fn obeys_eq_spec() -> bool {
        true
    }

    open spec fn eq_spec(&self, other: &Self) -> bool {
        match (self, other) {
            (
                TwoFACodeStoreError::LoginAttemptIdNotFound,
                TwoFACodeStoreError::LoginAttemptIdNotFound,
            ) => true,
            (TwoFACodeStoreError::UnexpectedError(_), TwoFACodeStoreError::UnexpectedError(_)) => true,
            _ => false,
        }
    }
}

/// A credential store: one user per email, atomic per key.
///
/// `users()` is the store's content; `infallible()` is true of backends
/// whose operations cannot fail for reasons outside this contract, such as
/// the in-memory store. A shared persistent backend may report
/// `UnexpectedError` at any call.
pub trait UserStore: Sized {
    /// The store's content. The default exists only so that backends
    /// outside the verified build can omit the specification items; the
    /// method contracts are meaningful for verified implementations,
    /// which override it.
    open spec fn users(&self) -> Map<Seq<char>, UserView> {
        Map::<Seq<char>, UserView>::empty()
    }

    /// Whether operations on this backend cannot fail for outside
    /// reasons. The default exists only so that backends outside the
    /// verified build can omit the specification items; verified
    /// implementations override it.
    open spec fn infallible(&self) -> bool {
        false
    }

    fn add_user(&mut self, user: User) -> (r: Result<(), UserStoreError>)
        ensures
            final(self).infallible() == old(self).infallible(),
            match r {
                Ok(()) => !old(self).users().contains_key(user@.email) && final(self).users()
                    == old(self).users().insert(user@.email, user@),
                Err(UserStoreError::UserAlreadyExists) => old(self).users().contains_key(
                    user@.email,
                ) && final(self).users() == old(self).users(),
                Err(UserStoreError::UnexpectedError(_)) => !old(self).infallible()
                    && final(self).users() == old(self).users(),
                Err(_) => false,
            },
    ;

    fn get_user(&self, email: &Email) -> (r: Result<User, UserStoreError>)
        ensures
            match r {
                Ok(u) => self.users().contains_key(email@) && u@ == self.users()[email@],
                Err(UserStoreError::UserNotFound) => !self.users().contains_key(email@),
                Err(UserStoreError::UnexpectedError(_)) => !self.infallible(),
                Err(_) => false,
            },
    ;

    fn validate_user(&self, email: &Email, raw_password: &str) -> (r: Result<(), UserStoreError>)
        ensures
            match r {
                Ok(()) => self.users().contains_key(email@) && digest_verifies(
                    self.users()[email@].password,
                    raw_password@,
                ),
                Err(UserStoreError::UserNotFound) => !self.users().contains_key(email@),
                Err(UserStoreError::InvalidCredentials) => self.users().contains_key(email@)
                    && !digest_verifies(self.users()[email@].password, raw_password@),
                Err(UserStoreError::UnexpectedError(_)) => !self.infallible(),
                Err(_) => false,
            },
    ;
}

/// A revocation store: the set of token identities that have been revoked
/// before their natural expiry.
pub trait BannedTokenStore: Sized {
    /// The store's content. The default exists only so that backends
    /// outside the verified build can omit the specification items; the
    /// method contracts are meaningful for verified implementations,
    /// which override it.
    open spec fn tokens(&self) -> Set<Seq<char>> {
        Set::<Seq<char>>::empty()
    }

    /// Whether operations on this backend cannot fail for outside
    /// reasons. The default exists only so that backends outside the
    /// verified build can omit the specification items; verified
    /// implementations override it.
    open spec fn infallible(&self) -> bool {
        false
    }

    fn add_token(&mut self, token: String) -> (r: Result<(), BannedTokenStoreError>)
        ensures
            final(self).infallible() == old(self).infallible(),
            match r {
                Ok(()) => final(self).tokens() == old(self).tokens().insert(token@),
                Err(BannedTokenStoreError::UnexpectedError(_)) => !old(self).infallible()
                    && final(self).tokens() == old(self).tokens(),
            },
    ;

    fn contains_token(&self, token: &str) -> (r: Result<bool, BannedTokenStoreError>)
        ensures
            match r {
                Ok(b) => b == self.tokens().contains(token@),
                Err(BannedTokenStoreError::UnexpectedError(_)) => !self.infallible(),
            },
    ;
}

/// The mathematical content of a live two-factor challenge: the code that
/// was delivered out of band and the attempt id that was handed back to
/// the caller.
pub ghost struct ChallengeView {
    pub code: Seq<char>,
    pub id: Seq<char>,
}

/// A two-factor challenge store: at most one live challenge per email, and
/// issuing a new one silently replaces any prior unconsumed challenge.
pub trait TwoFACodeStore: Sized {
    /// The store's content. The default exists only so that backends
    /// outside the verified build can omit the specification items; the
    /// method contracts are meaningful for verified implementations,
    /// which override it.
    open spec fn codes(&self) -> Map<Seq<char>, ChallengeView> {
        Map::<Seq<char>, ChallengeView>::empty()
    }

    /// Whether operations on this backend cannot fail for outside
    /// reasons. The default exists only so that backends outside the
    /// verified build can omit the specification items; verified
    /// implementations override it.
    open spec fn infallible(&self) -> bool {
        false
    }

    fn add_code(&mut self, email: Email, login_attempt_id: LoginAttemptId, code: TwoFACode) -> (r:
        Result<(), TwoFACodeStoreError>)
        ensures
            final(self).infallible() == old(self).infallible(),
            match r {
                Ok(()) => final(self).codes() == old(self).codes().insert(
                    email@,
                    ChallengeView { code: code@, id: login_attempt_id@ },
                ),
                Err(TwoFACodeStoreError::UnexpectedError(_)) => !old(self).infallible()
                    && final(self).codes() == old(self).codes(),
                Err(_) => false,
            },
    ;

    fn remove_code(&mut self, email: &Email) -> (r: Result<(), TwoFACodeStoreError>)
        ensures
            final(self).infallible() == old(self).infallible(),
            match r {
                Ok(()) => old(self).codes().contains_key(email@) && final(self).codes() == old(
                    self,
                ).codes().remove(email@),
                Err(TwoFACodeStoreError::UnexpectedError(_)) => final(self).codes() == old(
                    self,
                ).codes() && (!old(self).codes().contains_key(email@) || !old(self).infallible()),
                Err(_) => false,
            },
            old(self).infallible() ==> (r is Ok <==> old(self).codes().contains_key(email@)),
    ;

    fn get_code(&self, email: &Email) -> (r: Result<
        (LoginAttemptId, TwoFACode),
        TwoFACodeStoreError,
    >)
        ensures
            match r {
                Ok(c) => self.codes().contains_key(email@) && c.0@ == self.codes()[email@].id
                    && c.1@ == self.codes()[email@].code,
                Err(TwoFACodeStoreError::LoginAttemptIdNotFound) => !self.codes().contains_key(
                    email@,
                ),
                Err(TwoFACodeStoreError::UnexpectedError(_)) => !self.infallible(),
            },
    ;
}

/// The canonical hyphenated rendering of a UUID string, if the string
/// parses as a UUID at all. Names the result of uuid's `Uuid::parse_str`
/// followed by rendering, which depends on the input alone.
pub uninterp spec fn uuid_canonical(s: Seq<char>) -> Option<Seq<char>>;

/// Relies on uuid's `Uuid::parse_str` and its hyphenated `to_string`
/// rendering: both depend on the input string alone.
#[verifier::external_body]
fn uuid_parse(id: &str) -> (r: Option<String>)
    ensures
        r matches Some(t) ==> uuid_canonical(id@) == Some(t@),
        r is Some <==> uuid_canonical(id@) is Some,
{
    match uuid::Uuid::parse_str(id) {
        Ok(u) => Some(u.to_string()),
        Err(_) => None,
    }
}

/// Relies on uuid's `Uuid::new_v4` and its `to_string` rendering: whatever
/// random value was drawn, the rendering is the 36-character hyphenated
/// form, which is already canonical, so parsing it back yields the same
/// text.
#[verifier::external_body]
fn uuid_generate() -> (r: String)
    ensures
        uuid_canonical(r@) == Some(r@),
        r@.len() == 36,
{
    uuid::Uuid::new_v4().to_string()
}

/// Relies on rand's `random_range`: a value uniformly drawn from the given
/// inclusive range.
#[verifier::external_body]
fn random_in_range(lo: u32, hi: u32) -> (r: u32)
    requires
        lo <= hi,
    ensures
        lo <= r <= hi,
{
    rand::random_range(lo..=hi)
}

/// An opaque random identifier for one login attempt, rendered as a
/// canonical UUID string.
#[derive(Debug)]
pub struct LoginAttemptId(pub String);

impl View for LoginAttemptId {
    type V = Seq<char>;

    open spec fn view(&self) -> Seq<char> {
        self.0@
    }
}

impl Clone for LoginAttemptId {
    fn clone(&self) -> (r: Self)
        ensures
            r@ == self@,
    {
        LoginAttemptId(self.0.clone())
    }
}

impl PartialEq for LoginAttemptId {
    fn eq(&self, other: &Self) -> (r: bool) {
        self.0 == other.0
    }
}

impl vstd::std_specs::cmp::PartialEqSpecImpl for LoginAttemptId {
    open spec fn obeys_eq_spec() -> bool {
        true
    }

    open spec fn eq_spec(&self, other: &Self) -> bool {
        self.0@ == other.0@
    }
}

impl LoginAttemptId {
    /// Accepts exactly the strings that parse as a UUID, and keeps them in
    /// canonical hyphenated form.
    pub fn parse(id: String) -> (r: Result<LoginAttemptId, String>)
        ensures
            r matches Ok(l) ==> uuid_canonical(id@) == Some(l@),
            r is Ok <==> uuid_canonical(id@) is Some,
    {
        match uuid_parse(id.as_str()) {
            Some(u) => Ok(LoginAttemptId(u)),
            None => Err(String::from_str("Failed to parse id")),
        }
    }

    /// The rendered identifier.
    pub fn as_str(&self) -> (r: &str)
        ensures
            r@ == self@,
    {
        self.0.as_str()
    }
}

impl Default for LoginAttemptId {
    /// A fresh random identifier, already in canonical form.
    fn default() -> (r: Self)
        ensures
            uuid_canonical(r@) == Some(r@),
            r@.len() == 36,
    {
        LoginAttemptId(uuid_generate())
    }
}

/// The decimal digit character for `d`.
pub open spec fn digit_char(d: int) -> char {
    if d == 0 {
        '0'
    } else if d == 1 {
        '1'
    } else if d == 2 {
        '2'
    } else if d == 3 {
        '3'
    } else if d == 4 {
        '4'
    } else if d == 5 {
        '5'
    } else if d == 6 {
        '6'
    } else if d == 7 {
        '7'
    } else if d == 8 {
        '8'
    } else {
        '9'
    }
}

/// The six decimal digits of `n`, most significant first.
pub open spec fn spec_two_fa_code(n: int) -> Seq<char> {
    seq![
        digit_char((n / 100000) % 10),
        digit_char((n / 10000) % 10),
        digit_char((n / 1000) % 10),
        digit_char((n / 100) % 10),
        digit_char((n / 10) % 10),
        digit_char(n % 10),
    ]
}

/// The one-character string for the decimal digit `d`.
fn digit_str(d: u32) -> (r: &'static str)
    requires
        d < 10,
    ensures
        r@ =~= seq![digit_char(d as int)],
{
    proof {
        reveal_strlit("0");
        reveal_strlit("1");
        reveal_strlit("2");
        reveal_strlit("3");
        reveal_strlit("4");
        reveal_strlit("5");
        reveal_strlit("6");
        reveal_strlit("7");
        reveal_strlit("8");
        reveal_strlit("9");
    }
    if d == 0 {
        "0"
    } else if d == 1 {
        "1"
    } else if d == 2 {
        "2"
    } else if d == 3 {
        "3"
    } else if d == 4 {
        "4"
    } else if d == 5 {
        "5"
    } else if d == 6 {
        "6"
    } else if d == 7 {
        "7"
    } else if d == 8 {
        "8"
    } else {
        "9"
    }
}

/// Every rendered digit is a decimal digit character.
proof fn lemma_digit_char_is_digit(d: int)
    ensures
        is_decimal_digit(digit_char(d)),
{
}

/// Renders a number of at most six decimal digits as its six-character
/// decimal string, leading zeros included.
fn two_fa_code_string(n: u32) -> (r: String)
    requires
        n <= 999_999,
    ensures
        r@ == spec_two_fa_code(n as int),
        valid_two_fa_code(r@),
{
    let mut s = String::new();
    s.append(digit_str((n / 100000) % 10));
    s.append(digit_str((n / 10000) % 10));
    s.append(digit_str((n / 1000) % 10));
    s.append(digit_str((n / 100) % 10));
    s.append(digit_str((n / 10) % 10));
    s.append(digit_str(n % 10));
    proof {
        assert(s@ =~= spec_two_fa_code(n as int));
        assert forall|i: int| 0 <= i < s@.len() implies is_decimal_digit(#[trigger] s@[i]) by {
            lemma_digit_char_is_digit((n as int / 100000) % 10);
            lemma_digit_char_is_digit((n as int / 10000) % 10);
            lemma_digit_char_is_digit((n as int / 1000) % 10);
            lemma_digit_char_is_digit((n as int / 100) % 10);
            lemma_digit_char_is_digit((n as int / 10) % 10);
            lemma_digit_char_is_digit(n as int % 10);
        }
    }
    s
}

/// The six-character proof-of-possession code delivered out of band during
/// a two-factor login.
#[derive(Debug)]
pub struct TwoFACode(pub String);

impl View for TwoFACode {
    type V = Seq<char>;

    open spec fn view(&self) -> Seq<char> {
        self.0@
    }
}

impl Clone for TwoFACode {
    fn clone(&self) -> (r: Self)
        ensures
            r@ == self@,
    {
        TwoFACode(self.0.clone())
    }
}

impl PartialEq for TwoFACode {
    fn eq(&self, other: &Self) -> (r: bool) {
        self.0 == other.0
    }
}

impl vstd::std_specs::cmp::PartialEqSpecImpl for TwoFACode {
    open spec fn obeys_eq_spec() -> bool {
        true
    }

    open spec fn eq_spec(&self, other: &Self) -> bool {
        self.0@ == other.0@
    }
}

/// The shape every accepted code satisfies: exactly six decimal digits.
pub open spec fn valid_two_fa_code(s: Seq<char>) -> bool {
    &&& s.len() == 6
    &&& forall|i: int| 0 <= i < s.len() ==> is_decimal_digit(#[trigger] s[i])
}

impl TwoFACode {
    /// Accepts exactly the six-digit numeric strings.
    pub fn parse(code: String) -> (r: Result<TwoFACode, String>)
        ensures
            r matches Ok(c) ==> c@ == code@,
            r is Ok <==> valid_two_fa_code(code@),
    {
        if code.as_str().unicode_len() != 6 {
            return Err(String::from_str("Code is invalid"));
        }
        let mut i: usize = 0;
        while i < 6
            invariant
                code@.len() == 6,
                i <= 6,
                forall|j: int| 0 <= j < i ==> is_decimal_digit(#[trigger] code@[j]),
            decreases 6 - i,
        {
            if !is_decimal_digit_char(code.as_str().get_char(i)) {
                return Err(String::from_str("Code is invalid"));
            }
            i += 1;
        }
        Ok(TwoFACode(code))
    }

    /// The rendered code.
    pub fn as_str(&self) -> (r: &str)
        ensures
            r@ == self@,
    {
        self.0.as_str()
    }
}

impl Default for TwoFACode {
    /// A uniformly random six-digit code: the decimal rendering of a
    /// number drawn from the whole six-digit range, leading zeros
    /// allowed.
    fn default() -> (r: Self)
        ensures
            valid_two_fa_code(r@),
            exists|n: int| 0 <= n <= 999_999 && r@ == spec_two_fa_code(n),
    {
        let n = random_in_range(0, 999_999);
        let code = two_fa_code_string(n);
        proof {
            assert(0 <= n as int <= 999_999 && code@ == spec_two_fa_code(n as int));
        }
        TwoFACode(code)
    }
}

/// Whether the live challenge for `email` is exactly the pair the caller
/// presented: a record must exist and both the attempt id and the code
/// must match.
pub open spec fn challenge_matches(
    codes: Map<Seq<char>, ChallengeView>,
    email: Seq<char>,
    id: Seq<char>,
    code: Seq<char>,
) -> bool {
    &&& codes.contains_key(email)
    &&& codes[email].id == id
    &&& codes[email].code == code
}

/// The one-shot challenge check: fetches the live challenge for the email,
/// compares the attempt id and the code against the current stored pair,
/// and deletes the record on a match — one exclusive store access, so two
/// racing checks cannot both succeed. A mismatch and an absent record are
/// both answered with `IncorrectCredentials`, not distinguished to the
/// caller.
pub fn verify_and_consume<S: TwoFACodeStore>(
    store: &mut S,
    email: &Email,
    login_attempt_id: &LoginAttemptId,
    code: &TwoFACode,
) -> (r: Result<(), AuthAPIError>)
    ensures
        final(store).infallible() == old(store).infallible(),
        r is Ok ==> challenge_matches(old(store).codes(), email@, login_attempt_id@, code@)
            && final(store).codes() == old(store).codes().remove(email@),
        r is Err ==> final(store).codes() == old(store).codes(),
        r matches Err(e) ==> (e == AuthAPIError::IncorrectCredentials || e
            matches AuthAPIError::UnexpectedError(_)),
        old(store).infallible() ==> (r is Ok <==> challenge_matches(
            old(store).codes(),
            email@,
            login_attempt_id@,
            code@,
        )),
        old(store).infallible() && r is Err ==> r == Err::<(), AuthAPIError>(
            AuthAPIError::IncorrectCredentials,
        ),
{
    let (stored_id, stored_code) = match store.get_code(email) {
        Ok(pair) => pair,
        Err(_) => {
            return Err(AuthAPIError::IncorrectCredentials);
        },
    };
    if !(stored_id == *login_attempt_id) {
        return Err(AuthAPIError::IncorrectCredentials);
    }
    if !(stored_code == *code) {
        return Err(AuthAPIError::IncorrectCredentials);
    }
    match store.remove_code(email) {
        Ok(()) => Ok(()),
        Err(TwoFACodeStoreError::UnexpectedError(m)) => Err(AuthAPIError::UnexpectedError(m)),
        Err(TwoFACodeStoreError::LoginAttemptIdNotFound) => Err(
            AuthAPIError::IncorrectCredentials,
        ),
    }
}

/// Issuing a second challenge for the same email invalidates verification
/// against the first challenge's pair: once the store holds the new
/// challenge, a pair that differs from it no longer matches, whatever it
/// matched before.
pub proof fn lemma_second_challenge_invalidates_first(
    codes: Map<Seq<char>, ChallengeView>,
    email: Seq<char>,
    first: ChallengeView,
    second: ChallengeView,
)
    requires
        first != second,
    ensures
        !challenge_matches(codes.insert(email, second), email, first.id, first.code),
{
}

/// A consumed challenge cannot be consumed again: once the record for the
/// email is deleted, no pair matches under that email any more.
pub proof fn lemma_challenge_consumed_once(
    codes: Map<Seq<char>, ChallengeView>,
    email: Seq<char>,
    id: Seq<char>,
    code: Seq<char>,
)
    ensures
        !challenge_matches(codes.remove(email), email, id, code),
{
}

} // verus!
