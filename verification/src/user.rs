use vstd::prelude::*;

use crate::data_stores::UserStoreError;
use crate::email::{valid_email, Email};
use crate::hashed_password::{phc_parsed, HashedPassword};

verus! {

/// The mathematical content of a stored user record.
pub ghost struct UserView {
    /// The user's email address.
    pub email: Seq<char>,
    /// The stored password digest.
    pub password: Seq<char>,
    /// Whether logins for this user demand a second factor.
    pub requires_2fa: bool,
}

/// A registered user: the natural key, the password digest, and whether a
/// second factor is demanded at login. Immutable once created.
#[derive(Debug)]
pub struct User {
    pub email: Email,
    pub password: HashedPassword,
    pub requires_2fa: bool,
}

impl View for User {
    type V = UserView;

    open spec fn view(&self) -> UserView {
        UserView { email: self.email@, password: self.password@, requires_2fa: self.requires_2fa }
    }
}

impl Clone for User {
    fn clone(&self) -> (r: Self)
        ensures
            r@ == self@,
    {
        User {
            email: self.email.clone(),
            password: self.password.clone(),
            requires_2fa: self.requires_2fa,
        }
    }
}

impl PartialEq for User {
    fn eq(&self, other: &Self) -> (r: bool) {
        self.email == other.email && self.password == other.password && self.requires_2fa
            == other.requires_2fa
    }
}

impl vstd::std_specs::cmp::PartialEqSpecImpl for User {
    open spec fn obeys_eq_spec() -> bool {
        true
    }

    open spec fn eq_spec(&self, other: &Self) -> bool {
        self@ == other@
    }
}

impl User {
    pub fn new(email: Email, password: HashedPassword, requires_2fa: bool) -> (r: User)
        ensures
            r == (User { email, password, requires_2fa }),
    {
        User { email, password, requires_2fa }
    }

    /// Rebuilds a user from the plain columns of a stored row: the email
    /// must be valid and the digest well-formed, anything else is a sign of
    /// a corrupted record.
    pub fn from_stored(email: String, password_hash: String, requires_2fa: bool) -> (r: Result<
        User,
        UserStoreError,
    >)
        ensures
            r matches Ok(u) ==> valid_email(email@) && u@.email == email@ && phc_parsed(
                password_hash@,
            ) == Some(u@.password) && u@.requires_2fa == requires_2fa,
            r is Ok <==> (valid_email(email@) && phc_parsed(password_hash@) is Some),
            r matches Err(e) ==> e matches UserStoreError::UnexpectedError(_),
    {
        let parsed_email = match Email::parse(email) {
            Ok(e) => e,
            Err(m) => {
                return Err(UserStoreError::UnexpectedError(m));
            },
        };
        let digest = match HashedPassword::parse_password_hash(password_hash) {
            Ok(d) => d,
            Err(m) => {
                return Err(UserStoreError::UnexpectedError(m));
            },
        };
        Ok(User::new(parsed_email, digest, requires_2fa))
    }
}

} // verus!
