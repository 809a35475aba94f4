use vstd::prelude::*;

use crate::data_stores::{UserStore, UserStoreError};
use crate::email::{valid_email, Email};
use crate::error::AuthAPIError;
use crate::hashed_password::{digest_verifies, HashedPassword};
use crate::user::{User, UserView};

verus! {

/// The plain content of a signup request.
#[derive(Debug)]
pub struct SignupRequest {
    pub password: String,
    pub email: String,
    pub requires_2fa: bool,
}

/// The body a successful signup is answered with.
#[derive(Debug)]
pub struct SignupResponse {
    pub message: String,
}

impl PartialEq for SignupResponse {
    fn eq(&self, other: &Self) -> (r: bool) {
        self.message == other.message
    }
}

impl vstd::std_specs::cmp::PartialEqSpecImpl for SignupResponse {
    open spec fn obeys_eq_spec() -> bool {
        true
    }

    open spec fn eq_spec(&self, other: &Self) -> bool {
        self.message@ == other.message@
    }
}

/// Whether a signup for this email and raw password is accepted against
/// the given store content: both inputs are well-shaped and the email is
/// not yet registered.
pub open spec fn signup_accepted(
    users: Map<Seq<char>, UserView>,
    email: Seq<char>,
    password: Seq<char>,
) -> bool {
    &&& valid_email(email)
    &&& password.len() >= 8
    &&& !users.contains_key(email)
}

/// Whether a signup for this email and raw password is refused as already
/// registered: both inputs are well-shaped but the email is taken.
pub open spec fn signup_already_exists(
    users: Map<Seq<char>, UserView>,
    email: Seq<char>,
    password: Seq<char>,
) -> bool {
    &&& valid_email(email)
    &&& password.len() >= 8
    &&& users.contains_key(email)
}

/// Persists a freshly hashed user; fails with `UserAlreadyExists` exactly
/// when the email is taken, and with nothing else on a backend that cannot
/// fail.
pub fn signup_with_digest<U: UserStore>(
    user_store: &mut U,
    email: Email,
    digest: HashedPassword,
    requires_2fa: bool,
) -> (r: Result<SignupResponse, AuthAPIError>)
    ensures
        final(user_store).infallible() == old(user_store).infallible(),
        match r {
            Ok(resp) => !old(user_store).users().contains_key(email@) && final(user_store).users()
                == old(user_store).users().insert(
                email@,
                UserView { email: email@, password: digest@, requires_2fa },
            ) && resp.message@ == "User signed up successfully"@,
            Err(e) => final(user_store).users() == old(user_store).users() && (
            if e == AuthAPIError::UserAlreadyExists {
                old(user_store).users().contains_key(email@)
            } else {
                e matches AuthAPIError::UnexpectedError(_) && !old(user_store).infallible()
            }),
        },
        old(user_store).infallible() && !old(user_store).users().contains_key(email@) ==> r is Ok,
{
    let user = User::new(email, digest, requires_2fa);
    match user_store.add_user(user) {
        Ok(()) => Ok(
            SignupResponse { message: String::from_str("User signed up successfully") },
        ),
        Err(UserStoreError::UserAlreadyExists) => Err(AuthAPIError::UserAlreadyExists),
        Err(UserStoreError::UnexpectedError(m)) => Err(AuthAPIError::UnexpectedError(m)),
        Err(UserStoreError::UserNotFound) | Err(UserStoreError::InvalidCredentials) => Err(
            AuthAPIError::UnexpectedError(String::from_str("Unexpected error")),
        ),
    }
}

/// Signup: validates the email and the raw password shape, refuses an
/// email that is already registered, hashes the password, and persists the
/// user; no other store is touched.
pub fn signup<U: UserStore>(user_store: &mut U, request: SignupRequest) -> (r: Result<
    SignupResponse,
    AuthAPIError,
>)
    ensures
        final(user_store).infallible() == old(user_store).infallible(),
        r is Err ==> final(user_store).users() == old(user_store).users(),
        !valid_email(request.email@) ==> r == Err::<SignupResponse, AuthAPIError>(
            AuthAPIError::InvalidCredentials,
        ),
        valid_email(request.email@) && request.password@.len() < 8 ==> r == Err::<
            SignupResponse,
            AuthAPIError,
        >(AuthAPIError::InvalidCredentials),
        old(user_store).infallible() ==> (r == Err::<SignupResponse, AuthAPIError>(
            AuthAPIError::UserAlreadyExists,
        ) <==> signup_already_exists(
            old(user_store).users(),
            request.email@,
            request.password@,
        )),
        r matches Err(e) ==> (e == AuthAPIError::InvalidCredentials <==> (!valid_email(
            request.email@,
        ) || request.password@.len() < 8)),
        r matches Err(e) ==> (e == AuthAPIError::UserAlreadyExists ==> signup_already_exists(
            old(user_store).users(),
            request.email@,
            request.password@,
        )),
        r matches Err(e) ==> (e == AuthAPIError::InvalidCredentials || e
            == AuthAPIError::UserAlreadyExists || e matches AuthAPIError::UnexpectedError(_)),
        r matches Ok(resp) ==> signup_accepted(
            old(user_store).users(),
            request.email@,
            request.password@,
        ) && resp.message@ == "User signed up successfully"@ && (exists|d: Seq<char>|
            digest_verifies(d, request.password@) && final(user_store).users() == old(
                user_store,
            ).users().insert(
                request.email@,
                UserView { email: request.email@, password: d, requires_2fa: request.requires_2fa },
            )),
{
    let email = match Email::parse(request.email) {
        Ok(e) => e,
        Err(_) => {
            return Err(AuthAPIError::InvalidCredentials);
        },
    };

    if request.password.as_str().unicode_len() < 8 {
        return Err(AuthAPIError::InvalidCredentials);
    }

    match user_store.get_user(&email) {
        Ok(_) => {
            // The email is taken; refuse before doing any expensive hashing.
            return Err(AuthAPIError::UserAlreadyExists);
        },
        Err(UserStoreError::UserNotFound) => {},
        Err(UserStoreError::UnexpectedError(m)) => {
            return Err(AuthAPIError::UnexpectedError(m));
        },
        Err(_) => {
            return Err(AuthAPIError::UnexpectedError(String::from_str("Unexpected error")));
        },
    }

    let password = match HashedPassword::parse(request.password) {
        Ok(p) => p,
        Err(m) => {
            return Err(AuthAPIError::UnexpectedError(m));
        },
    };

    signup_with_digest(user_store, email, password, request.requires_2fa)
}

/// A signup can succeed at most once per email: on any store content that
/// accepts a signup, the content after the user is added refuses a second
/// signup for the same email as already registered.
pub proof fn lemma_signup_exactly_once(
    users: Map<Seq<char>, UserView>,
    email: Seq<char>,
    password: Seq<char>,
    u: UserView,
)
    requires
        signup_accepted(users, email, password),
    ensures
        signup_already_exists(users.insert(email, u), email, password),
        !signup_accepted(users.insert(email, u), email, password),
{
}

} // verus!
