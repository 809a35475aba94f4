use vstd::prelude::*;

use crate::auth::{generate_auth_token, jwt_decoded, jwt_of, AuthConfig, TOKEN_TTL_SECONDS};
use crate::data_stores::{
    uuid_canonical, valid_two_fa_code, ChallengeView, LoginAttemptId, TwoFACode, TwoFACodeStore,
    TwoFACodeStoreError, UserStore, UserStoreError,
};
use crate::email::{valid_email, Email};
use crate::email_client::EmailClient;
use crate::error::AuthAPIError;
use crate::hashed_password::digest_verifies;
use crate::user::UserView;

verus! {

/// The plain content of a login request.
#[derive(Debug)]
pub struct LoginRequest {
    pub email: String,
    pub password: String,
}

/// The two successful login outcomes: a session was issued right away, or
/// a second factor is pending and the caller holds the attempt id.
#[derive(Debug)]
pub enum LoginResponse {
    RegularAuth,
    TwoFactorAuth(TwoFactorAuthResponse),
}

/// The body a pending two-factor login is answered with: the attempt id,
/// never the code.
#[derive(Debug)]
pub struct TwoFactorAuthResponse {
    pub message: String,
    pub login_attempt_id: String,
}

/// Whether the presented raw password is the one the stored digest for
/// this email was computed from.
pub open spec fn credentials_ok(
    users: Map<Seq<char>, UserView>,
    email: Seq<char>,
    password: Seq<char>,
) -> bool {
    &&& users.contains_key(email)
    &&& digest_verifies(users[email].password, password)
}

/// The no-second-factor tail of a login: mints a session token for the
/// authenticated subject.
pub fn handle_no_2fa(email: &Email, now: u64, config: &AuthConfig) -> (r: Result<
    (LoginResponse, Option<String>),
    AuthAPIError,
>)
    requires
        config.wf(),
    ensures
        r matches Ok((resp, tok)) ==> resp is RegularAuth && now + TOKEN_TTL_SECONDS <= u64::MAX
            && (tok matches Some(tk) && tk@ == jwt_of(
            email@,
            (now + TOKEN_TTL_SECONDS) as u64,
            config.jwt_secret@,
        ) && jwt_decoded(tk@, config.jwt_secret@) == Some(
            (email@, (now + TOKEN_TTL_SECONDS) as u64),
        )),
        r matches Err(e) ==> e matches AuthAPIError::UnexpectedError(_),
        now + TOKEN_TTL_SECONDS <= u64::MAX ==> r is Ok,
{
    match generate_auth_token(email, now, config) {
        Ok(t) => Ok((LoginResponse::RegularAuth, Some(t))),
        Err(e) => Err(e),
    }
}

/// The message delivered out of band during a two-factor login: a fixed
/// preamble followed by the code, and nothing else.
pub fn two_fa_notification_body(code: &TwoFACode) -> (r: String)
    ensures
        r@ == "Your 2FA code: "@ + code@,
{
    let mut body = String::from_str("Your 2FA code: ");
    body.append(code.as_str());
    body
}

/// The second-factor tail of a login: stores a fresh challenge for the
/// email, replacing any prior one, asks the notifier to deliver the code,
/// and answers with the attempt id only. A delivery failure fails the
/// login as unexpected; the stored challenge then stays behind until it is
/// replaced or consumed, an accepted gap.
fn handle_2fa<T: TwoFACodeStore, E: EmailClient>(
    email: &Email,
    two_fa_code_store: &mut T,
    email_client: &E,
) -> (r: Result<(LoginResponse, Option<String>), AuthAPIError>)
    ensures
        final(two_fa_code_store).infallible() == old(two_fa_code_store).infallible(),
        r matches Ok((resp, tok)) ==> (resp matches LoginResponse::TwoFactorAuth(tfa) && tok
            is None && tfa.message@ == "2FA required"@ && uuid_canonical(tfa.login_attempt_id@)
            == Some(tfa.login_attempt_id@) && (exists|c: Seq<char>|
            valid_two_fa_code(c) && final(two_fa_code_store).codes() == old(
                two_fa_code_store,
            ).codes().insert(email@, ChallengeView { code: c, id: tfa.login_attempt_id@ }))),
        r matches Err(e) ==> e matches AuthAPIError::UnexpectedError(_),
        r is Err ==> (final(two_fa_code_store).codes() == old(two_fa_code_store).codes() || (
        exists|ch: ChallengeView|
            final(two_fa_code_store).codes() == old(two_fa_code_store).codes().insert(email@, ch))),
{
    let login_attempt_id = LoginAttemptId::default();
    let two_fa_code = TwoFACode::default();

    match two_fa_code_store.add_code(
        email.clone(),
        login_attempt_id.clone(),
        two_fa_code.clone(),
    ) {
        Ok(()) => {},
        Err(TwoFACodeStoreError::UnexpectedError(m)) => {
            return Err(AuthAPIError::UnexpectedError(m));
        },
        Err(_) => {
            return Err(AuthAPIError::UnexpectedError(String::from_str("Unexpected error")));
        },
    }

    let body = two_fa_notification_body(&two_fa_code);
    match email_client.send_email(email, "Login attempt", body.as_str()) {
        Ok(()) => {},
        Err(m) => {
            return Err(AuthAPIError::UnexpectedError(m));
        },
    }

    Ok(
        (
            LoginResponse::TwoFactorAuth(
                TwoFactorAuthResponse {
                    message: String::from_str("2FA required"),
                    login_attempt_id: login_attempt_id.0,
                },
            ),
            None,
        ),
    )
}

/// Login: parses the email, checks the credentials — every credential
/// failure is answered with the same `IncorrectCredentials` — and then
/// either mints a session token right away or issues a two-factor
/// challenge and reports it pending, the token travelling beside the
/// response.
pub fn login<U: UserStore, T: TwoFACodeStore, E: EmailClient>(
    user_store: &U,
    two_fa_code_store: &mut T,
    email_client: &E,
    request: LoginRequest,
    now: u64,
    config: &AuthConfig,
) -> (r: Result<(LoginResponse, Option<String>), AuthAPIError>)
    requires
        config.wf(),
    ensures
        final(two_fa_code_store).infallible() == old(two_fa_code_store).infallible(),
        !valid_email(request.email@) ==> r == Err::<(LoginResponse, Option<String>), AuthAPIError>(
            AuthAPIError::InvalidCredentials,
        ) && final(two_fa_code_store).codes() == old(two_fa_code_store).codes(),
        valid_email(request.email@) && !credentials_ok(
            user_store.users(),
            request.email@,
            request.password@,
        ) ==> r == Err::<(LoginResponse, Option<String>), AuthAPIError>(
            AuthAPIError::IncorrectCredentials,
        ) && final(two_fa_code_store).codes() == old(two_fa_code_store).codes(),
        r is Ok ==> valid_email(request.email@) && credentials_ok(
            user_store.users(),
            request.email@,
            request.password@,
        ),
        r matches Ok((resp, tok)) ==> (resp is RegularAuth
            ==> !user_store.users()[request.email@].requires_2fa
            && (tok matches Some(tk) && tk@ == jwt_of(
            request.email@,
            (now + TOKEN_TTL_SECONDS) as u64,
            config.jwt_secret@,
        ) && jwt_decoded(tk@, config.jwt_secret@) == Some(
            (request.email@, (now + TOKEN_TTL_SECONDS) as u64),
        )) && final(two_fa_code_store).codes() == old(two_fa_code_store).codes()),
        r matches Ok((resp, tok)) ==> (resp matches LoginResponse::TwoFactorAuth(tfa)
            ==> user_store.users()[request.email@].requires_2fa && tok is None && tfa.message@
            == "2FA required"@ && uuid_canonical(tfa.login_attempt_id@) == Some(
            tfa.login_attempt_id@,
        ) && (exists|c: Seq<char>|
            valid_two_fa_code(c) && final(two_fa_code_store).codes() == old(
                two_fa_code_store,
            ).codes().insert(
                request.email@,
                ChallengeView { code: c, id: tfa.login_attempt_id@ },
            ))),
        r is Err ==> (final(two_fa_code_store).codes() == old(two_fa_code_store).codes() || (
        exists|ch: ChallengeView|
            final(two_fa_code_store).codes() == old(two_fa_code_store).codes().insert(
                request.email@,
                ch,
            ))),
        r matches Err(e) ==> (e == AuthAPIError::InvalidCredentials || e
            == AuthAPIError::IncorrectCredentials || e matches AuthAPIError::UnexpectedError(_)),
        user_store.infallible() ==> (r == Err::<(LoginResponse, Option<String>), AuthAPIError>(
            AuthAPIError::InvalidCredentials,
        ) <==> !valid_email(request.email@)),
        user_store.infallible() ==> (r == Err::<(LoginResponse, Option<String>), AuthAPIError>(
            AuthAPIError::IncorrectCredentials,
        ) <==> (valid_email(request.email@) && !credentials_ok(
            user_store.users(),
            request.email@,
            request.password@,
        ))),
        r matches Err(e) ==> (e matches AuthAPIError::UnexpectedError(_) ==> valid_email(
            request.email@,
        ) && credentials_ok(user_store.users(), request.email@, request.password@)),
        user_store.infallible() && valid_email(request.email@) && credentials_ok(
            user_store.users(),
            request.email@,
            request.password@,
        ) && !user_store.users()[request.email@].requires_2fa && now + TOKEN_TTL_SECONDS
            <= u64::MAX ==> r is Ok,
{
    let email = match Email::parse(request.email) {
        Ok(e) => e,
        Err(_) => {
            return Err(AuthAPIError::InvalidCredentials);
        },
    };

    if user_store.validate_user(&email, request.password.as_str()).is_err() {
        return Err(AuthAPIError::IncorrectCredentials);
    }

    let user = match user_store.get_user(&email) {
        Ok(u) => u,
        Err(UserStoreError::UnexpectedError(m)) => {
            return Err(AuthAPIError::UnexpectedError(m));
        },
        Err(_) => {
            return Err(AuthAPIError::UnexpectedError(String::from_str("Unexpected error")));
        },
    };

    if user.requires_2fa {
        handle_2fa(&email, two_fa_code_store, email_client)
    } else {
        handle_no_2fa(&email, now, config)
    }
}

} // verus!
