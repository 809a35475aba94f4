use vstd::prelude::*;

use crate::auth::{jwt_decoded, jwt_of, AuthConfig, TOKEN_TTL_SECONDS};
use crate::data_stores::{
    challenge_matches, uuid_canonical, valid_two_fa_code, verify_and_consume, LoginAttemptId,
    TwoFACode, TwoFACodeStore,
};
use crate::email::{valid_email, Email};
use crate::error::AuthAPIError;
use crate::routes::login::{handle_no_2fa, LoginResponse};

verus! {

/// The plain content of a second-factor verification request.
#[derive(Debug)]
pub struct Verify2FARequest {
    pub email: String,
    pub login_attempt_id: String,
    pub two_fa_code: String,
}

/// Verify-2FA: parses the email, the attempt id and the code — any
/// malformed shape is `InvalidCredentials` — then checks and consumes the
/// live challenge in one step; any mismatch or absence is
/// `IncorrectCredentials`. On success a session token is minted exactly as
/// in the no-second-factor login branch.
pub fn verify_2fa<T: TwoFACodeStore>(
    two_fa_code_store: &mut T,
    request: Verify2FARequest,
    now: u64,
    config: &AuthConfig,
) -> (r: Result<(LoginResponse, Option<String>), AuthAPIError>)
    requires
        config.wf(),
    ensures
        final(two_fa_code_store).infallible() == old(two_fa_code_store).infallible(),
        !valid_email(request.email@) ==> r == Err::<(LoginResponse, Option<String>), AuthAPIError>(
            AuthAPIError::InvalidCredentials,
        ) && final(two_fa_code_store).codes() == old(two_fa_code_store).codes(),
        valid_email(request.email@) && uuid_canonical(request.login_attempt_id@) is None ==> r
            == Err::<(LoginResponse, Option<String>), AuthAPIError>(
            AuthAPIError::InvalidCredentials,
        ) && final(two_fa_code_store).codes() == old(two_fa_code_store).codes(),
        valid_email(request.email@) && uuid_canonical(request.login_attempt_id@) is Some
            && !valid_two_fa_code(request.two_fa_code@) ==> r == Err::<
            (LoginResponse, Option<String>),
            AuthAPIError,
        >(AuthAPIError::InvalidCredentials) && final(two_fa_code_store).codes() == old(
            two_fa_code_store,
        ).codes(),
        r is Ok ==> (valid_email(request.email@) && (uuid_canonical(request.login_attempt_id@)
            matches Some(id) && challenge_matches(
            old(two_fa_code_store).codes(),
            request.email@,
            id,
            request.two_fa_code@,
        )) && final(two_fa_code_store).codes() == old(two_fa_code_store).codes().remove(
            request.email@,
        )),
        r matches Ok((resp, tok)) ==> resp is RegularAuth && (tok matches Some(tk) && tk@ == jwt_of(
            request.email@,
            (now + TOKEN_TTL_SECONDS) as u64,
            config.jwt_secret@,
        ) && jwt_decoded(tk@, config.jwt_secret@) == Some(
            (request.email@, (now + TOKEN_TTL_SECONDS) as u64),
        )),
        r matches Err(e) && !(e matches AuthAPIError::UnexpectedError(_)) ==> final(two_fa_code_store).codes() == old(two_fa_code_store).codes(),
        r matches Err(e) ==> (e matches AuthAPIError::UnexpectedError(_) ==> (
        final(two_fa_code_store).codes() == old(two_fa_code_store).codes()
            || final(two_fa_code_store).codes() == old(two_fa_code_store).codes().remove(
            request.email@,
        ))),
        old(two_fa_code_store).infallible() && valid_email(request.email@) && (uuid_canonical(
            request.login_attempt_id@,
        ) matches Some(id) && valid_two_fa_code(request.two_fa_code@) && !challenge_matches(
            old(two_fa_code_store).codes(),
            request.email@,
            id,
            request.two_fa_code@,
        )) ==> r == Err::<(LoginResponse, Option<String>), AuthAPIError>(
            AuthAPIError::IncorrectCredentials,
        ),
        old(two_fa_code_store).infallible() && valid_email(request.email@) && (uuid_canonical(
            request.login_attempt_id@,
        ) matches Some(id) && valid_two_fa_code(request.two_fa_code@) && challenge_matches(
            old(two_fa_code_store).codes(),
            request.email@,
            id,
            request.two_fa_code@,
        )) && now + TOKEN_TTL_SECONDS <= u64::MAX ==> r is Ok,
        r matches Err(e) ==> (e == AuthAPIError::InvalidCredentials <==> !(valid_email(
            request.email@,
        ) && uuid_canonical(request.login_attempt_id@) is Some && valid_two_fa_code(
            request.two_fa_code@,
        ))),
        r matches Err(e) ==> (e == AuthAPIError::InvalidCredentials || e
            == AuthAPIError::IncorrectCredentials || e matches AuthAPIError::UnexpectedError(_)),
{
    let email = match Email::parse(request.email) {
        Ok(e) => e,
        Err(_) => {
            return Err(AuthAPIError::InvalidCredentials);
        },
    };

    let login_attempt_id = match LoginAttemptId::parse(request.login_attempt_id) {
        Ok(id) => id,
        Err(_) => {
            return Err(AuthAPIError::InvalidCredentials);
        },
    };

    let two_fa_code = match TwoFACode::parse(request.two_fa_code) {
        Ok(c) => c,
        Err(_) => {
            return Err(AuthAPIError::InvalidCredentials);
        },
    };

    match verify_and_consume(two_fa_code_store, &email, &login_attempt_id, &two_fa_code) {
        Ok(()) => {},
        Err(e) => {
            return Err(e);
        },
    }

    handle_no_2fa(&email, now, config)
}

} // verus!
