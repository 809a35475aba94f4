use vstd::prelude::*;

use crate::auth::{token_accepted, validate_token_at, AuthConfig};
use crate::data_stores::{BannedTokenStore, BannedTokenStoreError};
use crate::error::AuthAPIError;

verus! {

/// Logout: requires a bearer token from the caller's session context,
/// validates it, refuses one that was already revoked, and records the
/// revocation so the token fails every later check before its natural
/// expiry. The caller then discards its copy.
pub fn logout<B: BannedTokenStore>(
    banned_token_store: &mut B,
    token: Option<&String>,
    now: u64,
    config: &AuthConfig,
) -> (r: Result<(), AuthAPIError>)
    requires
        config.wf(),
    ensures
        final(banned_token_store).infallible() == old(banned_token_store).infallible(),
        r is Err ==> final(banned_token_store).tokens() == old(banned_token_store).tokens(),
        (token is None) <==> r == Err::<(), AuthAPIError>(AuthAPIError::MissingToken),
        (r == Err::<(), AuthAPIError>(AuthAPIError::IncorrectCredentials)) <==> (token matches Some(
            t,
        ) && !token_accepted(t@, now, config.jwt_secret@)),
        r == Err::<(), AuthAPIError>(AuthAPIError::InvalidToken) ==> (token matches Some(t)
            && token_accepted(t@, now, config.jwt_secret@) && old(
            banned_token_store,
        ).tokens().contains(t@)),
        r matches Err(e) ==> (e matches AuthAPIError::UnexpectedError(_) ==> !old(
            banned_token_store,
        ).infallible()),
        r matches Err(e) ==> (e == AuthAPIError::MissingToken || e
            == AuthAPIError::IncorrectCredentials || e == AuthAPIError::InvalidToken || e
            matches AuthAPIError::UnexpectedError(_)),
        r is Ok ==> (token matches Some(t) && token_accepted(t@, now, config.jwt_secret@) && !old(
            banned_token_store,
        ).tokens().contains(t@) && final(banned_token_store).tokens() == old(
            banned_token_store,
        ).tokens().insert(t@)),
        old(banned_token_store).infallible() ==> (r is Ok <==> (token matches Some(t)
            && token_accepted(t@, now, config.jwt_secret@) && !old(
            banned_token_store,
        ).tokens().contains(t@))),
        old(banned_token_store).infallible() && (token matches Some(t) && token_accepted(
            t@,
            now,
            config.jwt_secret@,
        ) && old(banned_token_store).tokens().contains(t@)) ==> r == Err::<(), AuthAPIError>(
            AuthAPIError::InvalidToken,
        ),
{
    let token = match token {
        None => {
            return Err(AuthAPIError::MissingToken);
        },
        Some(t) => t,
    };

    if validate_token_at(token.as_str(), now, config).is_err() {
        return Err(AuthAPIError::IncorrectCredentials);
    }

    // A second logout with the same, already revoked token must fail.
    match banned_token_store.contains_token(token.as_str()) {
        Ok(true) => {
            return Err(AuthAPIError::InvalidToken);
        },
        Ok(false) => {},
        Err(BannedTokenStoreError::UnexpectedError(m)) => {
            return Err(AuthAPIError::UnexpectedError(m));
        },
    }

    match banned_token_store.add_token(token.clone()) {
        Ok(()) => Ok(()),
        Err(BannedTokenStoreError::UnexpectedError(m)) => Err(AuthAPIError::UnexpectedError(m)),
    }
}

} // verus!
