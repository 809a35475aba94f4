use vstd::prelude::*;

use crate::auth::{token_accepted, validate_token_at, AuthConfig};
use crate::data_stores::{BannedTokenStore, BannedTokenStoreError};
use crate::error::AuthAPIError;

verus! {

/// The plain content of a token verification request.
#[derive(Debug)]
pub struct VerifyTokenRequest {
    pub token: String,
}

/// The combined check a protected operation rests on: the token passes the
/// stateless check at `now` and carries no live revocation record.
pub open spec fn token_authorized(
    token: Seq<char>,
    now: u64,
    secret: Seq<char>,
    revoked: Set<Seq<char>>,
) -> bool {
    &&& token_accepted(token, now, secret)
    &&& !revoked.contains(token)
}

/// Verify-token, used by any protected operation: the stateless check
/// first, answered with `IncorrectCredentials` on failure, then the
/// revocation check, answered with the unauthorized kind even though
/// signature and expiry passed. Only if both pass is the caller
/// authenticated.
pub fn verify_token<B: BannedTokenStore>(
    banned_token_store: &B,
    request: &VerifyTokenRequest,
    now: u64,
    config: &AuthConfig,
) -> (r: Result<(), AuthAPIError>)
    requires
        config.wf(),
    ensures
        r is Ok ==> token_authorized(
            request.token@,
            now,
            config.jwt_secret@,
            banned_token_store.tokens(),
        ),
        (r == Err::<(), AuthAPIError>(AuthAPIError::IncorrectCredentials)) <==> !token_accepted(
            request.token@,
            now,
            config.jwt_secret@,
        ),
        r == Err::<(), AuthAPIError>(AuthAPIError::InvalidToken) ==> (token_accepted(
            request.token@,
            now,
            config.jwt_secret@,
        ) && banned_token_store.tokens().contains(request.token@)),
        r matches Err(e) ==> (e matches AuthAPIError::UnexpectedError(_)
            ==> !banned_token_store.infallible()),
        r matches Err(e) ==> (e == AuthAPIError::IncorrectCredentials || e
            == AuthAPIError::InvalidToken || e matches AuthAPIError::UnexpectedError(_)),
        token_accepted(request.token@, now, config.jwt_secret@) && banned_token_store.tokens().contains(
            request.token@,
        ) ==> (r == Err::<(), AuthAPIError>(AuthAPIError::InvalidToken) || r matches Err(
            AuthAPIError::UnexpectedError(_),
        )),
        banned_token_store.infallible() ==> (r is Ok <==> token_authorized(
            request.token@,
            now,
            config.jwt_secret@,
            banned_token_store.tokens(),
        )),
        banned_token_store.infallible() && token_accepted(request.token@, now, config.jwt_secret@)
            && banned_token_store.tokens().contains(request.token@) ==> r == Err::<
            (),
            AuthAPIError,
        >(AuthAPIError::InvalidToken),
{
    if validate_token_at(request.token.as_str(), now, config).is_err() {
        return Err(AuthAPIError::IncorrectCredentials);
    }

    match banned_token_store.contains_token(request.token.as_str()) {
        Ok(true) => Err(AuthAPIError::InvalidToken),
        Ok(false) => Ok(()),
        Err(BannedTokenStoreError::UnexpectedError(m)) => Err(AuthAPIError::UnexpectedError(m)),
    }
}

/// Revocation is per token: once a token is recorded revoked it fails the
/// combined check even while its validity window is open, while any other
/// token's standing in the combined check is exactly what it was before.
pub proof fn lemma_revocation_isolated(
    tokens: Set<Seq<char>>,
    revoked: Seq<char>,
    other: Seq<char>,
    now: u64,
    secret: Seq<char>,
)
    requires
        revoked != other,
    ensures
        !token_authorized(revoked, now, secret, tokens.insert(revoked)),
        tokens.insert(revoked).contains(other) == tokens.contains(other),
        token_authorized(other, now, secret, tokens.insert(revoked)) == token_authorized(
            other,
            now,
            secret,
            tokens,
        ),
{
}

} // verus!
