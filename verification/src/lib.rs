//! The authentication and session-lifecycle core of a multi-factor login
//! service: it verifies user credentials, issues and revokes bearer
//! session tokens, and manages a time-boxed second-factor challenge.
//!
//! The credential, revocation and challenge stores are abstractions with
//! verified in-memory implementations; the orchestrating flows — signup,
//! login, second-factor verification, logout and token verification — are
//! generic over them. Password hashing, token signing and the random
//! identifiers come from outside crates through a small set of trusted
//! declarations; everything built on top of them is verified.

mod auth;
mod data_stores;
mod email;
mod email_client;
mod error;
mod hashed_password;
mod hashmap_two_fa_code_store;
mod hashmap_user_store;
mod hashset_banned_token_store;
mod password;
mod routes;
mod storage_keys;
mod strings;
mod user;

pub use auth::{
    jwt_cookie_name, jwt_decoded, jwt_of, lemma_token_validity_window, now_unix_seconds,
    generate_auth_token, remaining_ttl, token_accepted, validate_token, validate_token_at,
    AuthConfig, Claims, TOKEN_TTL_SECONDS,
};
pub use data_stores::{
    challenge_matches, digit_char, lemma_challenge_consumed_once, valid_two_fa_code,
    lemma_second_challenge_invalidates_first, spec_two_fa_code, uuid_canonical, verify_and_consume,
    BannedTokenStore, BannedTokenStoreError, ChallengeView, LoginAttemptId, TwoFACode,
    TwoFACodeStore, TwoFACodeStoreError, UserStore, UserStoreError,
};
pub use email::{valid_email, Email};
pub use strings::{char_count, is_decimal_digit};
pub use error::{
    log_error_chain, error_response, spec_causes_section, spec_error_chain_report,
    spec_error_message, spec_error_status, spec_report_separator, AuthAPIError, ErrorResponse,
};
pub use email_client::{EmailClient, MockEmailClient};
pub use hashed_password::{digest_verifies, phc_parsed, HashedPassword};
pub use hashmap_two_fa_code_store::HashmapTwoFACodeStore;
pub use hashmap_user_store::HashmapUserStore;
pub use hashset_banned_token_store::HashsetBannedTokenStore;
pub use storage_keys::{get_key, two_fa_code_key};
pub use password::Password;
pub use routes::login::{
    credentials_ok, handle_no_2fa, login, two_fa_notification_body, LoginRequest, LoginResponse,
    TwoFactorAuthResponse,
};
pub use routes::logout::logout;
pub use routes::signup::{
    lemma_signup_exactly_once, signup, signup_accepted, signup_already_exists, signup_with_digest,
    SignupRequest, SignupResponse,
};
pub use routes::verify_2fa::{verify_2fa, Verify2FARequest};
pub use routes::verify_token::{
    lemma_revocation_isolated, token_authorized, verify_token, VerifyTokenRequest,
};
pub use user::{User, UserView};
