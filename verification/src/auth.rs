use vstd::prelude::*;

use crate::email::Email;
use crate::error::AuthAPIError;

verus! {

/// How long a session token stays valid, in seconds.
pub const TOKEN_TTL_SECONDS: u64 = 600;

/// The name of the cookie a session token travels in.
pub fn jwt_cookie_name() -> (r: &'static str)
    ensures
        r@ == "jwt"@,
{
    "jwt"
}

/// The claims a session token carries: the subject email and the expiry
/// time in seconds since the Unix epoch.
#[derive(Debug)]
pub struct Claims {
    pub sub: String,
    pub exp: u64,
}

/// The process-wide signing configuration, established once at startup:
/// a non-empty signing secret, never rotated within a process lifetime.
#[derive(Debug)]
pub struct AuthConfig {
    pub jwt_secret: String,
}

impl AuthConfig {
    /// A configuration is well-formed when its secret is non-empty.
    pub open spec fn wf(&self) -> bool {
        self.jwt_secret@.len() > 0
    }

    /// Accepts the secret exactly when it is non-empty; a process without
    /// a secret must not start.
    pub fn new(jwt_secret: String) -> (r: Result<AuthConfig, String>)
        ensures
            r matches Ok(c) ==> c.jwt_secret@ == jwt_secret@ && c.wf(),
            r is Ok <==> jwt_secret@.len() > 0,
    {
        if jwt_secret.as_str().unicode_len() == 0 {
            return Err(String::from_str("JWT_SECRET cannot be empty"));
        }
        Ok(AuthConfig { jwt_secret })
    }
}

/// The signed token minted for a subject, an expiry and a secret. Names
/// the result of jsonwebtoken's `encode` with the default HS256 header:
/// the claims object is rendered with sorted keys and HMAC signing is
/// deterministic, so the token is a function of these three values alone.
pub uninterp spec fn jwt_of(sub: Seq<char>, exp: u64, secret: Seq<char>) -> Seq<char>;

/// The claims a token yields under a secret: the subject and the expiry,
/// or nothing if the token is malformed, its signature does not verify,
/// or it does not carry the two claims. Names the result of
/// jsonwebtoken's `decode` with expiry validation turned off, together
/// with reading the `sub` and `exp` claims, all of which depend on the
/// token and the secret alone.
pub uninterp spec fn jwt_decoded(token: Seq<char>, secret: Seq<char>) -> Option<(Seq<char>, u64)>;

/// Whether a token passes the stateless check at time `now`: it decodes
/// under the secret and `now` is before its expiry.
pub open spec fn token_accepted(token: Seq<char>, now: u64, secret: Seq<char>) -> bool {
    match jwt_decoded(token, secret) {
        Some(c) => now < c.1,
        None => false,
    }
}

/// Relies on jsonwebtoken's `encode` with `Header::default()` (HS256) and
/// an HMAC secret: the rendering of the claims and the signature are
/// deterministic, and decoding the result with the same secret yields the
/// claims back. Encoding always succeeds here: an HMAC key of any length
/// is accepted and these claims always serialize.
#[verifier::external_body]
fn jwt_encode(sub: &str, exp: u64, secret: &str) -> (r: Option<String>)
    ensures
        r is Some,
        r matches Some(t) ==> t@ == jwt_of(sub@, exp, secret@) && jwt_decoded(t@, secret@)
            == Some((sub@, exp)),
{
    let mut claims = serde_json::Map::new();
    claims.insert("sub".to_string(), serde_json::Value::from(sub));
    claims.insert("exp".to_string(), serde_json::Value::from(exp));
    let key = jsonwebtoken::EncodingKey::from_secret(secret.as_bytes());
    match jsonwebtoken::encode(
        &jsonwebtoken::Header::default(),
        &serde_json::Value::Object(claims),
        &key,
    ) {
        Ok(t) => Some(t),
        Err(_) => None,
    }
}

/// Relies on jsonwebtoken's `decode` over HS256 with expiry validation
/// turned off: whether the signature verifies, and which claims come out,
/// are functions of the token and the secret alone. The caller checks
/// expiry itself.
#[verifier::external_body]
fn jwt_decode(token: &str, secret: &str) -> (r: Option<(String, u64)>)
    ensures
        r matches Some(c) ==> jwt_decoded(token@, secret@) == Some((c.0@, c.1)),
        r is Some <==> jwt_decoded(token@, secret@) is Some,
{
    let key = jsonwebtoken::DecodingKey::from_secret(secret.as_bytes());
    let mut validation = jsonwebtoken::Validation::new(jsonwebtoken::Algorithm::HS256);
    validation.validate_exp = false;
    validation.required_spec_claims = std::collections::HashSet::new();
    match jsonwebtoken::decode::<serde_json::Value>(token, &key, &validation) {
        Ok(data) => match (data.claims.get("sub"), data.claims.get("exp")) {
            (Some(s), Some(e)) => match (s.as_str(), e.as_u64()) {
                (Some(sub), Some(exp)) => Some((sub.to_string(), exp)),
                _ => None,
            },
            _ => None,
        },
        Err(_) => None,
    }
}

/// Relies on chrono's `Utc::now`: the current time in seconds since the
/// Unix epoch, clamped to zero for clocks set before the epoch.
#[verifier::external_body]
pub fn now_unix_seconds() -> (r: u64)
{
    let t = chrono::Utc::now().timestamp();
    u64::try_from(t).unwrap_or(0)
}

/// Mints a session token for `email` whose expiry is `now` plus the fixed
/// TTL, signed with the process-wide secret.
pub fn generate_auth_token(email: &Email, now: u64, config: &AuthConfig) -> (r: Result<
    String,
    AuthAPIError,
>)
    requires
        config.wf(),
    ensures
        r matches Ok(t) ==> now + TOKEN_TTL_SECONDS <= u64::MAX && t@ == jwt_of(
            email@,
            (now + TOKEN_TTL_SECONDS) as u64,
            config.jwt_secret@,
        ) && jwt_decoded(t@, config.jwt_secret@) == Some(
            (email@, (now + TOKEN_TTL_SECONDS) as u64),
        ),
        r matches Err(e) ==> e matches AuthAPIError::UnexpectedError(_),
        now + TOKEN_TTL_SECONDS <= u64::MAX ==> r is Ok,
{
    let exp = match now.checked_add(TOKEN_TTL_SECONDS) {
        Some(e) => e,
        None => {
            return Err(
                AuthAPIError::UnexpectedError(
                    String::from_str("Failed to create JWT expiration time"),
                ),
            );
        },
    };
    match jwt_encode(email.as_str(), exp, config.jwt_secret.as_str()) {
        Some(t) => Ok(t),
        None => Err(AuthAPIError::UnexpectedError(String::from_str("Failed to create token"))),
    }
}

/// The stateless token check at an explicit query time: the signature must
/// verify and the time must lie before the expiry. Revocation is a
/// separate concern, applied by the orchestrator.
pub fn validate_token_at(token: &str, now: u64, config: &AuthConfig) -> (r: Result<
    Claims,
    AuthAPIError,
>)
    requires
        config.wf(),
    ensures
        r is Ok <==> token_accepted(token@, now, config.jwt_secret@),
        r matches Ok(c) ==> jwt_decoded(token@, config.jwt_secret@) == Some((c.sub@, c.exp)) && now
            < c.exp,
        r matches Err(e) ==> e == AuthAPIError::IncorrectCredentials,
{
    match jwt_decode(token, config.jwt_secret.as_str()) {
        Some((sub, exp)) => {
            if now < exp {
                Ok(Claims { sub, exp })
            } else {
                Err(AuthAPIError::IncorrectCredentials)
            }
        },
        None => Err(AuthAPIError::IncorrectCredentials),
    }
}

/// The stateless token check against the process clock. Whatever instant
/// the clock returned, an accepted token decodes to the claims handed
/// back, and a token that does not decode is rejected.
pub fn validate_token(token: &str, config: &AuthConfig) -> (r: Result<Claims, AuthAPIError>)
    requires
        config.wf(),
    ensures
        r matches Ok(c) ==> jwt_decoded(token@, config.jwt_secret@) == Some((c.sub@, c.exp)),
        jwt_decoded(token@, config.jwt_secret@) is None ==> (r matches Err(e) && e
            == AuthAPIError::IncorrectCredentials),
{
    let now = now_unix_seconds();
    validate_token_at(token, now, config)
}

/// The part of a token's lifetime that is still to come at `now`: the
/// time-to-live a revocation record for it needs, bounded by the fixed
/// TTL for tokens this library mints.
pub fn remaining_ttl(exp: u64, now: u64) -> (r: u64)
    ensures
        r == (if now < exp {
            (exp - now) as u64
        } else {
            0u64
        }),
{
    if now < exp {
        exp - now
    } else {
        0
    }
}

/// A token carrying expiry `exp` is accepted at exactly the query times
/// before `exp`: it validates at every `query_at < exp` and at no
/// `query_at >= exp`. With `exp = issued_at + TOKEN_TTL_SECONDS`, as
/// `generate_auth_token` mints it, this is the token validity window.
pub proof fn lemma_token_validity_window(
    token: Seq<char>,
    sub: Seq<char>,
    exp: u64,
    query_at: u64,
    secret: Seq<char>,
)
    ensures
        jwt_decoded(token, secret) == Some((sub, exp)) ==> (token_accepted(token, query_at, secret)
            <==> query_at < exp),
{
}

} // verus!
