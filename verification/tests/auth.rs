use auth_service::{
    error_response, generate_auth_token, get_key, log_error_chain, now_unix_seconds, two_fa_code_key,
    validate_token, validate_token_at, AuthAPIError, AuthConfig, Email, TOKEN_TTL_SECONDS,
};

fn test_config() -> AuthConfig {
    AuthConfig::new("test-secret".to_string()).unwrap()
}

fn test_email() -> Email {
    Email::parse("test@example.com".to_string()).unwrap()
}

#[test]
fn test_generate_auth_token() {
    let jwt = generate_auth_token(&test_email(), now_unix_seconds(), &test_config()).unwrap();
    assert_eq!(jwt.split('.').count(), 3);
}

#[test]
fn test_validate_token_with_valid_token() {
    let config = test_config();
    let now = now_unix_seconds();
    let jwt = generate_auth_token(&test_email(), now, &config).unwrap();
    let result = validate_token(jwt.as_str(), &config).unwrap();
    assert_eq!(result.sub, "test@example.com");

    let exp = now + 9 * 60;
    assert!(result.exp > exp);
}

#[test]
fn test_validate_token_with_invalid_token() {
    let token = "invalid_token".to_owned();
    let result = validate_token(token.as_str(), &test_config());
    assert!(result.is_err());
}

#[test]
fn token_is_valid_for_exactly_its_ttl_window() {
    let config = test_config();
    let issued_at: u64 = 1_000_000;
    let jwt = generate_auth_token(&test_email(), issued_at, &config).unwrap();

    // Accepted at issue time and up to the last second of the window.
    assert!(validate_token_at(jwt.as_str(), issued_at, &config).is_ok());
    assert!(validate_token_at(jwt.as_str(), issued_at + TOKEN_TTL_SECONDS - 1, &config).is_ok());

    // Rejected from the expiry instant on.
    let expired = validate_token_at(jwt.as_str(), issued_at + TOKEN_TTL_SECONDS, &config);
    assert_eq!(expired.unwrap_err(), AuthAPIError::IncorrectCredentials);
    assert!(validate_token_at(jwt.as_str(), issued_at + 10 * TOKEN_TTL_SECONDS, &config).is_err());
}

#[test]
fn token_is_rejected_under_a_different_secret() {
    let config = test_config();
    let other = AuthConfig::new("another-secret".to_string()).unwrap();
    let jwt = generate_auth_token(&test_email(), 1_000_000, &config).unwrap();
    assert!(validate_token_at(jwt.as_str(), 1_000_000, &config).is_ok());
    assert!(validate_token_at(jwt.as_str(), 1_000_000, &other).is_err());
}

#[test]
fn token_carries_its_subject_and_expiry() {
    let config = test_config();
    let jwt = generate_auth_token(&test_email(), 1_000_000, &config).unwrap();
    let claims = validate_token_at(jwt.as_str(), 1_000_000, &config).unwrap();
    assert_eq!(claims.sub, "test@example.com");
    assert_eq!(claims.exp, 1_000_000 + TOKEN_TTL_SECONDS);
}

#[test]
fn empty_signing_secret_is_refused() {
    assert!(AuthConfig::new("".to_string()).is_err());
    assert!(AuthConfig::new("s".to_string()).is_ok());
}

#[test]
fn remaining_ttl_is_the_time_left_before_expiry() {
    assert_eq!(auth_service::remaining_ttl(1_000_600, 1_000_000), 600);
    assert_eq!(auth_service::remaining_ttl(1_000_600, 1_000_599), 1);
    assert_eq!(auth_service::remaining_ttl(1_000_600, 1_000_600), 0);
    assert_eq!(auth_service::remaining_ttl(1_000_600, 2_000_000), 0);
}

#[test]
fn storage_keys_carry_their_prefixes() {
    assert_eq!(get_key("abc"), "banned_token:abc");
    assert_eq!(get_key(""), "banned_token:");
    let email = Email::parse("a@b.com".to_string()).unwrap();
    assert_eq!(two_fa_code_key(&email), "two_fa_code:a@b.com");
}

#[test]
fn error_responses_match_the_taxonomy() {
    assert_eq!(
        error_response(&AuthAPIError::UserAlreadyExists).0,
        409
    );
    let (status, body) = error_response(&AuthAPIError::InvalidCredentials);
    assert_eq!(status, 400);
    assert_eq!(body.error, "Invalid credentials.");
    assert_eq!(error_response(&AuthAPIError::MissingToken).0, 400);
    assert_eq!(error_response(&AuthAPIError::InvalidToken).0, 401);
    assert_eq!(error_response(&AuthAPIError::IncorrectCredentials).0, 401);
    let (status, body) = error_response(&AuthAPIError::UnexpectedError("boom".to_string()));
    assert_eq!(status, 500);
    // The internal cause never reaches the response body.
    assert_eq!(body.error, "Unexpected error");
}

#[test]
fn error_chain_report_frames_error_and_causes() {
    let sep = "\n-----------------------------------------------------------------------------------\n";
    let report = log_error_chain(&"top level".to_string(), &vec![]);
    assert_eq!(report, format!("{sep}top level\n\n{sep}"));

    let report = log_error_chain(
        &"top level".to_string(),
        &vec!["first cause".to_string(), "second cause".to_string()],
    );
    assert_eq!(
        report,
        format!("{sep}top level\n\nCaused by:\n\nfirst cause\nCaused by:\n\nsecond cause\n{sep}")
    );
}
