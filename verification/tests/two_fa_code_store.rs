use auth_service::{
    verify_and_consume, AuthAPIError, Email, HashmapTwoFACodeStore, LoginAttemptId, TwoFACode,
    TwoFACodeStore, TwoFACodeStoreError,
};

#[test]
fn test_add_code() {
    let mut store = HashmapTwoFACodeStore::new();

    let random_email = Email::parse("someone@example.com".to_string()).unwrap();
    let code = TwoFACode::parse("123123".to_string()).unwrap();
    let login_attempt_id = LoginAttemptId::default();

    let result = store.add_code(random_email, login_attempt_id, code);
    assert!(result.is_ok());

    let failed_code = TwoFACode::parse("123".to_string());
    assert!(failed_code.is_err());
}

#[test]
fn non_numeric_codes_are_rejected() {
    assert!(TwoFACode::parse("abcdef".to_string()).is_err());
    assert!(TwoFACode::parse("12345x".to_string()).is_err());
    assert!(TwoFACode::parse("000000".to_string()).is_ok());
}

#[test]
fn test_get_code() {
    let mut store = HashmapTwoFACodeStore::new();

    let random_email = Email::parse("someone@example.com".to_string()).unwrap();
    let code = TwoFACode::parse("123123".to_string()).unwrap();
    let login_attempt_id = LoginAttemptId::default();

    store
        .add_code(random_email.clone(), login_attempt_id.clone(), code.clone())
        .expect("Adding code failed for some reason!");

    let result = store.get_code(&random_email);

    assert!(result.is_ok());

    let (_login_attempt_id, _code) = result.expect("Failed to receive code and login_attempt_id");

    assert_eq!(code, _code);
    assert_eq!(login_attempt_id, _login_attempt_id);
}

#[test]
fn test_remove_code() {
    let mut store = HashmapTwoFACodeStore::new();

    let email = Email::parse("test@example.com".to_string()).unwrap();
    let login_attempt_id = LoginAttemptId::default();
    let code = TwoFACode::parse("123456".to_string()).unwrap();

    store
        .add_code(email.clone(), login_attempt_id.clone(), code.clone())
        .unwrap();

    // Remove
    let result = store.remove_code(&email);
    assert!(result.is_ok());

    // Verify it's gone
    let result = store.get_code(&email);
    assert!(matches!(result, Err(TwoFACodeStoreError::LoginAttemptIdNotFound)));
}

#[test]
fn removing_an_absent_code_is_an_error() {
    let mut store = HashmapTwoFACodeStore::new();
    let email = Email::parse("test@example.com".to_string()).unwrap();
    let result = store.remove_code(&email);
    assert!(matches!(result, Err(TwoFACodeStoreError::UnexpectedError(_))));
}

#[test]
fn second_challenge_invalidates_the_first() {
    let mut store = HashmapTwoFACodeStore::new();
    let email = Email::parse("test@example.com".to_string()).unwrap();

    let first_id = LoginAttemptId::default();
    let first_code = TwoFACode::parse("111111".to_string()).unwrap();
    store
        .add_code(email.clone(), first_id.clone(), first_code.clone())
        .unwrap();

    let second_id = LoginAttemptId::default();
    let second_code = TwoFACode::parse("222222".to_string()).unwrap();
    store
        .add_code(email.clone(), second_id.clone(), second_code.clone())
        .unwrap();

    // The first pair no longer verifies.
    let first_try = verify_and_consume(&mut store, &email, &first_id, &first_code);
    assert_eq!(first_try.unwrap_err(), AuthAPIError::IncorrectCredentials);

    // The current pair still does.
    assert!(verify_and_consume(&mut store, &email, &second_id, &second_code).is_ok());
}

#[test]
fn verify_and_consume_succeeds_at_most_once() {
    let mut store = HashmapTwoFACodeStore::new();
    let email = Email::parse("test@example.com".to_string()).unwrap();
    let id = LoginAttemptId::default();
    let code = TwoFACode::parse("654321".to_string()).unwrap();
    store.add_code(email.clone(), id.clone(), code.clone()).unwrap();

    assert!(verify_and_consume(&mut store, &email, &id, &code).is_ok());

    let second = verify_and_consume(&mut store, &email, &id, &code);
    assert_eq!(second.unwrap_err(), AuthAPIError::IncorrectCredentials);
}

#[test]
fn mismatched_id_or_code_is_a_credential_failure() {
    let mut store = HashmapTwoFACodeStore::new();
    let email = Email::parse("test@example.com".to_string()).unwrap();
    let id = LoginAttemptId::default();
    let code = TwoFACode::parse("654321".to_string()).unwrap();
    store.add_code(email.clone(), id.clone(), code.clone()).unwrap();

    let wrong_id = LoginAttemptId::default();
    let r = verify_and_consume(&mut store, &email, &wrong_id, &code);
    assert_eq!(r.unwrap_err(), AuthAPIError::IncorrectCredentials);

    let wrong_code = TwoFACode::parse("000000".to_string()).unwrap();
    let r = verify_and_consume(&mut store, &email, &id, &wrong_code);
    assert_eq!(r.unwrap_err(), AuthAPIError::IncorrectCredentials);

    // The record was not consumed by the failed attempts.
    assert!(verify_and_consume(&mut store, &email, &id, &code).is_ok());
}

#[test]
fn generated_codes_are_six_decimal_digits() {
    for _ in 0..32 {
        let code = TwoFACode::default();
        let s = code.as_str();
        assert_eq!(s.len(), 6);
        assert!(s.chars().all(|c| c.is_ascii_digit()));
    }
}

#[test]
fn generated_attempt_ids_parse_back_unchanged() {
    for _ in 0..8 {
        let id = LoginAttemptId::default();
        let reparsed = LoginAttemptId::parse(id.as_str().to_string()).unwrap();
        assert_eq!(reparsed, id);
    }
}

#[test]
fn attempt_id_parsing_canonicalizes_case() {
    let upper = "67E55044-10B1-426F-9247-BB680E5FE0C8".to_string();
    let parsed = LoginAttemptId::parse(upper).unwrap();
    assert_eq!(parsed.as_str(), "67e55044-10b1-426f-9247-bb680e5fe0c8");

    assert!(LoginAttemptId::parse("invalid".to_string()).is_err());
    assert!(LoginAttemptId::parse("".to_string()).is_err());
}
