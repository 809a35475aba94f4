use auth_service::{
    generate_auth_token, AuthConfig, BannedTokenStore, Email, HashsetBannedTokenStore,
};

#[test]
fn test_ban_token() {
    let mut store = HashsetBannedTokenStore::default();
    let config = AuthConfig::new("test-secret".to_string()).unwrap();
    let email = Email::parse("test@test.pl".to_string()).unwrap();
    let jwt = generate_auth_token(&email, 1_000_000, &config).unwrap();
    store.add_token(jwt.clone()).expect("Failed to s add token.");

    let is_banned = store.contains_token(jwt.as_str()).unwrap();

    assert!(is_banned);
}

#[test]
fn unknown_tokens_are_not_banned() {
    let store = HashsetBannedTokenStore::new();
    assert!(!store.contains_token("some-token").unwrap());
}

#[test]
fn banning_is_idempotent_and_per_token() {
    let mut store = HashsetBannedTokenStore::new();
    store.add_token("one".to_string()).unwrap();
    store.add_token("one".to_string()).unwrap();
    assert!(store.contains_token("one").unwrap());
    assert!(!store.contains_token("two").unwrap());
}
