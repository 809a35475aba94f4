use auth_service::{Email, HashedPassword, HashmapUserStore, User, UserStore, UserStoreError};

fn test_user() -> User {
    User::new(
        Email::parse("test@test.pl".to_string()).unwrap(),
        HashedPassword::parse("testPassword123".to_string()).unwrap(),
        false,
    )
}

#[test]
fn test_add_user() {
    let mut store = HashmapUserStore::default();

    let user = test_user();
    let result = store.add_user(user.clone());
    assert_eq!(result.unwrap(), (), "User should be added successfully");

    let result = store.add_user(user.clone());

    assert_eq!(
        result.expect_err("Result should be error"),
        UserStoreError::UserAlreadyExists,
        "Error UserAlreadyExists should be raised"
    );
}

#[test]
fn test_get_user() {
    let mut store = HashmapUserStore::default();
    let user = test_user();
    store.add_user(user.clone()).unwrap();

    let _user = store.get_user(&user.email);

    assert_eq!(_user.is_err(), false, "User should be returned successfully");

    let _user = _user.unwrap();

    assert_eq!(_user, user, "Correct user should be returned");
}

#[test]
fn test_validate_user() {
    let mut store = HashmapUserStore::default();
    let user = test_user();
    store.add_user(user.clone()).unwrap();

    // Successful validation
    let res = store.validate_user(&user.email, "testPassword123");
    assert_eq!(res.unwrap(), (), "Valid credentials should return Ok(())");

    // Invalid password
    let res = store.validate_user(&user.email, "wrong_password");
    assert_eq!(
        res.expect_err("Result should be error"),
        UserStoreError::InvalidCredentials,
        "Incorrect password should return InvalidCredentials"
    );

    // Non-existent user
    let res = store.validate_user(
        &Email::parse("noone@example.com".to_string()).unwrap(),
        "whatever",
    );
    assert_eq!(
        res.expect_err("Result should be error"),
        UserStoreError::UserNotFound,
        "Unknown email should return UserNotFound"
    );
}

#[test]
fn stored_rows_round_trip_through_from_stored() {
    let user = test_user();
    let rebuilt = User::from_stored(
        user.email.as_str().to_string(),
        user.password.as_str().to_string(),
        user.requires_2fa,
    )
    .unwrap();
    assert_eq!(rebuilt, user);

    // A corrupted row is refused.
    assert!(User::from_stored("not-an-email".to_string(), user.password.as_str().to_string(), false)
        .is_err());
    assert!(User::from_stored("a@b.com".to_string(), "not-a-digest".to_string(), false).is_err());
}
