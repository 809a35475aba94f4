use auth_service::Password;

#[test]
fn password_shorter_than_8_characters_is_rejected() {
    assert!(Password::parse("".to_string()).is_err());
    assert!(Password::parse("1234567".to_string()).is_err());
}

#[test]
fn password_of_8_characters_or_more_is_accepted() {
    let p = Password::parse("12345678".to_string()).unwrap();
    assert_eq!(p.as_str(), "12345678");
    assert!(Password::parse("a much longer passphrase".to_string()).is_ok());
}
