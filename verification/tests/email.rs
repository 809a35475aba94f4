use auth_service::Email;

#[test]
fn email_empty_string_is_rejected() {
    let email = "".to_string();
    assert!(Email::parse(email).is_err());
}

#[test]
fn email_missing_at_symbol_is_rejected() {
    let email = "test_test.com".to_string();
    assert!(Email::parse(email).is_err());
}

#[test]
fn email_missing_subject_is_rejected() {
    let email = "@example.com".to_string();
    assert!(Email::parse(email).is_err());
}

#[test]
fn email_missing_domain_is_rejected() {
    let email = "someone@".to_string();
    assert!(Email::parse(email).is_err());
}

#[test]
fn email_with_multiple_at_symbols_is_rejected() {
    let email = "a@b@c".to_string();
    assert!(Email::parse(email).is_err());
}

#[test]
fn well_formed_emails_are_accepted() {
    for email in ["a@b.com", "first.last@example.org", "x@y", "user+tag@mail.co.uk"] {
        let parsed = Email::parse(email.to_string());
        assert!(parsed.is_ok(), "should accept {}", email);
        assert_eq!(parsed.unwrap().as_str(), email);
    }
}

#[test]
fn email_equality_is_value_based() {
    let a = Email::parse("a@b.com".to_string()).unwrap();
    let b = Email::parse("a@b.com".to_string()).unwrap();
    let c = Email::parse("c@b.com".to_string()).unwrap();
    assert!(a == b);
    assert!(a != c);
    assert_eq!(a.clone(), a);
}
