use argon2::{Algorithm, Argon2, Params, PasswordHasher, Version};
use auth_service::HashedPassword;

fn fresh_salt() -> argon2::password_hash::SaltString {
    let mut bytes = [0u8; 16];
    rand::fill(&mut bytes);
    argon2::password_hash::SaltString::encode_b64(&bytes).unwrap()
}

#[test]
fn hashed_password_empty_string_is_rejected() {
    let password = "".to_owned();
    assert!(HashedPassword::parse(password).is_err());
}

#[test]
fn string_less_than_8_characters_is_rejected() {
    let password = "1234567".to_owned();
    assert!(HashedPassword::parse(password).is_err());
}

#[test]
fn can_parse_valid_argon2_hash() {
    // Arrange - Create a valid Argon2 hash
    let raw_password = "TestPassword123";
    let salt = fresh_salt();
    let argon2 = Argon2::new(
        Algorithm::Argon2id,
        Version::V0x13,
        Params::new(15000, 2, 1, None).unwrap(),
    );

    let hash_string = argon2
        .hash_password(raw_password.as_bytes(), &salt)
        .unwrap()
        .to_string();

    // Act
    let hash_password = HashedPassword::parse_password_hash(hash_string.clone()).unwrap();

    // Assert
    assert_eq!(hash_password.as_str(), hash_string.as_str());
    assert!(hash_password.as_str().starts_with("$argon2id$v=19$"));
}

#[test]
fn can_verify_raw_password() {
    let raw_password = "TestPassword123";
    let salt = fresh_salt();
    let argon2 = Argon2::new(
        Algorithm::Argon2id,
        Version::V0x13,
        Params::new(15000, 2, 1, None).unwrap(),
    );

    let hash_string = argon2
        .hash_password(raw_password.as_bytes(), &salt)
        .unwrap()
        .to_string();

    let hash_password = HashedPassword::parse_password_hash(hash_string.clone()).unwrap();

    assert_eq!(hash_password.as_str(), hash_string.as_str());
    assert!(hash_password.as_str().starts_with("$argon2id$v=19$"));

    let result = hash_password.verify_raw_password(raw_password);
    assert!(!result.is_err());

    assert_eq!(result.unwrap(), ())
}

#[test]
fn valid_passwords_are_parsed_successfully() {
    for password in ["12345678", "password123", "correct horse battery staple!"] {
        assert!(HashedPassword::parse(password.to_owned()).is_ok());
    }
}

#[test]
fn hash_verifies_its_own_password_and_no_other() {
    let digest = HashedPassword::parse("password123".to_owned()).unwrap();
    // The digest is salted and irreversible, never the raw password itself.
    assert_ne!(digest.as_str(), "password123");
    assert!(digest.verify_raw_password("password123").is_ok());
    assert!(digest.verify_raw_password("password124").is_err());
    assert!(digest.verify_raw_password("").is_err());
}

#[test]
fn malformed_digest_strings_are_rejected() {
    assert!(HashedPassword::parse_password_hash("".to_owned()).is_err());
    assert!(HashedPassword::parse_password_hash("not a digest".to_owned()).is_err());
}
