use gameshop::errors::CustomError;
use gameshop::hashing::{hash_random_salt, hash_with_salt, verdict, verify_password, RecordCheck};

const REFERENCE_RECORD: &str =
    "$argon2id$v=19$m=256,t=2,p=1$c29tZXNhbHQ$nf65EOgLrQMR/uIPnA4rEsF5h7TKyQwu9U1bMCHGi/4";

#[test]
fn test_hashing_correct() {
    let password = "password123";
    let hashed_password = hash_random_salt(password).unwrap();
    assert!(verify_password(password, &hashed_password).is_ok());
}

#[test]
fn test_hashing_incorrect() {
    let password = "password123";
    let hashed_password = hash_random_salt(password).unwrap();
    assert!(verify_password("wrong_password", &hashed_password).is_err());
}

#[test]
fn reference_record_accepts_its_password() {
    assert_eq!(verify_password("password", REFERENCE_RECORD), Ok(()));
}

#[test]
fn reference_record_refuses_another_password() {
    assert_eq!(verify_password("passwore", REFERENCE_RECORD), Err(CustomError::InvalidPassword));
    assert_eq!(verify_password("", REFERENCE_RECORD), Err(CustomError::InvalidPassword));
    assert_eq!(verify_password("Password", REFERENCE_RECORD), Err(CustomError::InvalidPassword));
}

#[test]
fn malformed_record_is_refused_like_a_wrong_password() {
    assert_eq!(verify_password("password", ""), Err(CustomError::InvalidPassword));
    assert_eq!(verify_password("password", "password"), Err(CustomError::InvalidPassword));
    assert_eq!(
        verify_password("password", "$argon2id$v=19$m=256,t=2,p=1$c29tZXNhbHQ"),
        Err(CustomError::InvalidPassword)
    );
    assert_eq!(
        verify_password("password", "$unknown$v=19$m=256,t=2,p=1$c29tZXNhbHQ$nf65EOgLrQMR"),
        Err(CustomError::InvalidPassword)
    );
}

#[test]
fn record_is_self_describing() {
    let record = hash_with_salt("password123", "c29tZXNhbHRzb21lc2FsdA").unwrap();
    assert!(record.starts_with("$argon2id$v=19$m=19456,t=2,p=1$c29tZXNhbHRzb21lc2FsdA$"));
    let digest = record.rsplit('$').next().unwrap();
    assert_eq!(digest.len(), 43);
    assert_ne!(record, "password123");
}

#[test]
fn hashing_with_one_salt_is_deterministic() {
    let first = hash_with_salt("password123", "c29tZXNhbHRzb21lc2FsdA").unwrap();
    let second = hash_with_salt("password123", "c29tZXNhbHRzb21lc2FsdA").unwrap();
    assert_eq!(first, second);
    let other_salt = hash_with_salt("password123", "ZGlmZnNhbHRkaWZmc2FsdA").unwrap();
    assert_ne!(first, other_salt);
    let other_password = hash_with_salt("password124", "c29tZXNhbHRzb21lc2FsdA").unwrap();
    assert_ne!(first, other_password);
}

#[test]
fn record_made_with_a_salt_accepts_its_password_only() {
    let record = hash_with_salt("longpassword1", "c29tZXNhbHRzb21lc2FsdA").unwrap();
    assert_eq!(verify_password("longpassword1", &record), Ok(()));
    assert_eq!(verify_password("longpassword2", &record), Err(CustomError::InvalidPassword));
}

#[test]
fn unusable_salt_is_a_hashing_error() {
    assert_eq!(hash_with_salt("password123", ""), Err(CustomError::HashingError));
    assert_eq!(hash_with_salt("password123", "abc"), Err(CustomError::HashingError));
    assert_eq!(hash_with_salt("password123", "not a salt!"), Err(CustomError::HashingError));
}

#[test]
fn each_hash_draws_a_new_salt() {
    let first = hash_random_salt("password123").unwrap();
    let second = hash_random_salt("password123").unwrap();
    assert_ne!(first, second);
    assert!(first.starts_with("$argon2id$v=19$m=19456,t=2,p=1$"));
    assert_eq!(verify_password("password123", &first), Ok(()));
    assert_eq!(verify_password("password123", &second), Ok(()));
}

#[test]
fn empty_password_hashes_and_verifies() {
    let record = hash_random_salt("").unwrap();
    assert_eq!(verify_password("", &record), Ok(()));
    assert_eq!(verify_password(" ", &record), Err(CustomError::InvalidPassword));
}

#[test]
fn verdict_is_uniform_for_refusals() {
    assert_eq!(verdict(RecordCheck::Accepted), Ok(()));
    assert_eq!(verdict(RecordCheck::Mismatch), Err(CustomError::InvalidPassword));
    assert_eq!(verdict(RecordCheck::Malformed), Err(CustomError::InvalidPassword));
}

#[test]
fn drawn_salt_is_base64_of_sixteen_bytes() {
    for _ in 0..8 {
        let record = hash_random_salt("password123").unwrap();
        let salt = record.split('$').nth(4).unwrap().to_string();
        assert_eq!(salt.len(), 22);
        assert!(salt.chars().all(|c| c.is_ascii_alphanumeric() || c == '+' || c == '/'));
        assert!(matches!(salt.chars().last(), Some('A') | Some('Q') | Some('g') | Some('w')));
        assert_eq!(hash_with_salt("password123", &salt), Ok(record));
    }
}

#[test]
fn usable_salts_always_hash() {
    for salt in [
        "AAAAAAAAAAAAAAAAAAAAAA",
        "+++++++++++++++++++++A",
        "/////////////////////Q",
        "abcdefghijklmnopqrstuQ",
        "0123456789+/ABCDEFGHIg",
        "zzzzzzzzzzzzzzzzzzzzzw",
        "ZZZZZZZZZZZZZZZZZZZZ9w",
    ] {
        let record = hash_with_salt("", salt);
        assert!(record.is_ok(), "salt {}", salt);
        assert_eq!(verify_password("", &record.unwrap()), Ok(()));
    }
}

#[test]
fn salt_with_stray_bits_is_refused() {
    assert_eq!(
        hash_with_salt("password123", "AAAAAAAAAAAAAAAAAAAAAB"),
        Err(CustomError::HashingError)
    );
    assert_eq!(
        hash_with_salt("password123", "AAAAAAAAAAAAAAAAAAAA.A"),
        Err(CustomError::HashingError)
    );
    assert_eq!(
        hash_with_salt("password123", "++++++++++++++++++++++"),
        Err(CustomError::HashingError)
    );
}
