use gameshop::encryption::{decrypt_with_nonce, load_key};
use gameshop::errors::CustomError;
use gameshop::hashing::verify_password;
use gameshop::identity::{
    authenticate_user, change_password, change_username, conclude_registration, login, login_at,
    register, register_with_id, InsertOutcome, User,
};
use gameshop::jwt::{extract_user_id_from_jwt, validate_jwt_at};
use gameshop::lookup::lookup_digest;

const JWT_SECRET: &str = "secret";

fn key() -> [u8; 32] {
    load_key("12345678901234567890123456789012")
}

fn find(store: &[User], email: &str) -> Vec<User> {
    let digest = lookup_digest(email);
    store.iter().filter(|user| user.email_hash == digest).cloned().collect()
}

fn sign_up(store: &mut Vec<User>, email: &str, password: &str) -> Result<bool, CustomError> {
    let existing = find(store, email);
    let user = register(
        &existing,
        &key(),
        "Ada".to_string(),
        "Lovelace".to_string(),
        "ada".to_string(),
        password.to_string(),
        email.to_string(),
    )?;
    let outcome = if store.iter().any(|other| other.email_hash == user.email_hash) {
        InsertOutcome::Duplicate
    } else {
        store.push(user);
        InsertOutcome::Stored
    };
    conclude_registration(outcome)
}

#[test]
fn registration_and_login_scenario() {
    let mut store: Vec<User> = Vec::new();
    assert_eq!(sign_up(&mut store, "a@b.com", "longpassword1"), Ok(true));
    assert_eq!(store.len(), 1);
    assert_eq!(
        sign_up(&mut store, "A@B.com", "longpassword1"),
        Err(CustomError::UserAlreadyExists)
    );
    assert_eq!(store.len(), 1);

    let session = login(find(&store, "a@b.com"), "longpassword1", JWT_SECRET).unwrap();
    assert_eq!(session.username, "ada");
    assert_eq!(extract_user_id_from_jwt(&session.token, JWT_SECRET), Ok(store[0].id.clone()));

    let wrong_password = login(find(&store, "a@b.com"), "longpassword2", JWT_SECRET);
    let unknown_email = login(find(&store, "nobody@b.com"), "longpassword1", JWT_SECRET);
    assert_eq!(wrong_password, Err(CustomError::CredentialRejected));
    assert_eq!(unknown_email, wrong_password);
}

#[test]
fn login_finds_the_identity_under_any_case_of_the_email() {
    let mut store: Vec<User> = Vec::new();
    assert_eq!(sign_up(&mut store, "a@b.com", "longpassword1"), Ok(true));
    let session = login(find(&store, "A@B.COM"), "longpassword1", JWT_SECRET).unwrap();
    assert_eq!(extract_user_id_from_jwt(&session.token, JWT_SECRET), Ok(store[0].id.clone()));
}

#[test]
fn registered_record_holds_what_was_given() {
    let user = register_with_id(
        &Vec::new(),
        &key(),
        "id-1".to_string(),
        "Ada".to_string(),
        "Lovelace".to_string(),
        "ada".to_string(),
        "longpassword1".to_string(),
        "Ada@Example.com".to_string(),
    )
    .unwrap();
    assert_eq!(user.id, "id-1");
    assert_eq!(user.username, "ada");
    assert_eq!(user.created_at, "");
    assert_eq!(user.email_hash, lookup_digest("ada@example.com"));
    assert_eq!(decrypt_with_nonce(&key(), &user.encrypted_firstname), Ok("Ada".to_string()));
    assert_eq!(decrypt_with_nonce(&key(), &user.encrypted_lastname), Ok("Lovelace".to_string()));
    assert_eq!(
        decrypt_with_nonce(&key(), &user.encrypted_email),
        Ok("Ada@Example.com".to_string())
    );
    assert_ne!(user.encrypted_firstname, "Ada");
    assert_ne!(user.password_hash, "longpassword1");
    assert_eq!(verify_password("longpassword1", &user.password_hash), Ok(()));
}

#[test]
fn registration_is_refused_when_the_email_is_taken() {
    let first = register_with_id(
        &Vec::new(),
        &key(),
        "id-1".to_string(),
        "Ada".to_string(),
        "Lovelace".to_string(),
        "ada".to_string(),
        "longpassword1".to_string(),
        "a@b.com".to_string(),
    )
    .unwrap();
    let second = register(
        &vec![first],
        &key(),
        "Bob".to_string(),
        "Builder".to_string(),
        "bob".to_string(),
        "longpassword2".to_string(),
        "A@B.com".to_string(),
    );
    assert_eq!(second, Err(CustomError::UserAlreadyExists));
}

#[test]
fn each_registration_draws_a_new_identifier() {
    let first = register(
        &Vec::new(),
        &key(),
        "Ada".to_string(),
        "Lovelace".to_string(),
        "ada".to_string(),
        "longpassword1".to_string(),
        "a@b.com".to_string(),
    )
    .unwrap();
    let second = register(
        &Vec::new(),
        &key(),
        "Ada".to_string(),
        "Lovelace".to_string(),
        "ada".to_string(),
        "longpassword1".to_string(),
        "a@b.com".to_string(),
    )
    .unwrap();
    assert_ne!(first.id, second.id);
    assert_eq!(first.id.len(), 36);
    assert_eq!(first.email_hash, second.email_hash);
    assert_ne!(first.encrypted_email, second.encrypted_email);
    assert_ne!(first.password_hash, second.password_hash);
}

#[test]
fn store_replies_map_to_outcomes() {
    assert_eq!(conclude_registration(InsertOutcome::Stored), Ok(true));
    assert_eq!(
        conclude_registration(InsertOutcome::Duplicate),
        Err(CustomError::UserAlreadyExists)
    );
    assert_eq!(
        conclude_registration(InsertOutcome::Failed("disk full".to_string())),
        Err(CustomError::DatabaseError("disk full".to_string()))
    );
}

fn sample_user() -> User {
    register_with_id(
        &Vec::new(),
        &key(),
        "id-1".to_string(),
        "Ada".to_string(),
        "Lovelace".to_string(),
        "ada".to_string(),
        "longpassword1".to_string(),
        "a@b.com".to_string(),
    )
    .unwrap()
}

#[test]
fn authentication_returns_the_record_found() {
    let user = sample_user();
    assert_eq!(authenticate_user(vec![user.clone()], "longpassword1"), Ok(user));
}

#[test]
fn authentication_refusals_are_uniform() {
    let user = sample_user();
    let wrong = authenticate_user(vec![user.clone()], "longpassword2");
    let unknown = authenticate_user(Vec::new(), "longpassword1");
    let mut broken = user;
    broken.password_hash = "not a record".to_string();
    let malformed = authenticate_user(vec![broken], "longpassword1");
    assert_eq!(wrong, Err(CustomError::CredentialRejected));
    assert_eq!(unknown, Err(CustomError::CredentialRejected));
    assert_eq!(malformed, Err(CustomError::CredentialRejected));
}

#[test]
fn login_issues_a_token_for_the_identity() {
    let user = sample_user();
    let session = login_at(vec![user], "longpassword1", JWT_SECRET, 1_700_000_000).unwrap();
    assert_eq!(session.username, "ada");
    let claims = validate_jwt_at(&session.token, JWT_SECRET, 1_700_000_000).unwrap();
    assert_eq!(claims.sub, "id-1");
    assert_eq!(claims.issued_at(), 1_700_000_000);
    assert_eq!(claims.expires_at(), 1_700_086_400);
}

#[test]
fn login_refuses_before_it_signs() {
    let user = sample_user();
    assert_eq!(
        login_at(vec![user.clone()], "wrong", JWT_SECRET, u64::MAX),
        Err(CustomError::CredentialRejected)
    );
    assert_eq!(
        login_at(vec![user], "longpassword1", JWT_SECRET, u64::MAX),
        Err(CustomError::Unknown)
    );
    assert_eq!(
        login_at(Vec::new(), "longpassword1", JWT_SECRET, 1_700_000_000),
        Err(CustomError::CredentialRejected)
    );
}

#[test]
fn changing_the_username_changes_nothing_else() {
    let before = sample_user();
    let mut after = before.clone();
    change_username(&mut after, "countess".to_string());
    assert_eq!(after.username, "countess");
    after.username = before.username.clone();
    assert_eq!(after, before);
}

#[test]
fn changing_the_password_changes_the_record_only() {
    let before = sample_user();
    let mut after = before.clone();
    assert_eq!(change_password(&mut after, "newpassword9"), Ok(()));
    assert_ne!(after.password_hash, before.password_hash);
    assert_eq!(verify_password("newpassword9", &after.password_hash), Ok(()));
    assert_eq!(
        verify_password("longpassword1", &after.password_hash),
        Err(CustomError::InvalidPassword)
    );
    after.password_hash = before.password_hash.clone();
    assert_eq!(after, before);
}

fn salt_of(record: &str) -> String {
    record.split('$').nth(4).unwrap().to_string()
}

#[test]
fn registered_record_is_the_one_named_for_its_salt() {
    let user = sample_user();
    let salt = salt_of(&user.password_hash);
    assert_eq!(salt.len(), 22);
    assert_eq!(
        gameshop::hashing::hash_with_salt("longpassword1", &salt),
        Ok(user.password_hash.clone())
    );
}

#[test]
fn changed_record_is_the_one_named_for_its_salt() {
    let mut user = sample_user();
    let old_salt = salt_of(&user.password_hash);
    assert_eq!(change_password(&mut user, "newpassword9"), Ok(()));
    let salt = salt_of(&user.password_hash);
    assert_ne!(salt, old_salt);
    assert_eq!(
        gameshop::hashing::hash_with_salt("newpassword9", &salt),
        Ok(user.password_hash.clone())
    );
}

#[test]
fn login_now_issues_a_token_for_an_accepted_credential() {
    let user = sample_user();
    let session = login(vec![user.clone()], "longpassword1", JWT_SECRET).unwrap();
    assert_eq!(session.username, user.username);
    assert_eq!(extract_user_id_from_jwt(&session.token, JWT_SECRET), Ok(user.id));
}
