//! Identities and the decisions of registration, login and credential
//! change.
//!
//! The record store is an outside collaborator: this module never talks to
//! it. Each function takes what the store replied and returns what is to be
//! stored or reported, so the caller alternates store calls and decisions.

use crate::encryption::{encrypt_with_random_nonce, opened_field, sealable_len};
use crate::errors::CustomError;
use crate::hashing::{
    argon2_accepts, argon2id_record, hash_random_salt, hashable, hashed_with, usable_salt,
    verify_password,
};
use crate::jwt::{
    current_time, generate_jwt_at, jwt_token, lemma_token_lifecycle, validated,
    TOKEN_LIFETIME_SECS,
};
use crate::lookup::{digest_text, lookup_digest};
use vstd::prelude::*;
use vstd::utf8::encode_utf8;

verus! {

/// A stored identity. Names and email are held encrypted; the email is
/// found again through its lookup digest, which the store keeps unique.
#[derive(Clone, Debug, PartialEq, Eq)]
pub struct User {
    /// The identifier of the identity.
    pub id: String,
    /// The encrypted first name.
    pub encrypted_firstname: String,
    /// The encrypted last name.
    pub encrypted_lastname: String,
    /// The user name, shown in clear.
    pub username: String,
    /// The password record.
    pub password_hash: String,
    /// The encrypted email address.
    pub encrypted_email: String,
    /// The lookup digest of the email address.
    pub email_hash: String,
    /// The creation timestamp; the store fills it in.
    pub created_at: String,
}

/// What the store replied to the insertion of a new identity.
#[derive(Debug, PartialEq, Eq)]
pub enum InsertOutcome {
    /// The identity is stored.
    Stored,
    /// The store refused a second identity with the same lookup digest.
    Duplicate,
    /// The store failed; the value is its message.
    Failed(String),
}

/// What a successful login hands to the client.
#[derive(Debug, PartialEq, Eq)]
pub struct Session {
    /// The session token.
    pub token: String,
    /// The user name of the identity that logged in.
    pub username: String,
}

impl User {
    /// Whether this record is what registration owes the given details
    /// under a key: each sensitive field opens to its plaintext, the
    /// password record accepts the password, the digest is that of the
    /// email, and the creation time is left for the store to fill in.
    pub open spec fn holds(
        self,
        key: Seq<u8>,
        firstname: Seq<char>,
        lastname: Seq<char>,
        username: Seq<char>,
        password: Seq<char>,
        email: Seq<char>,
    ) -> bool {
        &&& opened_field(key, self.encrypted_firstname@) == Some(firstname)
        &&& opened_field(key, self.encrypted_lastname@) == Some(lastname)
        &&& opened_field(key, self.encrypted_email@) == Some(email)
        &&& self.username@ == username
        &&& argon2_accepts(encode_utf8(password), self.password_hash@)
        &&& self.email_hash@ == digest_text(email)
        &&& self.created_at@ == Seq::<char>::empty()
    }
}

/// Whether a text can be sealed into a field.
pub open spec fn fits_field(text: Seq<char>) -> bool {
    sealable_len(encode_utf8(text).len())
}

/// Whether a result is the one that registering a new email with fitting
/// fields owes when the hasher draws a given salt: the record that holds
/// the details, with the password record that Argon2id names for the
/// password and that salt; or a hashing error where it names none.
pub open spec fn registered_with(
    key: Seq<u8>,
    firstname: Seq<char>,
    lastname: Seq<char>,
    username: Seq<char>,
    password: Seq<char>,
    email: Seq<char>,
    salt: Seq<char>,
    result: Result<User, CustomError>,
) -> bool {
    match argon2id_record(encode_utf8(password), salt) {
        Some(record) => result matches Ok(user) && user.password_hash@ == record && user.holds(
            key,
            firstname,
            lastname,
            username,
            password,
            email,
        ),
        None => result matches Err(CustomError::HashingError),
    }
}

/// Whether a result and a new state are the ones that changing a password
/// owes when the hasher draws a given salt: the identity with the password
/// record that Argon2id names for the new password and that salt, and
/// nothing else changed; or a hashing error and the identity as it was.
pub open spec fn password_changed_with(
    before: User,
    new_password: Seq<char>,
    salt: Seq<char>,
    after: User,
    result: Result<(), CustomError>,
) -> bool {
    match argon2id_record(encode_utf8(new_password), salt) {
        Some(record) => result is Ok && after.password_hash@ == record && after == (User {
            password_hash: after.password_hash,
            ..before
        }) && argon2_accepts(encode_utf8(new_password), record),
        None => result matches Err(CustomError::HashingError) && after == before,
    }
}

/// `Uuid::new_v4().to_string()` of the `uuid` crate: a random identifier
/// as text. Nothing is claimed of it: every call may return a different one.
#[verifier::external_body]
fn fresh_id() -> (id: String) {
    uuid::Uuid::new_v4().to_string()
}

/// Builds the record of a new identity under a given identifier, from what
/// the store found under the email's lookup digest. An email that is
/// already registered is refused before anything is computed; a field too
/// long to seal is an encryption error; a password longer than `u32::MAX`
/// bytes is a hashing error; every other registration gets its record,
/// the one owed under the salt that the hasher drew.
pub fn register_with_id(
    existing: &Vec<User>,
    key: &[u8; 32],
    id: String,
    firstname: String,
    lastname: String,
    username: String,
    password: String,
    email: String,
) -> (result: Result<User, CustomError>)
    ensures
        existing@.len() > 0 ==> result matches Err(CustomError::UserAlreadyExists),
        existing@.len() == 0 && !(fits_field(firstname@) && fits_field(lastname@) && fits_field(
            email@,
        )) ==> result matches Err(CustomError::EncryptionError),
        existing@.len() == 0 && fits_field(firstname@) && fits_field(lastname@) && fits_field(
            email@,
        ) ==> (match result {
            Ok(user) => user.id == id && user.holds(
                key@,
                firstname@,
                lastname@,
                username@,
                password@,
                email@,
            ),
            Err(error) => error == CustomError::HashingError,
        }),
        existing@.len() == 0 && fits_field(firstname@) && fits_field(lastname@) && fits_field(
            email@,
        ) ==> exists|salt: Seq<char>|
            usable_salt(salt) && #[trigger] registered_with(
                key@,
                firstname@,
                lastname@,
                username@,
                password@,
                email@,
                salt,
                result,
            ),
        existing@.len() == 0 && fits_field(firstname@) && fits_field(lastname@) && fits_field(
            email@,
        ) && hashable(encode_utf8(password@)) ==> result is Ok,
        existing@.len() == 0 && fits_field(firstname@) && fits_field(lastname@) && fits_field(
            email@,
        ) && !hashable(encode_utf8(password@)) ==> result matches Err(
            CustomError::HashingError,
        ),
{
    if existing.len() > 0 {
        return Err(CustomError::UserAlreadyExists);
    }
    let email_hash = lookup_digest(email.as_str());
    let encrypted_firstname = match encrypt_with_random_nonce(key, firstname.as_str()) {
        Ok(text) => text,
        Err(_) => { return Err(CustomError::EncryptionError); },
    };
    let encrypted_lastname = match encrypt_with_random_nonce(key, lastname.as_str()) {
        Ok(text) => text,
        Err(_) => { return Err(CustomError::EncryptionError); },
    };
    let encrypted_email = match encrypt_with_random_nonce(key, email.as_str()) {
        Ok(text) => text,
        Err(_) => { return Err(CustomError::EncryptionError); },
    };
    let hashed = hash_random_salt(password.as_str());
    let ghost salt = choose|salt: Seq<char>|
        usable_salt(salt) && hashed_with(encode_utf8(password@), salt, hashed);
    assert(usable_salt(salt) && hashed_with(encode_utf8(password@), salt, hashed));
    let result = match hashed {
        Ok(password_hash) => Ok(
            User {
                id,
                encrypted_firstname,
                encrypted_lastname,
                username,
                password_hash,
                encrypted_email,
                email_hash,
                created_at: String::new(),
            },
        ),
        Err(_) => Err(CustomError::HashingError),
    };
    assert(registered_with(
        key@,
        firstname@,
        lastname@,
        username@,
        password@,
        email@,
        salt,
        result,
    ));
    result
}

/// Builds the record of a new identity under an identifier drawn afresh,
/// from what the store found under the email's lookup digest. For a new
/// email with fitting fields the result is the one owed under the salt
/// that the hasher drew.
pub fn register(
    existing: &Vec<User>,
    key: &[u8; 32],
    firstname: String,
    lastname: String,
    username: String,
    password: String,
    email: String,
) -> (result: Result<User, CustomError>)
    ensures
        existing@.len() > 0 ==> result matches Err(CustomError::UserAlreadyExists),
        existing@.len() == 0 && !(fits_field(firstname@) && fits_field(lastname@) && fits_field(
            email@,
        )) ==> result matches Err(CustomError::EncryptionError),
        existing@.len() == 0 && fits_field(firstname@) && fits_field(lastname@) && fits_field(
            email@,
        ) ==> (match result {
            Ok(user) => user.holds(key@, firstname@, lastname@, username@, password@, email@),
            Err(error) => error == CustomError::HashingError,
        }),
        existing@.len() == 0 && fits_field(firstname@) && fits_field(lastname@) && fits_field(
            email@,
        ) ==> exists|salt: Seq<char>|
            usable_salt(salt) && #[trigger] registered_with(
                key@,
                firstname@,
                lastname@,
                username@,
                password@,
                email@,
                salt,
                result,
            ),
        existing@.len() == 0 && fits_field(firstname@) && fits_field(lastname@) && fits_field(
            email@,
        ) && hashable(encode_utf8(password@)) ==> result is Ok,
        existing@.len() == 0 && fits_field(firstname@) && fits_field(lastname@) && fits_field(
            email@,
        ) && !hashable(encode_utf8(password@)) ==> result matches Err(
            CustomError::HashingError,
        ),
{
    let id = fresh_id();
    register_with_id(existing, key, id, firstname, lastname, username, password, email)
}

/// Reports how a registration ended, from the store's reply to the
/// insertion. The store's refusal of a duplicate is the authoritative sign
/// that the email is taken.
pub fn conclude_registration(outcome: InsertOutcome) -> (result: Result<bool, CustomError>)
    ensures
        match outcome {
            InsertOutcome::Stored => result == Ok::<bool, CustomError>(true),
            InsertOutcome::Duplicate => result matches Err(CustomError::UserAlreadyExists),
            InsertOutcome::Failed(message) => result == Err::<bool, CustomError>(
                CustomError::DatabaseError(message),
            ),
        },
{
    match outcome {
        InsertOutcome::Stored => Ok(true),
        InsertOutcome::Duplicate => Err(CustomError::UserAlreadyExists),
        InsertOutcome::Failed(message) => Err(CustomError::DatabaseError(message)),
    }
}

/// Whether what the store found authenticates under a password: a record
/// was found and the last one accepts the password.
pub open spec fn authenticates(found: Seq<User>, password: Seq<char>) -> bool {
    found.len() > 0 && argon2_accepts(encode_utf8(password), found.last().password_hash@)
}

/// A registered identity can log in. The record that registration made for
/// a password authenticates under that password when the store finds it.
pub proof fn lemma_registered_identity_authenticates(
    user: User,
    key: Seq<u8>,
    firstname: Seq<char>,
    lastname: Seq<char>,
    username: Seq<char>,
    password: Seq<char>,
    email: Seq<char>,
)
    requires
        user.holds(key, firstname, lastname, username, password, email),
    ensures
        authenticates(seq![user], password),
        user.email_hash@ == digest_text(email),
{
}

/// Authenticates against what the store found under the email's lookup
/// digest. The last record found is returned when its password record
/// accepts the password. An unknown email and a wrong password are refused
/// with the same error.
pub fn authenticate_user(found: Vec<User>, password: &str) -> (result: Result<User, CustomError>)
    ensures
        authenticates(found@, password@) ==> result == Ok::<User, CustomError>(found@.last()),
        !authenticates(found@, password@) ==> result matches Err(CustomError::CredentialRejected),
{
    let mut found = found;
    match found.pop() {
        Some(user) => {
            match verify_password(password, user.password_hash.as_str()) {
                Ok(_) => Ok(user),
                Err(_) => Err(CustomError::CredentialRejected),
            }
        },
        None => Err(CustomError::CredentialRejected),
    }
}

/// Whether a result is the one that a login at a given time owes: a
/// refusal where the credential does not authenticate; an error where the
/// expiry does not fit in 64 bits; else a session that carries the user
/// name of the identity and the token issued for its identifier, which
/// validates at that time to that identifier.
pub open spec fn logged_in_at(
    found: Seq<User>,
    password: Seq<char>,
    secret: Seq<u8>,
    now: int,
    result: Result<Session, CustomError>,
) -> bool {
    if !authenticates(found, password) {
        result matches Err(CustomError::CredentialRejected)
    } else if now + TOKEN_LIFETIME_SECS > u64::MAX {
        result matches Err(CustomError::Unknown)
    } else {
        &&& result matches Ok(session)
        &&& session.token@ == jwt_token(
            secret,
            found.last().id@,
            now + TOKEN_LIFETIME_SECS,
            now,
        )
        &&& session.username == found.last().username
        &&& validated(secret, session.token@, now) matches Some(claims) && claims.sub
            == found.last().id@
    }
}

/// Logs in at a given time: authenticates against what the store found and
/// issues a token for the identity. A refused credential is reported
/// before any token is made; the token that comes back validates at that
/// time to the identifier of the stored identity.
pub fn login_at(found: Vec<User>, password: &str, secret: &str, now: u64) -> (result: Result<
    Session,
    CustomError,
>)
    ensures
        logged_in_at(found@, password@, encode_utf8(secret@), now as int, result),
{
    let user = match authenticate_user(found, password) {
        Ok(user) => user,
        Err(_) => { return Err(CustomError::CredentialRejected); },
    };
    let ghost subject = user.id@;
    match generate_jwt_at(user.id, secret, now) {
        Ok(token) => {
            proof {
                lemma_token_lifecycle(
                    encode_utf8(secret@),
                    token@,
                    subject,
                    now as int,
                    now as int,
                );
            }
            Ok(Session { token, username: user.username })
        },
        Err(_) => Err(CustomError::Unknown),
    }
}

/// Logs in at the present time. Whatever the clock reads, the result is
/// the one owed at some time that fits a signed 64-bit count: a credential
/// that authenticates always gets a session, and one that does not is
/// refused whatever the time.
pub fn login(found: Vec<User>, password: &str, secret: &str) -> (result: Result<
    Session,
    CustomError,
>)
    ensures
        exists|now: int|
            0 <= now <= i64::MAX && #[trigger] logged_in_at(
                found@,
                password@,
                encode_utf8(secret@),
                now,
                result,
            ),
        !authenticates(found@, password@) ==> result matches Err(CustomError::CredentialRejected),
        authenticates(found@, password@) ==> result is Ok,
{
    let now = current_time();
    let result = login_at(found, password, secret, now);
    assert(logged_in_at(found@, password@, encode_utf8(secret@), now as int, result));
    result
}

/// Replaces the user name of an identity and nothing else.
pub fn change_username(user: &mut User, new_username: String)
    ensures
        *final(user) == (User { username: new_username, ..*old(user) }),
{
    user.username = new_username;
}

/// Replaces the password record of an identity with a fresh record of the
/// new password, and nothing else. A password of at most `u32::MAX` bytes
/// is always accepted; a longer one is a hashing error and leaves the
/// identity as it was. The outcome is the one owed under the salt that the
/// hasher drew.
pub fn change_password(user: &mut User, new_password: &str) -> (result: Result<(), CustomError>)
    ensures
        exists|salt: Seq<char>|
            usable_salt(salt) && #[trigger] password_changed_with(
                *old(user),
                new_password@,
                salt,
                *final(user),
                result,
            ),
        hashable(encode_utf8(new_password@)) ==> result is Ok,
        !hashable(encode_utf8(new_password@)) ==> result matches Err(CustomError::HashingError),
        result is Ok ==> argon2_accepts(encode_utf8(new_password@), final(user).password_hash@)
            && *final(user) == (User { password_hash: final(user).password_hash, ..*old(user) }),
        result matches Err(error) ==> error == CustomError::HashingError && *final(user) == *old(
            user,
        ),
{
    let hashed = hash_random_salt(new_password);
    let ghost salt = choose|salt: Seq<char>|
        usable_salt(salt) && hashed_with(encode_utf8(new_password@), salt, hashed);
    assert(usable_salt(salt) && hashed_with(encode_utf8(new_password@), salt, hashed));
    let result = match hashed {
        Ok(record) => {
            user.password_hash = record;
            Ok(())
        },
        Err(_) => Err(CustomError::HashingError),
    };
    assert(password_changed_with(*old(user), new_password@, salt, *user, result));
    result
}

} // verus!
