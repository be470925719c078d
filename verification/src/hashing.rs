//! Memory-hard password hashing and verification with Argon2id.
//!
//! A password record is the self-describing PHC string that holds the
//! algorithm, its version and cost parameters, the salt and the digest, so
//! no salt is stored apart from it.

use crate::errors::CustomError;
use argon2::password_hash::{PasswordHasher, PasswordVerifier};
use vstd::prelude::*;
use vstd::utf8::encode_utf8;

verus! {

/// The error of the `password-hash` crate.
#[verifier::external_type_specification]
#[verifier::external_body]
pub struct ExPasswordHashError(argon2::password_hash::Error);

/// The record that Argon2id (version 0x13, default cost parameters) gives
/// for a password and a B64 salt, or nothing where it refuses them.
pub uninterp spec fn argon2id_record(password: Seq<u8>, salt: Seq<char>) -> Option<Seq<char>>;

/// Whether a text parses as a PHC password record.
pub uninterp spec fn phc_well_formed(record: Seq<char>) -> bool;

/// Whether re-deriving the digest of a password with the algorithm,
/// parameters and salt of a record gives the digest that the record holds.
pub uninterp spec fn argon2_accepts(password: Seq<u8>, record: Seq<char>) -> bool;

/// Whether a character belongs to the standard base64 alphabet.
pub open spec fn is_b64_char(c: char) -> bool {
    let n = c as u32;
    ||| 0x41 <= n <= 0x5a
    ||| 0x61 <= n <= 0x7a
    ||| 0x30 <= n <= 0x39
    ||| n == 0x2b
    ||| n == 0x2f
}

/// Whether a text is the unpadded base64 of 16 bytes: 22 characters of the
/// alphabet, the last of which carries two bits and so is one of `A`, `Q`,
/// `g` and `w`. Such a salt is one that the hasher can use.
pub open spec fn usable_salt(salt: Seq<char>) -> bool {
    &&& salt.len() == 22
    &&& forall|i: int| 0 <= i < 22 ==> is_b64_char(#[trigger] salt[i])
    &&& (salt[21] == 'A' || salt[21] == 'Q' || salt[21] == 'g' || salt[21] == 'w')
}

/// Whether a password is short enough for the hasher: at most `u32::MAX`
/// bytes.
pub open spec fn hashable(password: Seq<u8>) -> bool {
    password.len() <= 0xffff_ffff
}

/// Whether a result is the one that hashing a password with a given salt
/// owes: the record that Argon2id names, which accepts the password; or a
/// hashing error where it names none.
pub open spec fn hashed_with(
    password: Seq<u8>,
    salt: Seq<char>,
    result: Result<String, CustomError>,
) -> bool {
    match argon2id_record(password, salt) {
        Some(record) => result matches Ok(text) && text@ == record && argon2_accepts(
            password,
            record,
        ),
        None => result matches Err(CustomError::HashingError),
    }
}

/// What checking a candidate password against a stored record found.
#[derive(Clone, Copy, Debug, PartialEq, Eq, Structural)]
pub enum RecordCheck {
    /// The record parses and the password re-derives its digest.
    Accepted,
    /// The record parses but the password does not re-derive its digest.
    Mismatch,
    /// The record is not a PHC string.
    Malformed,
}

/// `SaltString::generate` of the `password-hash` crate on the operating
/// system's generator, as text. Every call may return a different salt; the
/// contract claims only its shape: the unpadded base64 of 16 bytes.
#[verifier::external_body]
fn fresh_salt() -> (salt: String)
    ensures
        usable_salt(salt@),
{
    let salt = argon2::password_hash::SaltString::generate(
        &mut argon2::password_hash::rand_core::OsRng,
    );
    salt.as_str().to_owned()
}

/// `Argon2::hash_password` of the `argon2` crate, configured for Argon2id,
/// version 0x13 and the default parameters, with the record rendered as
/// text. The contract claims: the call succeeds exactly when
/// `argon2id_record` names a record, and then returns it; the password is
/// accepted by the record that was made from it; the call succeeds for a
/// salt that is the unpadded base64 of 16 bytes and a password of at most
/// `u32::MAX` bytes; and it fails for a longer password.
#[verifier::external_body]
fn argon2_hash(password: &str, salt: &str) -> (result: Result<
    String,
    argon2::password_hash::Error,
>)
    ensures
        result matches Ok(record) ==> argon2id_record(encode_utf8(password@), salt@) == Some(
            record@,
        ),
        result is Err ==> argon2id_record(encode_utf8(password@), salt@) is None,
        result matches Ok(record) ==> argon2_accepts(encode_utf8(password@), record@),
        usable_salt(salt@) && hashable(encode_utf8(password@)) ==> result is Ok,
        !hashable(encode_utf8(password@)) ==> result is Err,
{
    let salt = argon2::password_hash::SaltString::from_b64(salt)?;
    let hasher = argon2::Argon2::new(
        argon2::Algorithm::Argon2id,
        argon2::Version::V0x13,
        argon2::Params::default(),
    );
    Ok(hasher.hash_password(password.as_bytes(), &salt)?.to_string())
}

/// `PasswordHash::new` of the `password-hash` crate followed by
/// `Argon2::verify_password` of the `argon2` crate on the parsed record. The
/// contract claims: the outcome is `Malformed` exactly when the record does
/// not parse, and `Accepted` exactly when the password re-derives the
/// record's digest.
#[verifier::external_body]
fn argon2_verify(password: &str, record: &str) -> (outcome: RecordCheck)
    ensures
        outcome is Malformed <==> !phc_well_formed(record@),
        outcome is Accepted <==> argon2_accepts(encode_utf8(password@), record@),
{
    match argon2::password_hash::PasswordHash::new(record) {
        Err(_) => RecordCheck::Malformed,
        Ok(parsed) => match argon2::Argon2::default().verify_password(
            password.as_bytes(),
            &parsed,
        ) {
            Ok(_) => RecordCheck::Accepted,
            Err(_) => RecordCheck::Mismatch,
        },
    }
}

/// Hashes a password with a given salt. A salt that is the unpadded base64
/// of 16 bytes and a password of at most `u32::MAX` bytes always give a
/// record.
pub fn hash_with_salt(unhashed: &str, salt: &str) -> (result: Result<String, CustomError>)
    ensures
        hashed_with(encode_utf8(unhashed@), salt@, result),
        usable_salt(salt@) && hashable(encode_utf8(unhashed@)) ==> result is Ok,
        !hashable(encode_utf8(unhashed@)) ==> result matches Err(CustomError::HashingError),
{
    match argon2_hash(unhashed, salt) {
        Ok(record) => Ok(record),
        Err(_) => Err(CustomError::HashingError),
    }
}

/// Hashes a password with a salt drawn afresh for this call. Whatever salt
/// is drawn, the result is the one owed under some usable salt: a password
/// of at most `u32::MAX` bytes gets a record, which accepts it, and a
/// longer one is a hashing error.
pub fn hash_random_salt(unhashed: &str) -> (result: Result<String, CustomError>)
    ensures
        exists|salt: Seq<char>|
            usable_salt(salt) && #[trigger] hashed_with(encode_utf8(unhashed@), salt, result),
        hashable(encode_utf8(unhashed@)) ==> result is Ok,
        !hashable(encode_utf8(unhashed@)) ==> result matches Err(CustomError::HashingError),
        result matches Ok(record) ==> argon2_accepts(encode_utf8(unhashed@), record@),
        result matches Err(error) ==> error == CustomError::HashingError,
{
    let salt = fresh_salt();
    let result = hash_with_salt(unhashed, salt.as_str());
    assert(usable_salt(salt@) && hashed_with(encode_utf8(unhashed@), salt@, result));
    result
}

/// What a check of a record means to a caller: acceptance, or one uniform
/// refusal that does not tell a malformed record from a wrong password.
pub fn verdict(outcome: RecordCheck) -> (result: Result<(), CustomError>)
    ensures
        outcome is Accepted ==> result is Ok,
        !(outcome is Accepted) ==> result matches Err(CustomError::InvalidPassword),
{
    match outcome {
        RecordCheck::Accepted => Ok(()),
        RecordCheck::Mismatch => Err(CustomError::InvalidPassword),
        RecordCheck::Malformed => Err(CustomError::InvalidPassword),
    }
}

/// Checks a candidate password against a stored record. Succeeds exactly
/// when the record accepts the password; a record that does not parse and a
/// password that does not match are refused alike.
pub fn verify_password(unhashed: &str, password_hash: &str) -> (result: Result<(), CustomError>)
    ensures
        argon2_accepts(encode_utf8(unhashed@), password_hash@) ==> result is Ok,
        !argon2_accepts(encode_utf8(unhashed@), password_hash@) ==> result matches Err(
            CustomError::InvalidPassword,
        ),
{
    verdict(argon2_verify(unhashed, password_hash))
}

} // verus!
