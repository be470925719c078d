//! Stateless signed session tokens.
//!
//! A token carries the claims `{sub, exp, iat}`, is signed with HMAC-SHA256
//! under the token-signing secret, and expires a fixed time after it was
//! issued. No server-side record exists and no token can be revoked.

use crate::errors::CustomError;
use vstd::prelude::*;
use vstd::utf8::encode_utf8;

verus! {

/// Seconds for which a token stays valid after it was issued: 24 hours.
pub const TOKEN_LIFETIME_SECS: u64 = 86400;

/// The error of the `jsonwebtoken` crate.
#[verifier::external_type_specification]
#[verifier::external_body]
pub struct ExJwtError(jsonwebtoken::errors::Error);

/// The compact HS256 token that signing the claims `(sub, exp, iat)` under a
/// secret gives.
pub uninterp spec fn jwt_token(secret: Seq<u8>, sub: Seq<char>, exp: int, iat: int) -> Seq<char>;

/// The claims `(sub, exp, iat)` that decoding a token under a secret gives:
/// the token is a well-formed HS256 token, its signature verifies under the
/// secret, and its payload holds a text `sub` and whole numbers `exp` and
/// `iat`. Nothing otherwise. Expiry plays no part in it.
pub uninterp spec fn jwt_claims(secret: Seq<u8>, token: Seq<char>) -> Option<
    (Seq<char>, int, int),
>;

/// The claims carried by a session token.
#[derive(Debug, PartialEq, Eq)]
pub struct Claims {
    /// The subject of the token: the identifier of the authenticated identity.
    pub sub: String,
    /// Seconds since the Unix epoch after which the token is no longer valid.
    exp: u64,
    /// Seconds since the Unix epoch at which the token was issued.
    iat: u64,
}

/// The mathematical content of a [`Claims`] value.
pub struct ClaimsView {
    pub sub: Seq<char>,
    pub exp: int,
    pub iat: int,
}

impl View for Claims {
    type V = ClaimsView;

    closed spec fn view(&self) -> ClaimsView {
        ClaimsView { sub: self.sub@, exp: self.exp as int, iat: self.iat as int }
    }
}

impl Claims {
    /// The subject of the token.
    pub fn subject(&self) -> (subject: &str)
        ensures
            subject@ == self@.sub,
    {
        self.sub.as_str()
    }

    /// The time after which the token is no longer valid.
    pub fn expires_at(&self) -> (exp: u64)
        ensures
            exp == self@.exp,
    {
        self.exp
    }

    /// The time at which the token was issued.
    pub fn issued_at(&self) -> (iat: u64)
        ensures
            iat == self@.iat,
    {
        self.iat
    }
}

/// The claims that a token yields at a given time: those it carries, where
/// its signature verifies and the time is not past its expiry.
pub open spec fn validated(secret: Seq<u8>, token: Seq<char>, now: int) -> Option<ClaimsView> {
    match jwt_claims(secret, token) {
        Some((sub, exp, iat)) => if now <= exp {
            Some(ClaimsView { sub, exp, iat })
        } else {
            None
        },
        None => None,
    }
}

/// Whether a result is the one that issuing a token for a subject at a
/// given time owes: the token that signing names, carrying the subject,
/// issued then and expiring [`TOKEN_LIFETIME_SECS`] later; or an error where
/// the expiry does not fit in 64 bits.
pub open spec fn issued_at(
    secret: Seq<u8>,
    subject: Seq<char>,
    now: int,
    result: Result<String, CustomError>,
) -> bool {
    if now + TOKEN_LIFETIME_SECS <= u64::MAX {
        &&& result matches Ok(text)
        &&& text@ == jwt_token(secret, subject, now + TOKEN_LIFETIME_SECS, now)
        &&& jwt_claims(secret, text@) == Some((subject, now + TOKEN_LIFETIME_SECS, now))
    } else {
        result matches Err(CustomError::Unknown)
    }
}

/// Whether a result is the one that validating a token at a given time
/// owes: its claims where the signature verifies and the time is not past
/// the expiry, an invalid-token error otherwise.
pub open spec fn validated_at(
    secret: Seq<u8>,
    token: Seq<char>,
    now: int,
    result: Result<Claims, CustomError>,
) -> bool {
    match validated(secret, token, now) {
        Some(claims) => result matches Ok(found) && found@ == claims,
        None => result matches Err(CustomError::TokenInvalid),
    }
}

/// Whether a result is the one that extracting the subject of a token at a
/// given time owes: the subject where the token validates, an invalid-token
/// error otherwise.
pub open spec fn extracted_at(
    secret: Seq<u8>,
    token: Seq<char>,
    now: int,
    result: Result<String, CustomError>,
) -> bool {
    match validated(secret, token, now) {
        Some(claims) => result matches Ok(subject) && subject@ == claims.sub,
        None => result matches Err(CustomError::TokenInvalid),
    }
}

/// `Utc::now().timestamp()` of the `chrono` crate: the seconds since the
/// Unix epoch on the system clock. The contract claims only that the value
/// is not negative, since the clock is read as a duration since the epoch;
/// every call may return a different value.
#[verifier::external_body]
fn unix_now() -> (now: i64)
    ensures
        now >= 0,
{
    chrono::Utc::now().timestamp()
}

/// `jsonwebtoken::encode` with the default header (HS256), an HMAC key made
/// from the secret, and the three claims as a JSON object. The contract
/// claims: the call succeeds, since an HMAC key of any length is accepted
/// and neither the JSON object nor the signature can fail; the result is
/// the token that `jwt_token` names; and decoding that token under the same
/// secret gives the claims back.
#[verifier::external_body]
fn jwt_sign(secret: &str, sub: &str, exp: u64, iat: u64) -> (result: Result<
    String,
    jsonwebtoken::errors::Error,
>)
    ensures
        result is Ok,
        result matches Ok(token) ==> token@ == jwt_token(
            encode_utf8(secret@),
            sub@,
            exp as int,
            iat as int,
        ),
        result matches Ok(token) ==> jwt_claims(encode_utf8(secret@), token@) == Some(
            (sub@, exp as int, iat as int),
        ),
{
    let mut claims = serde_json::Map::new();
    claims.insert("sub".to_owned(), serde_json::Value::from(sub));
    claims.insert("exp".to_owned(), serde_json::Value::from(exp));
    claims.insert("iat".to_owned(), serde_json::Value::from(iat));
    let key = jsonwebtoken::EncodingKey::from_secret(secret.as_bytes());
    jsonwebtoken::encode(&jsonwebtoken::Header::default(), &claims, &key)
}

/// `jsonwebtoken::decode` with an HMAC key made from the secret and the
/// default validation (HS256 only) with the expiry check switched off, so
/// that the clock is not read; the three claims are then taken out of the
/// JSON object. The contract claims: the call gives claims exactly when
/// `jwt_claims` names them, and then returns those.
#[verifier::external_body]
fn jwt_decode(secret: &str, token: &str) -> (result: Option<Claims>)
    ensures
        result matches Some(claims) ==> jwt_claims(encode_utf8(secret@), token@) == Some(
            (claims@.sub, claims@.exp, claims@.iat),
        ),
        result is None ==> jwt_claims(encode_utf8(secret@), token@) is None,
{
    let mut validation = jsonwebtoken::Validation::default();
    validation.validate_exp = false;
    let key = jsonwebtoken::DecodingKey::from_secret(secret.as_bytes());
    let data = jsonwebtoken::decode::<serde_json::Value>(token, &key, &validation).ok()?;
    Some(
        Claims {
            sub: data.claims.get("sub")?.as_str()?.to_owned(),
            exp: data.claims.get("exp")?.as_u64()?,
            iat: data.claims.get("iat")?.as_u64()?,
        },
    )
}

/// The lifecycle of a token. A token that carries a subject, was issued at
/// some time and expires [`TOKEN_LIFETIME_SECS`] later validates to that
/// subject at the moment of issuance and at every time up to its expiry,
/// and is refused at every time after it.
pub proof fn lemma_token_lifecycle(
    secret: Seq<u8>,
    token: Seq<char>,
    subject: Seq<char>,
    issued: int,
    now: int,
)
    requires
        jwt_claims(secret, token) == Some((subject, issued + TOKEN_LIFETIME_SECS, issued)),
    ensures
        validated(secret, token, issued) matches Some(claims) && claims.sub == subject,
        now <= issued + TOKEN_LIFETIME_SECS ==> validated(secret, token, now) == Some(
            ClaimsView { sub: subject, exp: issued + TOKEN_LIFETIME_SECS, iat: issued },
        ),
        now > issued + TOKEN_LIFETIME_SECS ==> validated(secret, token, now) is None,
{
}

/// Reads the clock as seconds since the Unix epoch. Every reading that fits
/// a signed 64-bit count is possible, so no more than that bound is
/// promised; what follows from a reading is stated by the functions that
/// take the time as an argument.
pub fn current_time() -> (now: u64)
    ensures
        now <= i64::MAX,
{
    unix_now() as u64
}

/// Issues a token for a subject at a given time: issued then, expiring
/// [`TOKEN_LIFETIME_SECS`] later. A token is issued whenever the expiry
/// fits in 64 bits, and it carries exactly these claims under the secret.
pub fn generate_jwt_at(user_id: String, secret: &str, now: u64) -> (result: Result<
    String,
    CustomError,
>)
    ensures
        issued_at(encode_utf8(secret@), user_id@, now as int, result),
{
    if now > u64::MAX - TOKEN_LIFETIME_SECS {
        return Err(CustomError::Unknown);
    }
    let expiration = now + TOKEN_LIFETIME_SECS;
    match jwt_sign(secret, user_id.as_str(), expiration, now) {
        Ok(token) => Ok(token),
        Err(_) => Err(CustomError::Unknown),
    }
}

/// Issues a token for a subject at the present time. Whatever the clock
/// reads, the result is the one owed at some time that fits a signed 64-bit
/// count, so the expiry always fits and a token is always issued.
pub fn generate_jwt(user_id: String, secret: &str) -> (result: Result<String, CustomError>)
    ensures
        exists|now: int|
            0 <= now <= i64::MAX && #[trigger] issued_at(
                encode_utf8(secret@),
                user_id@,
                now,
                result,
            ),
        result is Ok,
{
    let now = current_time();
    let result = generate_jwt_at(user_id, secret, now);
    assert(issued_at(encode_utf8(secret@), user_id@, now as int, result));
    result
}

/// Applies the expiry rule to what decoding a token gave: claims pass
/// while the time is not past their expiry; anything else is refused as an
/// invalid token.
pub fn check_expiry(decoded: Option<Claims>, now: u64) -> (result: Result<Claims, CustomError>)
    ensures
        match decoded {
            Some(claims) => if now <= claims@.exp {
                result == Ok::<Claims, CustomError>(claims)
            } else {
                result matches Err(CustomError::TokenInvalid)
            },
            None => result matches Err(CustomError::TokenInvalid),
        },
{
    match decoded {
        Some(claims) => {
            if now <= claims.exp {
                Ok(claims)
            } else {
                Err(CustomError::TokenInvalid)
            }
        },
        None => Err(CustomError::TokenInvalid),
    }
}

/// Validates a token at a given time: the signature first, then the
/// expiry. Returns the claims only when both checks pass.
pub fn validate_jwt_at(token: &str, secret: &str, now: u64) -> (result: Result<
    Claims,
    CustomError,
>)
    ensures
        validated_at(encode_utf8(secret@), token@, now as int, result),
{
    check_expiry(jwt_decode(secret, token), now)
}

/// Validates a token at the present time. Whatever the clock reads, the
/// result is the one owed at some time that fits a signed 64-bit count.
pub fn validate_jwt(token: &str, secret: &str) -> (result: Result<Claims, CustomError>)
    ensures
        exists|now: int|
            0 <= now <= i64::MAX && #[trigger] validated_at(
                encode_utf8(secret@),
                token@,
                now,
                result,
            ),
{
    let now = current_time();
    let result = validate_jwt_at(token, secret, now);
    assert(validated_at(encode_utf8(secret@), token@, now as int, result));
    result
}

/// Extracts the subject from a token, validated at a given time.
pub fn extract_user_id_from_jwt_at(token: &str, secret: &str, now: u64) -> (result: Result<
    String,
    CustomError,
>)
    ensures
        extracted_at(encode_utf8(secret@), token@, now as int, result),
{
    match validate_jwt_at(token, secret, now) {
        Ok(claims) => Ok(claims.sub),
        Err(_) => Err(CustomError::TokenInvalid),
    }
}

/// Extracts the subject from a token, validated at the present time.
/// Whatever the clock reads, the result is the one owed at some time that
/// fits a signed 64-bit count.
pub fn extract_user_id_from_jwt(token: &str, secret: &str) -> (result: Result<
    String,
    CustomError,
>)
    ensures
        exists|now: int|
            0 <= now <= i64::MAX && #[trigger] extracted_at(
                encode_utf8(secret@),
                token@,
                now,
                result,
            ),
{
    let now = current_time();
    let result = extract_user_id_from_jwt_at(token, secret, now);
    assert(extracted_at(encode_utf8(secret@), token@, now as int, result));
    result
}

} // verus!
