//! Key handling and authenticated encryption of individual fields.
//!
//! A stored field is the base64 text of `nonce ‖ ciphertext ‖ tag`, sealed
//! with ChaCha20-Poly1305 under a 32-byte key and a fresh 12-byte nonce.

use crate::errors::CustomError;
use base64::Engine;
use chacha20poly1305::aead::{Aead, KeyInit};
use rand::RngCore;
use vstd::prelude::*;
use vstd::slice::slice_subrange;
use vstd::utf8::{decode_utf8, encode_utf8, valid_utf8};

verus! {

/// Length in bytes of the symmetric key.
pub const KEY_LEN: usize = 32;

/// Length in bytes of the nonce that precedes every ciphertext.
pub const NONCE_LEN: usize = 12;

/// Length in bytes of the authentication tag that ends every ciphertext.
pub const TAG_LEN: usize = 16;

/// The key that a configured secret stands for: its first 32 bytes, with
/// zero bytes after the end of a shorter secret.
pub open spec fn key_bytes_of(secret: Seq<u8>) -> Seq<u8> {
    Seq::new(
        32,
        |i: int|
            if i < secret.len() {
                secret[i]
            } else {
                0u8
            },
    )
}

/// Coerces a configured secret to a 32-byte key. A secret of exactly 32
/// bytes is used verbatim, a shorter one is zero-filled, a longer one is
/// truncated; none of these fails.
pub fn load_key(secret: &str) -> (key: [u8; 32])
    ensures
        key@ == key_bytes_of(encode_utf8(secret@)),
{
    let bytes = secret.as_bytes();
    let mut key: [u8; 32] = [0u8; 32];
    let mut i: usize = 0;
    while i < 32
        invariant
            i <= 32,
            bytes@ == encode_utf8(secret@),
            forall|j: int|
                0 <= j < i ==> key@[j] == (if j < bytes@.len() {
                    bytes@[j]
                } else {
                    0u8
                }),
            forall|j: int| i <= j < 32 ==> key@[j] == 0u8,
        decreases 32 - i,
    {
        if i < bytes.len() {
            key[i] = bytes[i];
        }
        i += 1;
    }
    assert(key@ =~= key_bytes_of(encode_utf8(secret@)));
    key
}

/// Derives the working key from the configured secret. Fails only when the
/// secret is absent.
pub fn generate_key(secret: Option<&str>) -> (result: Result<[u8; 32], CustomError>)
    ensures
        match secret {
            Some(text) => result matches Ok(key) && key@ == key_bytes_of(encode_utf8(text@)),
            None => result matches Err(CustomError::EnvironmentVariableError(detail))
                && detail@ == "ENCRYPTION_KEY is not set"@,
        },
{
    match secret {
        Some(text) => Ok(load_key(text)),
        None => Err(
            CustomError::EnvironmentVariableError("ENCRYPTION_KEY is not set".to_owned()),
        ),
    }
}

/// The error of the `aead` crate, which deliberately carries no detail.
#[verifier::external_type_specification]
#[verifier::external_body]
pub struct ExAeadError(chacha20poly1305::aead::Error);

/// The error of the `base64` crate's decoder.
#[verifier::external_type_specification]
#[verifier::external_body]
pub struct ExBase64DecodeError(base64::DecodeError);

/// The error of `String::from_utf8`.
#[verifier::external_type_specification]
#[verifier::external_body]
pub struct ExFromUtf8Error(std::string::FromUtf8Error);

/// What ChaCha20-Poly1305 produces for a key, a nonce and a plaintext with
/// no associated data: the ciphertext followed by its 16-byte tag.
pub uninterp spec fn aead_seal(key: Seq<u8>, nonce: Seq<u8>, plaintext: Seq<u8>) -> Seq<u8>;

/// What ChaCha20-Poly1305 recovers from a sealed text under a key and a
/// nonce: the plaintext, or nothing where the tag does not authenticate it.
pub uninterp spec fn aead_open(key: Seq<u8>, nonce: Seq<u8>, sealed: Seq<u8>) -> Option<Seq<u8>>;

/// The padded standard-alphabet base64 text of a byte string.
pub uninterp spec fn base64_text(bytes: Seq<u8>) -> Seq<char>;

/// The bytes that a padded standard-alphabet base64 text decodes to, or
/// nothing where the text is not canonical base64.
pub uninterp spec fn base64_bytes(text: Seq<char>) -> Option<Seq<u8>>;

/// The longest plaintext that the cipher can seal under one nonce: its
/// keystream has `u32::MAX - 1` blocks of 64 bytes after the block that
/// keys the tag, and a part of a block counts as a block.
pub open spec fn max_plaintext_len() -> nat {
    0xffff_fffe * 64
}

/// Whether a plaintext of this length can be sealed into a field: the
/// cipher's keystream must not run out and the encoded field must fit in
/// memory.
pub open spec fn sealable_len(len: nat) -> bool {
    len <= max_plaintext_len() && len <= usize::MAX / 8
}

/// What opening a sealed text gives: nothing where it is longer than the
/// longest plaintext with its tag, and else what the cipher recovers.
pub open spec fn opened(key: Seq<u8>, nonce: Seq<u8>, sealed: Seq<u8>) -> Option<Seq<u8>> {
    if sealed.len() > max_plaintext_len() + 16 {
        None
    } else {
        aead_open(key, nonce, sealed)
    }
}

/// The stored text of a field: base64 over the nonce followed by the
/// sealed plaintext.
pub open spec fn field_text(key: Seq<u8>, nonce: Seq<u8>, plaintext: Seq<u8>) -> Seq<char> {
    base64_text(nonce + aead_seal(key, nonce, plaintext))
}

/// The plaintext that a stored field text yields under a key, or nothing
/// where the text is not base64, is shorter than a nonce, is too long for
/// the cipher, does not authenticate, or does not hold UTF-8.
pub open spec fn opened_field(key: Seq<u8>, text: Seq<char>) -> Option<Seq<char>> {
    match base64_bytes(text) {
        None => None,
        Some(combined) => if combined.len() < 12 {
            None
        } else {
            match opened(
                key,
                combined.subrange(0, 12),
                combined.subrange(12, combined.len() as int),
            ) {
                None => None,
                Some(plain) => if valid_utf8(plain) {
                    Some(decode_utf8(plain))
                } else {
                    None
                },
            }
        },
    }
}

/// Whether a result is the one that encrypting a field under a key and a
/// given nonce owes: the field text, which is base64 of the nonce followed
/// by the sealed plaintext, 16 bytes longer than the plaintext, and which
/// opens to the plaintext; or an encryption error where the plaintext is
/// too long to seal.
pub open spec fn sealed_field(
    key: Seq<u8>,
    nonce: Seq<u8>,
    plaintext: Seq<char>,
    result: Result<String, CustomError>,
) -> bool {
    if sealable_len(encode_utf8(plaintext).len()) {
        &&& result matches Ok(text)
        &&& text@ == field_text(key, nonce, encode_utf8(plaintext))
        &&& base64_bytes(text@) == Some(nonce + aead_seal(key, nonce, encode_utf8(plaintext)))
        &&& aead_seal(key, nonce, encode_utf8(plaintext)).len() == encode_utf8(plaintext).len()
            + 16
        &&& text@.len() == 4 * ((nonce.len() + encode_utf8(plaintext).len() + 16 + 2) / 3)
        &&& opened_field(key, text@) == Some(plaintext)
    } else {
        result matches Err(CustomError::EncryptionError)
    }
}

/// A sealed plaintext together with the nonce it was sealed under.
pub struct EncryptedData {
    /// The ciphertext followed by its authentication tag.
    pub ciphertext: Vec<u8>,
    /// The nonce used for this encryption.
    pub nonce: [u8; 12],
}

impl EncryptedData {
    /// Whether this value is what sealing `plaintext` under `key` and this
    /// value's nonce gives: the ciphertext is the sealed text, 16 bytes
    /// longer than the plaintext, and opening it recovers the plaintext.
    pub open spec fn seals(self, key: Seq<u8>, plaintext: Seq<u8>) -> bool {
        &&& self.ciphertext@ == aead_seal(key, self.nonce@, plaintext)
        &&& self.ciphertext@.len() == plaintext.len() + 16
        &&& opened(key, self.nonce@, self.ciphertext@) == Some(plaintext)
    }
}

/// Draws 12 bytes from the thread-local generator of the `rand` crate
/// (`rand::rng().fill_bytes`). Nothing is claimed of the bytes: every call
/// may return a different nonce.
#[verifier::external_body]
fn fresh_nonce() -> (nonce: [u8; 12]) {
    let mut nonce = [0u8; 12];
    rand::rng().fill_bytes(&mut nonce);
    nonce
}

/// `ChaCha20Poly1305::encrypt` of the `chacha20poly1305` crate, with no
/// associated data. The call panics where the keystream runs out, so the
/// `requires` admits only plaintexts of at most `max_plaintext_len()` bytes
/// whose sealed text can be allocated. The contract claims: on these the
/// call succeeds; the result is the sealed text named by `aead_seal`, 16
/// bytes longer than the plaintext; and `aead_open` under the same key and
/// nonce recovers the plaintext.
#[verifier::external_body]
fn aead_encrypt(key: &[u8; 32], nonce: &[u8; 12], plaintext: &[u8]) -> (result: Result<
    Vec<u8>,
    chacha20poly1305::aead::Error,
>)
    requires
        plaintext@.len() <= max_plaintext_len(),
        plaintext@.len() + 16 <= usize::MAX / 2,
    ensures
        result is Ok,
        result matches Ok(sealed) ==> sealed@ == aead_seal(key@, nonce@, plaintext@),
        result matches Ok(sealed) ==> sealed@.len() == plaintext@.len() + 16,
        result matches Ok(sealed) ==> aead_open(key@, nonce@, sealed@) == Some(plaintext@),
{
    let cipher = chacha20poly1305::ChaCha20Poly1305::new(chacha20poly1305::Key::from_slice(key));
    cipher.encrypt(chacha20poly1305::Nonce::from_slice(nonce), plaintext)
}

/// `ChaCha20Poly1305::decrypt` of the `chacha20poly1305` crate, with no
/// associated data. The call panics where a longer text authenticates and
/// the keystream runs out, so the `requires` admits only sealed texts of at
/// most `max_plaintext_len() + 16` bytes. The contract claims: the call
/// succeeds exactly when `aead_open` names a plaintext, and then returns
/// it; a sealed text shorter than the tag is rejected; a recovered
/// plaintext is 16 bytes shorter than the sealed text; and a sealed text
/// that is accepted is what sealing the recovered plaintext gives, since
/// the tag is recomputed from the ciphertext and the keystream is the same.
#[verifier::external_body]
fn aead_decrypt(key: &[u8; 32], nonce: &[u8; 12], sealed: &[u8]) -> (result: Result<
    Vec<u8>,
    chacha20poly1305::aead::Error,
>)
    requires
        sealed@.len() <= max_plaintext_len() + 16,
    ensures
        result matches Ok(plain) ==> aead_open(key@, nonce@, sealed@) == Some(plain@),
        result is Err ==> aead_open(key@, nonce@, sealed@) is None,
        result matches Ok(plain) ==> plain@.len() + 16 == sealed@.len(),
        result matches Ok(plain) ==> aead_seal(key@, nonce@, plain@) == sealed@,
        sealed@.len() < 16 ==> result is Err,
{
    let cipher = chacha20poly1305::ChaCha20Poly1305::new(chacha20poly1305::Key::from_slice(key));
    cipher.decrypt(chacha20poly1305::Nonce::from_slice(nonce), sealed)
}

/// `Engine::encode` of the `base64` crate on its `STANDARD` engine. The
/// contract claims: the result is the text named by `base64_text`,
/// decoding that text gives the bytes back, and the text has four
/// characters for every three bytes or part of three.
#[verifier::external_body]
fn base64_encode(bytes: &[u8]) -> (text: String)
    requires
        4 * ((bytes@.len() + 2) / 3) <= usize::MAX / 2,
    ensures
        text@ == base64_text(bytes@),
        base64_bytes(text@) == Some(bytes@),
        text@.len() == 4 * ((bytes@.len() + 2) / 3),
{
    base64::engine::general_purpose::STANDARD.encode(bytes)
}

/// `Engine::decode` of the `base64` crate on its `STANDARD` engine. The
/// contract claims: the call succeeds exactly when `base64_bytes` names a
/// byte string, and then returns it.
#[verifier::external_body]
fn base64_decode(text: &str) -> (result: Result<Vec<u8>, base64::DecodeError>)
    ensures
        result matches Ok(bytes) ==> base64_bytes(text@) == Some(bytes@),
        result is Err ==> base64_bytes(text@) is None,
{
    base64::engine::general_purpose::STANDARD.decode(text)
}

/// `String::from_utf8` of std. The contract claims what its documentation
/// says: the call succeeds exactly on valid UTF-8, and the string then holds
/// the characters that the bytes encode.
#[verifier::external_body]
fn string_from_utf8(bytes: Vec<u8>) -> (result: Result<String, std::string::FromUtf8Error>)
    ensures
        result is Ok <==> valid_utf8(bytes@),
        result matches Ok(text) ==> text@ == decode_utf8(bytes@),
{
    String::from_utf8(bytes)
}

/// Tells whether a plaintext of this length is within the cipher's limit.
pub fn fits_cipher(len: usize) -> (fits: bool)
    ensures
        fits == (len <= max_plaintext_len()),
{
    let blocks = len / 64;
    blocks < 0xffff_fffe || (blocks == 0xffff_fffe && len % 64 == 0)
}

/// Seals a plaintext under a key and a given nonce.
pub fn encrypt_under(key: &[u8; 32], nonce: [u8; 12], plaintext: &[u8]) -> (result: Result<
    EncryptedData,
    CustomError,
>)
    ensures
        sealable_len(plaintext@.len()) ==> (result matches Ok(data) && data.nonce == nonce
            && data.seals(key@, plaintext@)),
        !sealable_len(plaintext@.len()) ==> result matches Err(CustomError::EncryptionError),
{
    if !fits_cipher(plaintext.len()) || plaintext.len() > usize::MAX / 8 {
        return Err(CustomError::EncryptionError);
    }
    match aead_encrypt(key, &nonce, plaintext) {
        Ok(ciphertext) => Ok(EncryptedData { ciphertext, nonce }),
        Err(_) => Err(CustomError::EncryptionError),
    }
}

/// Seals a plaintext under a key and a nonce drawn afresh for this call.
/// Whatever nonce is drawn, opening the result under that nonce recovers
/// the plaintext.
pub fn encrypt(key: &[u8; 32], plaintext: &[u8]) -> (result: Result<EncryptedData, CustomError>)
    ensures
        sealable_len(plaintext@.len()) ==> (result matches Ok(data) && data.seals(
            key@,
            plaintext@,
        )),
        !sealable_len(plaintext@.len()) ==> result matches Err(CustomError::EncryptionError),
{
    let nonce = fresh_nonce();
    encrypt_under(key, nonce, plaintext)
}

/// Opens a sealed text under a key and the nonce it was sealed with. Fails
/// when the tag does not authenticate the text: tampering, a wrong key or
/// nonce, or a text shorter than a tag; and when the text is too long for
/// the cipher. A text that is accepted is what
/// sealing the returned plaintext gives, 16 bytes longer than it.
pub fn decrypt(key: &[u8; 32], ciphertext: &[u8], nonce: &[u8; 12]) -> (result: Result<
    Vec<u8>,
    CustomError,
>)
    ensures
        match opened(key@, nonce@, ciphertext@) {
            Some(plain) => result matches Ok(bytes) && bytes@ == plain,
            None => result matches Err(CustomError::DecryptionError),
        },
        result matches Ok(bytes) ==> bytes@.len() + 16 == ciphertext@.len(),
        result matches Ok(bytes) ==> aead_seal(key@, nonce@, bytes@) == ciphertext@,
        ciphertext@.len() < 16 ==> result matches Err(CustomError::DecryptionError),
{
    if ciphertext.len() >= TAG_LEN && !fits_cipher(ciphertext.len() - TAG_LEN) {
        return Err(CustomError::DecryptionError);
    }
    match aead_decrypt(key, nonce, ciphertext) {
        Ok(plain) => Ok(plain),
        Err(_) => Err(CustomError::DecryptionError),
    }
}

/// The round trip of a field. Given that the cipher opens what it sealed
/// and that base64 decodes what it encoded, opening the stored text of a
/// field under the key it was made with gives the plaintext back, for every
/// plaintext.
pub proof fn lemma_field_round_trip(key: Seq<u8>, nonce: Seq<u8>, plaintext: Seq<char>)
    requires
        nonce.len() == 12,
        opened(key, nonce, aead_seal(key, nonce, encode_utf8(plaintext))) == Some(
            encode_utf8(plaintext),
        ),
        base64_bytes(field_text(key, nonce, encode_utf8(plaintext))) == Some(
            nonce + aead_seal(key, nonce, encode_utf8(plaintext)),
        ),
    ensures
        opened_field(key, field_text(key, nonce, encode_utf8(plaintext))) == Some(plaintext),
{
    let sealed = aead_seal(key, nonce, encode_utf8(plaintext));
    let combined = nonce + sealed;
    vstd::utf8::encode_utf8_valid_utf8(plaintext);
    vstd::utf8::encode_utf8_decode_utf8(plaintext);
    assert(combined.subrange(0, 12) =~= nonce);
    assert(combined.subrange(12, combined.len() as int) =~= sealed);
}

/// Copies the first 12 bytes of a combined field into a nonce.
fn nonce_prefix(combined: &Vec<u8>) -> (nonce: [u8; 12])
    requires
        combined@.len() >= 12,
    ensures
        nonce@ == combined@.subrange(0, 12),
{
    let mut nonce: [u8; 12] = [0u8; 12];
    let mut i: usize = 0;
    while i < 12
        invariant
            i <= 12,
            combined@.len() >= 12,
            forall|j: int| 0 <= j < i ==> nonce@[j] == combined@[j],
        decreases 12 - i,
    {
        nonce[i] = combined[i];
        i += 1;
    }
    assert(nonce@ =~= combined@.subrange(0, 12));
    nonce
}

/// Encrypts a field under a key and a given nonce and returns its stored
/// text. Opening the text under the same key recovers the plaintext.
pub fn encrypt_with_nonce(key_bytes: &[u8; 32], nonce: [u8; 12], plaintext: &str) -> (result:
    Result<String, CustomError>)
    ensures
        sealed_field(key_bytes@, nonce@, plaintext@, result),
{
    let plain = plaintext.as_bytes();
    match encrypt_under(key_bytes, nonce, plain) {
        Err(_) => Err(CustomError::EncryptionError),
        Ok(data) => {
            let mut combined: Vec<u8> = Vec::new();
            combined.extend_from_slice(nonce.as_slice());
            combined.extend_from_slice(data.ciphertext.as_slice());
            assert(combined@ =~= nonce@ + data.ciphertext@);
            let text = base64_encode(combined.as_slice());
            proof {
                lemma_field_round_trip(key_bytes@, nonce@, plaintext@);
            }
            Ok(text)
        },
    }
}

/// Encrypts a field under a key and a nonce drawn afresh for this call, and
/// returns its stored text. Whatever nonce is drawn, the result is the one
/// owed under some 12-byte nonce, and opening the text under the same key
/// recovers the plaintext.
pub fn encrypt_with_random_nonce(key_bytes: &[u8; 32], plaintext: &str) -> (result: Result<
    String,
    CustomError,
>)
    ensures
        exists|nonce: Seq<u8>|
            nonce.len() == 12 && #[trigger] sealed_field(key_bytes@, nonce, plaintext@, result),
        sealable_len(encode_utf8(plaintext@).len()) ==> (result matches Ok(text) && opened_field(
            key_bytes@,
            text@,
        ) == Some(plaintext@)),
        !sealable_len(encode_utf8(plaintext@).len()) ==> result matches Err(
            CustomError::EncryptionError,
        ),
{
    let nonce = fresh_nonce();
    let result = encrypt_with_nonce(key_bytes, nonce, plaintext);
    assert(sealed_field(key_bytes@, nonce@, plaintext@, result));
    result
}

/// Whether a text has the layout of the field of a plaintext under a key:
/// it is base64 of a 12-byte nonce followed by what sealing the plaintext
/// under that nonce gives, 16 bytes longer than the plaintext.
pub open spec fn is_field_of(key: Seq<u8>, text: Seq<char>, plaintext: Seq<char>) -> bool {
    base64_bytes(text) matches Some(combined) && combined.len() == 12 + encode_utf8(
        plaintext,
    ).len() + 16 && combined.subrange(12, combined.len() as int) == aead_seal(
        key,
        combined.subrange(0, 12),
        encode_utf8(plaintext),
    )
}

/// Decrypts the stored text of a field. Fails when the text is not base64,
/// is shorter than a nonce, does not authenticate under the key, or does
/// not hold UTF-8; it never returns anything but the sealed plaintext, and
/// a text that it accepts has the layout of a field of that plaintext. A
/// text cut short of a nonce and a tag is always refused.
pub fn decrypt_with_nonce(key_bytes: &[u8; 32], combined_base64: &str) -> (result: Result<
    String,
    CustomError,
>)
    ensures
        match opened_field(key_bytes@, combined_base64@) {
            Some(plain) => result matches Ok(text) && text@ == plain,
            None => result matches Err(CustomError::DecryptionError),
        },
        result matches Ok(text) ==> is_field_of(key_bytes@, combined_base64@, text@),
        (base64_bytes(combined_base64@) matches Some(combined) && combined.len() < 12 + 16)
            ==> result matches Err(CustomError::DecryptionError),
{
    let combined = match base64_decode(combined_base64) {
        Ok(bytes) => bytes,
        Err(_) => { return Err(CustomError::DecryptionError); },
    };
    if combined.len() < NONCE_LEN {
        return Err(CustomError::DecryptionError);
    }
    let nonce = nonce_prefix(&combined);
    let sealed = slice_subrange(combined.as_slice(), NONCE_LEN, combined.len());
    let plain = match decrypt(key_bytes, sealed, &nonce) {
        Ok(bytes) => bytes,
        Err(_) => { return Err(CustomError::DecryptionError); },
    };
    let ghost plain_bytes = plain@;
    match string_from_utf8(plain) {
        Ok(text) => {
            proof {
                vstd::utf8::decode_utf8_encode_utf8(plain_bytes);
            }
            Ok(text)
        },
        Err(_) => Err(CustomError::DecryptionError),
    }
}

/// Fields made under different nonces differ. Two encryptions of one
/// plaintext under one key give different field texts whenever their
/// nonces differ, since each text decodes to bytes that begin with its
/// nonce.
pub proof fn lemma_distinct_nonces_give_distinct_fields(
    key: Seq<u8>,
    first_nonce: Seq<u8>,
    second_nonce: Seq<u8>,
    plaintext: Seq<char>,
    first: Result<String, CustomError>,
    second: Result<String, CustomError>,
)
    requires
        first_nonce.len() == 12,
        second_nonce.len() == 12,
        first_nonce != second_nonce,
        sealed_field(key, first_nonce, plaintext, first),
        sealed_field(key, second_nonce, plaintext, second),
        first is Ok,
    ensures
        first matches Ok(a) && second matches Ok(b) && a@ != b@,
{
    let bytes = encode_utf8(plaintext);
    let a = first->Ok_0;
    let b = second->Ok_0;
    if a@ == b@ {
        let left = first_nonce + aead_seal(key, first_nonce, bytes);
        let right = second_nonce + aead_seal(key, second_nonce, bytes);
        assert(left == right);
        assert(left.subrange(0, 12) =~= first_nonce);
        assert(right.subrange(0, 12) =~= second_nonce);
    }
}

} // verus!
