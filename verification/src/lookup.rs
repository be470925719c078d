//! Deterministic one-way lookup digests.
//!
//! A field that is stored only in encrypted form is found again through the
//! lowercase hex text of SHA-256 over its case-folded bytes. The digest is
//! unsalted on purpose: equal values must give equal digests.

use sha2::Digest;
use vstd::prelude::*;
use vstd::utf8::{encode_scalar, encode_utf8};

verus! {

/// The SHA-256 digest of a byte string.
pub uninterp spec fn sha256(data: Seq<u8>) -> Seq<u8>;

/// A byte with an ASCII capital letter replaced by its small letter.
pub open spec fn fold_byte(b: u8) -> u8 {
    if 0x41 <= b <= 0x5a {
        (b + 0x20) as u8
    } else {
        b
    }
}

/// A byte string with every ASCII capital letter replaced by its small
/// letter. On UTF-8 text this changes the letters `A` to `Z` and nothing
/// else, since every byte of a longer character is above the ASCII range.
pub open spec fn fold_case(bytes: Seq<u8>) -> Seq<u8> {
    Seq::new(bytes.len(), |i: int| fold_byte(bytes[i]))
}

/// The lowercase hex digit of a value below 16.
pub open spec fn hex_digit(n: u8) -> char {
    if n == 0 {
        '0'
    } else if n == 1 {
        '1'
    } else if n == 2 {
        '2'
    } else if n == 3 {
        '3'
    } else if n == 4 {
        '4'
    } else if n == 5 {
        '5'
    } else if n == 6 {
        '6'
    } else if n == 7 {
        '7'
    } else if n == 8 {
        '8'
    } else if n == 9 {
        '9'
    } else if n == 10 {
        'a'
    } else if n == 11 {
        'b'
    } else if n == 12 {
        'c'
    } else if n == 13 {
        'd'
    } else if n == 14 {
        'e'
    } else {
        'f'
    }
}

/// The lowercase hex text of a byte string: two digits per byte, the high
/// half first.
pub open spec fn hex_text(bytes: Seq<u8>) -> Seq<char> {
    Seq::new(
        2 * bytes.len(),
        |i: int|
            if i % 2 == 0 {
                hex_digit(bytes[i / 2] / 16)
            } else {
                hex_digit(bytes[i / 2] % 16)
            },
    )
}

/// The lookup digest of a value: hex over SHA-256 over the case-folded
/// UTF-8 bytes.
pub open spec fn digest_text(value: Seq<char>) -> Seq<char> {
    hex_text(sha256(fold_case(encode_utf8(value))))
}

/// `Sha256::digest` of the `sha2` crate. The contract claims that the
/// result is the 32-byte digest named by `sha256`.
#[verifier::external_body]
fn sha256_digest(data: &[u8]) -> (digest: [u8; 32])
    ensures
        digest@ == sha256(data@),
{
    sha2::Sha256::digest(data).into()
}

/// Case-folds the UTF-8 bytes of a value.
pub fn normalize(value: &str) -> (folded: Vec<u8>)
    ensures
        folded@ == fold_case(encode_utf8(value@)),
{
    let bytes = value.as_bytes();
    let mut folded: Vec<u8> = Vec::new();
    let mut i: usize = 0;
    while i < bytes.len()
        invariant
            i <= bytes@.len(),
            bytes@ == encode_utf8(value@),
            folded@.len() == i,
            forall|j: int| 0 <= j < i ==> folded@[j] == fold_byte(bytes@[j]),
        decreases bytes@.len() - i,
    {
        let b = bytes[i];
        if 0x41 <= b && b <= 0x5a {
            folded.push(b + 0x20);
        } else {
            folded.push(b);
        }
        i += 1;
    }
    assert(folded@ =~= fold_case(encode_utf8(value@)));
    folded
}

/// The one-character text of a hex digit.
fn hex_digit_text(n: u8) -> (text: &'static str)
    requires
        n < 16,
    ensures
        text@ == seq![hex_digit(n)],
{
    proof {
        reveal_strlit("0");
        reveal_strlit("1");
        reveal_strlit("2");
        reveal_strlit("3");
        reveal_strlit("4");
        reveal_strlit("5");
        reveal_strlit("6");
        reveal_strlit("7");
        reveal_strlit("8");
        reveal_strlit("9");
        reveal_strlit("a");
        reveal_strlit("b");
        reveal_strlit("c");
        reveal_strlit("d");
        reveal_strlit("e");
        reveal_strlit("f");
    }
    let text = if n == 0 {
        "0"
    } else if n == 1 {
        "1"
    } else if n == 2 {
        "2"
    } else if n == 3 {
        "3"
    } else if n == 4 {
        "4"
    } else if n == 5 {
        "5"
    } else if n == 6 {
        "6"
    } else if n == 7 {
        "7"
    } else if n == 8 {
        "8"
    } else if n == 9 {
        "9"
    } else if n == 10 {
        "a"
    } else if n == 11 {
        "b"
    } else if n == 12 {
        "c"
    } else if n == 13 {
        "d"
    } else if n == 14 {
        "e"
    } else {
        "f"
    };
    assert(text@ =~= seq![hex_digit(n)]);
    text
}

/// Renders bytes as lowercase hex.
pub fn hex_encode(bytes: &[u8]) -> (text: String)
    ensures
        text@ == hex_text(bytes@),
{
    let mut text = String::new();
    let mut i: usize = 0;
    while i < bytes.len()
        invariant
            i <= bytes@.len(),
            text@.len() == 2 * i,
            forall|j: int| 0 <= j < 2 * i ==> text@[j] == hex_text(bytes@)[j],
        decreases bytes@.len() - i,
    {
        let b = bytes[i];
        let ghost before = text@;
        text.append(hex_digit_text(b / 16));
        text.append(hex_digit_text(b % 16));
        assert(text@ =~= before.push(hex_digit(b / 16)).push(hex_digit(b % 16)));
        i += 1;
    }
    assert(text@ =~= hex_text(bytes@));
    text
}

/// Computes the lookup digest of a value. The digest depends on the value
/// alone, and values that differ only in the case of ASCII letters share it.
pub fn lookup_digest(value: &str) -> (digest: String)
    ensures
        digest@ == digest_text(value@),
        digest@.len() == 64,
{
    let folded = normalize(value);
    let hash = sha256_digest(folded.as_slice());
    hex_encode(hash.as_slice())
}

/// A character with an ASCII capital letter replaced by its small letter.
pub open spec fn fold_char(c: char) -> char {
    if 0x41 <= c as u32 <= 0x5a {
        ((c as u32 + 0x20) as u32) as char
    } else {
        c
    }
}

/// A text with every ASCII capital letter replaced by its small letter.
pub open spec fn fold_text(text: Seq<char>) -> Seq<char> {
    Seq::new(text.len(), |i: int| fold_char(text[i]))
}

/// Folding the encoding of one character gives the encoding of the folded
/// character.
proof fn lemma_fold_scalar(c: char)
    ensures
        fold_case(encode_scalar(c as u32)) == encode_scalar(fold_char(c) as u32),
{
    let v = c as u32;
    vstd::utf8::char_is_scalar(c);
    assert(v <= 0x7f ==> (v & 0x7f) as u8 == v) by (bit_vector);
    assert(0x41 <= v <= 0x5a ==> ((v + 0x20) as u32 & 0x7f) as u8 == v + 0x20) by (bit_vector);
    assert((0xc0u8 | ((v >> 6) & 0x1f) as u8) >= 0x80) by (bit_vector);
    assert((0xe0u8 | ((v >> 12) & 0x0f) as u8) >= 0x80) by (bit_vector);
    assert((0xf0u8 | ((v >> 18) & 0x7) as u8) >= 0x80) by (bit_vector);
    assert((0x80u8 | (v & 0x3f) as u8) >= 0x80) by (bit_vector);
    assert((0x80u8 | ((v >> 6) & 0x3f) as u8) >= 0x80) by (bit_vector);
    assert((0x80u8 | ((v >> 12) & 0x3f) as u8) >= 0x80) by (bit_vector);
    if 0x41 <= v <= 0x5a {
        let folded = (v + 0x20) as u32;
        assert(fold_char(c) as u32 == folded);
        assert(fold_case(encode_scalar(v)) =~= encode_scalar(folded));
    } else {
        assert(fold_case(encode_scalar(v)) =~= encode_scalar(v));
    }
}

/// Folding a concatenation folds its parts.
proof fn lemma_fold_case_concat(a: Seq<u8>, b: Seq<u8>)
    ensures
        fold_case(a + b) == fold_case(a) + fold_case(b),
{
    assert(fold_case(a + b) =~= fold_case(a) + fold_case(b));
}

/// Case-folding the bytes of a text is the same as lowercasing its ASCII
/// letters: the bytes that come out are the UTF-8 encoding of the text with
/// `A` to `Z` replaced by `a` to `z` and every other character kept.
pub proof fn lemma_fold_case_lowers_ascii_letters(text: Seq<char>)
    ensures
        fold_case(encode_utf8(text)) == encode_utf8(fold_text(text)),
    decreases text.len(),
{
    if text.len() == 0 {
        assert(fold_case(encode_utf8(text)) =~= encode_utf8(fold_text(text)));
    } else {
        lemma_fold_scalar(text[0]);
        lemma_fold_case_lowers_ascii_letters(text.drop_first());
        lemma_fold_case_concat(encode_scalar(text[0] as u32), encode_utf8(text.drop_first()));
        assert(fold_text(text).drop_first() =~= fold_text(text.drop_first()));
    }
}

/// Two values that differ only in the case of ASCII letters have the same
/// lookup digest.
pub proof fn lemma_digest_ignores_ascii_case(a: Seq<char>, b: Seq<char>)
    requires
        fold_text(a) == fold_text(b),
    ensures
        digest_text(a) == digest_text(b),
{
    lemma_fold_case_lowers_ascii_letters(a);
    lemma_fold_case_lowers_ascii_letters(b);
}

/// The lookup digest of a value is that of its lowercased form: normalizing
/// twice changes nothing.
pub proof fn lemma_digest_of_folded_text(value: Seq<char>)
    ensures
        digest_text(fold_text(value)) == digest_text(value),
{
    assert(fold_text(fold_text(value)) =~= fold_text(value)) by {
        assert forall|i: int| 0 <= i < value.len() implies fold_char(fold_char(value[i]))
            == fold_char(value[i]) by {
            let c = value[i];
            if 0x41 <= c as u32 <= 0x5a {
                vstd::utf8::char_is_scalar(c);
                let folded = (c as u32 + 0x20) as u32;
                assert(fold_char(c) as u32 == folded);
            }
        }
    }
    lemma_digest_ignores_ascii_case(fold_text(value), value);
}

} // verus!
