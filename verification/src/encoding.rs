//! Digest and text encodings that this library takes from elsewhere: SHA-1
//! from `rust-crypto`, hexadecimal from `hex`, Base64 from `base64`, and
//! UTF-8 validation from the standard library.
//!
//! The four functions at the end of this file are not verified. Their
//! contracts are read off the sources and the documentation of what they
//! call, and are believed as written.

use crypto::digest::Digest;
use crypto::sha1::Sha1;
use vstd::prelude::*;
use vstd::utf8::{encode_utf8, valid_utf8};

verus! {

/// The number of message bytes from which the SHA-1 implementation's
/// 64-bit count of message bits overflows.
pub const SHA1_MESSAGE_LIMIT: u64 = 0x2000_0000_0000_0000;

/// The SHA-1 digest of `message`, written as hexadecimal text.
pub uninterp spec fn sha1_hex(message: Seq<u8>) -> Seq<char>;

/// The standard, padded Base64 text of `bytes`.
pub uninterp spec fn base64_text(bytes: Seq<u8>) -> Seq<char>;

/// One of `0`-`9` and `a`-`f`.
pub open spec fn is_lower_hex_char(c: char) -> bool {
    ('0' <= c && c <= '9') || ('a' <= c && c <= 'f')
}

/// The value of a hexadecimal digit given as an ASCII byte, in either
/// case; `None` for any other byte.
pub open spec fn hex_digit_value(digit: u8) -> Option<int> {
    if 0x30 <= digit <= 0x39 {
        Some(digit - 0x30)
    } else if 0x61 <= digit <= 0x66 {
        Some(digit - 0x61 + 10)
    } else if 0x41 <= digit <= 0x46 {
        Some(digit - 0x41 + 10)
    } else {
        None
    }
}

/// Hexadecimal text that stands for whole bytes: an even number of
/// hexadecimal digits.
pub open spec fn is_hex_text(text: Seq<u8>) -> bool {
    &&& text.len() % 2 == 0
    &&& forall|i: int| 0 <= i < text.len() ==> (#[trigger] hex_digit_value(text[i])) is Some
}

/// The bytes that hexadecimal text stands for, two digits to a byte, the
/// high digit first.
pub open spec fn hex_bytes(text: Seq<u8>) -> Seq<u8> {
    Seq::new(
        text.len() / 2,
        |i: int|
            (16 * hex_digit_value(text[2 * i]).unwrap() + hex_digit_value(
                text[2 * i + 1],
            ).unwrap()) as u8,
    )
}

/// One of the 64 characters of the standard Base64 alphabet.
pub open spec fn is_base64_symbol(c: char) -> bool {
    ('A' <= c && c <= 'Z') || ('a' <= c && c <= 'z') || ('0' <= c && c <= '9') || c == '+' || c
        == '/'
}

/// The six bits that a character of the standard Base64 alphabet stands for.
pub open spec fn base64_symbol_value(c: char) -> int {
    if 'A' <= c && c <= 'Z' {
        c as int - 'A' as int
    } else if 'a' <= c && c <= 'z' {
        c as int - 'a' as int + 26
    } else if '0' <= c && c <= '9' {
        c as int - '0' as int + 52
    } else if c == '+' {
        62
    } else {
        63
    }
}

/// The number of `=` that end the Base64 text of `len` bytes.
pub open spec fn base64_padding(len: nat) -> nat {
    ((3 - len % 3) % 3) as nat
}

/// `text` is valid padded Base64 that stands for `len` bytes: whole groups
/// of four characters; symbols of the alphabet, six bits each, then as many
/// `=` as `len` calls for; and in the last symbol, the bits that belong to
/// no byte are zero.
pub open spec fn is_base64_of_len(text: Seq<char>, len: nat) -> bool {
    let symbols = text.len() - base64_padding(len);
    &&& text.len() == 4 * ((len + 2) / 3)
    &&& forall|i: int| 0 <= i < symbols ==> is_base64_symbol(#[trigger] text[i])
    &&& forall|i: int| symbols <= i < text.len() ==> #[trigger] text[i] == '='
    &&& len % 3 == 1 ==> base64_symbol_value(text[symbols - 1]) % 16 == 0
    &&& len % 3 == 2 ==> base64_symbol_value(text[symbols - 1]) % 4 == 0
}

/// `hex::FromHexError`, which is passed on unopened.
#[verifier::external_type_specification]
#[verifier::external_body]
pub struct ExFromHexError(hex::FromHexError);

/// `std::string::FromUtf8Error`, which is passed on unopened.
#[verifier::external_type_specification]
#[verifier::external_body]
pub struct ExFromUtf8Error(std::string::FromUtf8Error);

/// Calls `Sha1::new`, `Digest::input` and `Digest::result_str` of
/// `rust-crypto`.
///
/// Believed: the text depends on the message alone, and is 40 lower-case
/// hexadecimal digits (the 20 digest bytes, two digits each). `input`
/// panics from `SHA1_MESSAGE_LIMIT` bytes on, so those messages are left
/// out.
#[verifier::external_body]
pub(crate) fn sha1_hex_digest(message: &[u8]) -> (digest: String)
    requires
        message@.len() < SHA1_MESSAGE_LIMIT,
    ensures
        digest@ == sha1_hex(message@),
        digest@.len() == 40,
        forall|i: int| 0 <= i < digest@.len() ==> is_lower_hex_char(#[trigger] digest@[i]),
{
    let mut hasher = Sha1::new();
    hasher.input(message);
    hasher.result_str()
}

/// Calls `hex::decode`.
///
/// Believed: it succeeds exactly on an even number of hexadecimal digits,
/// of either case, and then gives one byte for each two digits, the high
/// digit first.
#[verifier::external_body]
pub(crate) fn decode_hex(text: &[u8]) -> (decoded: Result<Vec<u8>, hex::FromHexError>)
    ensures
        decoded is Ok <==> is_hex_text(text@),
        decoded matches Ok(bytes) ==> bytes@ == hex_bytes(text@),
{
    hex::decode(text)
}

/// Calls `base64::encode`.
///
/// Believed: the text depends on the bytes alone and has the form of
/// padded standard Base64 for that many bytes. `encode` panics where the
/// length of the text does not fit in a `usize`, so those inputs are left
/// out.
#[verifier::external_body]
pub(crate) fn encode_base64(bytes: &[u8]) -> (text: String)
    requires
        4 * (bytes@.len() / 3) + 4 <= usize::MAX,
    ensures
        text@ == base64_text(bytes@),
        is_base64_of_len(text@, bytes@.len()),
{
    base64::encode(bytes)
}

/// Calls `String::from_utf8`.
///
/// Believed: it succeeds exactly on valid UTF-8, and the text then
/// consists of the bytes given.
#[verifier::external_body]
pub(crate) fn text_from_utf8(bytes: Vec<u8>) -> (text: Result<String, std::string::FromUtf8Error>)
    ensures
        text is Ok <==> valid_utf8(bytes@),
        text matches Ok(s) ==> encode_utf8(s@) == bytes@,
{
    String::from_utf8(bytes)
}

} // verus!
