//! Text encodings that the decoders borrow from outside: Base58, hexadecimal
//! and lossy UTF-8. Nothing in this file is proved; each contract restates
//! what the called function is documented to do.

use vstd::prelude::*;
use vstd::utf8::{decode_utf8, valid_utf8};

verus! {

/// The error of `bs58::decode`, carried through unopened.
#[verifier::external_type_specification]
#[verifier::external_body]
pub struct ExBase58DecodeError(bs58::decode::Error);

/// The Base58 text of a byte string in the default (Bitcoin) alphabet.
pub uninterp spec fn base58_text(bytes: Seq<u8>) -> Seq<char>;

/// The bytes that a Base58 text in the default alphabet stands for, if it is
/// well formed.
pub uninterp spec fn base58_bytes(text: Seq<char>) -> Option<Seq<u8>>;

/// What lossy UTF-8 decoding makes of a byte string that is not valid UTF-8:
/// its characters, with every invalid sequence replaced by U+FFFD.
pub uninterp spec fn utf8_repaired_text(bytes: Seq<u8>) -> Seq<char>;

/// What lossy UTF-8 decoding makes of a byte string: the characters that it
/// encodes when it is valid UTF-8, and else its repaired text.
pub open spec fn utf8_lossy_text(bytes: Seq<u8>) -> Seq<char> {
    if valid_utf8(bytes) {
        decode_utf8(bytes)
    } else {
        utf8_repaired_text(bytes)
    }
}

/// The lower-case hexadecimal digit of a value below sixteen.
pub open spec fn hex_digit(nibble: int) -> char {
    if nibble == 0 {
        '0'
    } else if nibble == 1 {
        '1'
    } else if nibble == 2 {
        '2'
    } else if nibble == 3 {
        '3'
    } else if nibble == 4 {
        '4'
    } else if nibble == 5 {
        '5'
    } else if nibble == 6 {
        '6'
    } else if nibble == 7 {
        '7'
    } else if nibble == 8 {
        '8'
    } else if nibble == 9 {
        '9'
    } else if nibble == 10 {
        'a'
    } else if nibble == 11 {
        'b'
    } else if nibble == 12 {
        'c'
    } else if nibble == 13 {
        'd'
    } else if nibble == 14 {
        'e'
    } else {
        'f'
    }
}

/// Two lower-case hexadecimal digits per byte, high nibble first.
pub open spec fn hex_text(bytes: Seq<u8>) -> Seq<char> {
    Seq::new(
        2 * bytes.len(),
        |i: int|
            if i % 2 == 0 {
                hex_digit(bytes[i / 2] as int / 16)
            } else {
                hex_digit(bytes[i / 2] as int % 16)
            },
    )
}

/// Calls `bs58::encode(..).into_string()`. The result is a function of the
/// bytes alone; the length bound keeps the call away from the sizes at which
/// its output buffer could not be allocated.
#[verifier::external_body]
pub(crate) fn base58_encode(bytes: &[u8]) -> (text: String)
    requires
        bytes@.len() <= 64,
    ensures
        text@ == base58_text(bytes@),
{
    bs58::encode(bytes).into_string()
}

/// Calls `bs58::decode(..).into_vec()`. It succeeds exactly on the texts that
/// stand for some bytes, and then returns those bytes.
#[verifier::external_body]
pub(crate) fn base58_decode(text: &str) -> (r: Result<Vec<u8>, bs58::decode::Error>)
    ensures
        r is Ok <==> base58_bytes(text@) is Some,
        r is Ok ==> r->Ok_0@ == base58_bytes(text@)->0,
{
    bs58::decode(text).into_vec()
}

/// Calls `hex::encode`, which writes each byte as two lower-case digits.
#[verifier::external_body]
pub(crate) fn hex_encode(bytes: &[u8]) -> (text: String)
    ensures
        text@ == hex_text(bytes@),
{
    hex::encode(bytes)
}

/// Calls `String::from_utf8_lossy`, which never fails: valid UTF-8 comes out
/// as the characters it encodes, and anything else with its invalid
/// sequences replaced by U+FFFD, which is a function of the bytes alone.
#[verifier::external_body]
pub(crate) fn utf8_lossy(bytes: &[u8]) -> (text: String)
    ensures
        valid_utf8(bytes@) ==> text@ == decode_utf8(bytes@),
        !valid_utf8(bytes@) ==> text@ == utf8_repaired_text(bytes@),
{
    String::from_utf8_lossy(bytes).into_owned()
}

} // verus!
