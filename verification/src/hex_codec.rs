//! Bytes as hexadecimal text, by the `hex` crate.
//!
//! Code is handed to the harness as hexadecimal text, input for a traced
//! program arrives as such, and the first bytes behind a pointer are shown so.

use crate::text::{decimal_text, digit_char};
use hex::FromHexError;
use vstd::prelude::*;
use vstd::string::*;

verus! {

/// `bytes` in hexadecimal: two lower-case digits for each byte, the high half
/// first.
pub open spec fn hex_text(bytes: Seq<u8>) -> Seq<char> {
    Seq::new(
        2 * bytes.len(),
        |k: int|
            if k % 2 == 0 {
                digit_char((bytes[k / 2] / 16) as nat)
            } else {
                digit_char((bytes[k / 2] % 16) as nat)
            },
    )
}

/// The value of the hexadecimal digit `c`, in either case; `None` where `c`
/// is no such digit.
pub open spec fn hex_value(c: u8) -> Option<u8> {
    if 48 <= c <= 57 {
        Some((c - 48) as u8)
    } else if 97 <= c <= 102 {
        Some((c - 87) as u8)
    } else if 65 <= c <= 70 {
        Some((c - 55) as u8)
    } else {
        None
    }
}

/// Whether `text` is hexadecimal: an even number of hexadecimal digits.
pub open spec fn is_hex(text: Seq<u8>) -> bool {
    &&& text.len() % 2 == 0
    &&& forall|i: int| 0 <= i < text.len() ==> hex_value(text[i]) is Some
}

/// The bytes that the hexadecimal `text` writes.
pub open spec fn hex_bytes(text: Seq<u8>) -> Seq<u8> {
    Seq::new(
        text.len() / 2,
        |i: int| (hex_value(text[2 * i]).unwrap() * 16 + hex_value(text[2 * i + 1]).unwrap()) as u8,
    )
}

/// Why text is not hexadecimal.
#[derive(Clone, Copy, Debug, PartialEq, Eq, Structural)]
pub enum HexError {
    /// The text has an odd number of characters.
    OddLength,
    /// The character `c` at `index` is no hexadecimal digit.
    InvalidHexCharacter { c: char, index: usize },
    /// The text does not have the length that was asked for.
    InvalidStringLength,
}

/// What decoding `text` gives: its bytes, or the reason why it has none. An
/// odd length is reported before anything else, then the first character
/// that is no digit.
pub open spec fn decoded_hex(text: Seq<u8>, result: Result<Seq<u8>, HexError>) -> bool {
    match result {
        Ok(bytes) => is_hex(text) && bytes == hex_bytes(text),
        Err(HexError::OddLength) => text.len() % 2 == 1,
        Err(HexError::InvalidHexCharacter { c, index }) => {
            &&& text.len() % 2 == 0
            &&& index < text.len()
            &&& hex_value(text[index as int]) is None
            &&& c == text[index as int] as char
            &&& forall|i: int| 0 <= i < index ==> hex_value(text[i]) is Some
        },
        Err(HexError::InvalidStringLength) => false,
    }
}

/// What the `{:?}` format of std writes for the character `c`: the character
/// between single quotes, escaped where it does not print.
pub uninterp spec fn char_debug_text(c: char) -> Seq<char>;

/// What is said of text that is not hexadecimal, in the words of the `hex`
/// crate.
pub open spec fn hex_error_text(error: HexError) -> Seq<char> {
    match error {
        HexError::OddLength => "Odd number of digits"@,
        HexError::InvalidHexCharacter { c, index } => "Invalid character "@ + char_debug_text(c)
            + " at position "@ + decimal_text(index as nat),
        HexError::InvalidStringLength => "Invalid string length"@,
    }
}

/// The `Display` of `hex::FromHexError`: a fixed sentence for an odd length
/// and for a wrong length; for a character that is no digit, the character as
/// `{:?}` writes it and its position in decimal. Not proved.
#[verifier::external_body]
pub(crate) fn hex_error_string(error: HexError) -> (text: String)
    ensures
        text@ == match error {
            HexError::OddLength => "Odd number of digits"@,
            HexError::InvalidHexCharacter { c, index } => "Invalid character "@ + char_debug_text(
                c,
            ) + " at position "@ + decimal_text(index as nat),
            HexError::InvalidStringLength => "Invalid string length"@,
        },
{
    match error {
        HexError::OddLength => FromHexError::OddLength,
        HexError::InvalidHexCharacter { c, index } => FromHexError::InvalidHexCharacter {
            c,
            index,
        },
        HexError::InvalidStringLength => FromHexError::InvalidStringLength,
    }.to_string()
}

impl HexError {
    /// What is wrong with the text, in words.
    pub fn message(&self) -> (text: String)
        ensures
            text@ == hex_error_text(*self),
    {
        hex_error_string(*self)
    }
}

/// `hex::encode`: two lower-case hexadecimal digits for each byte. Not
/// proved.
#[verifier::external_body]
pub(crate) fn hex_encode(bytes: &[u8]) -> (text: String)
    ensures
        text@ == hex_text(bytes@),
{
    hex::encode(bytes)
}

/// `hex::decode`: the bytes that the text writes, in digits of either case.
/// An odd length is refused first, then the first character that is no
/// digit; the third kind of error is never returned by this function. Not
/// proved.
#[verifier::external_body]
pub(crate) fn hex_decode(text: &[u8]) -> (result: Result<Vec<u8>, HexError>)
    ensures
        decoded_hex(
            text@,
            match result {
                Ok(bytes) => Ok(bytes@),
                Err(e) => Err(e),
            },
        ),
{
    match hex::decode(text) {
        Ok(bytes) => Ok(bytes),
        Err(FromHexError::OddLength) => Err(HexError::OddLength),
        Err(FromHexError::InvalidHexCharacter { c, index }) => Err(
            HexError::InvalidHexCharacter { c, index },
        ),
        Err(FromHexError::InvalidStringLength) => Err(HexError::InvalidStringLength),
    }
}

/// The argument that hands `code` to the harness: the code in hexadecimal.
pub fn harness_argument(code: &[u8]) -> (argument: String)
    ensures
        argument@ == hex_text(code@),
{
    hex_encode(code)
}

/// The bytes that hexadecimal text writes, or why the text is refused.
pub fn bytes_from_hex(text: &str) -> (result: Result<Vec<u8>, HexError>)
    ensures
        decoded_hex(
            text.spec_bytes(),
            match result {
                Ok(bytes) => Ok(bytes@),
                Err(e) => Err(e),
            },
        ),
        result is Ok <==> is_hex(text.spec_bytes()),
{
    let result = hex_decode(text.as_bytes());
    proof {
        let data = text.spec_bytes();
        match result {
            Ok(_) => {},
            Err(HexError::OddLength) => {},
            Err(HexError::InvalidHexCharacter { c, index }) => {
                assert(hex_value(data[index as int]) is None);
            },
            Err(HexError::InvalidStringLength) => {},
        }
    }
    result
}

/// The input for a traced program: none where none was given, else the bytes
/// that the given hexadecimal text writes.
pub fn decode_stdin(stdin: Option<&str>) -> (result: Result<Option<Vec<u8>>, HexError>)
    ensures
        match stdin {
            None => result == Ok::<Option<Vec<u8>>, HexError>(None),
            Some(text) => match result {
                Ok(input) => input matches Some(bytes) && decoded_hex(
                    text.spec_bytes(),
                    Ok(bytes@),
                ),
                Err(e) => decoded_hex(text.spec_bytes(), Err(e)),
            },
        },
        result is Ok <==> (stdin matches Some(text) ==> is_hex(text.spec_bytes())),
{
    match stdin {
        None => Ok(None),
        Some(text) => match bytes_from_hex(text) {
            Ok(bytes) => Ok(Some(bytes)),
            Err(e) => Err(e),
        },
    }
}

} // verus!
