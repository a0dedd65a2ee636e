//! Hexadecimal text, as the daemon writes binary data and reads it.

use vstd::prelude::*;
use vstd::utf8::{encode_utf8, is_ascii_chars, is_ascii_chars_encode_utf8};

verus! {

/// Why a text is not the hexadecimal form of any bytes.
#[derive(Debug, Clone, Copy, PartialEq)]
pub enum HexError {
    /// At `index` stands `c`, which is no hexadecimal digit.
    InvalidHexCharacter { c: char, index: usize },
    /// An odd number of digits: two of them make a byte.
    OddLength,
    /// The digits do not fill a container of fixed size.
    InvalidStringLength,
}

/// The lower-case hexadecimal digit for `n`, where `n < 16`.
pub open spec fn hex_digit(n: u8) -> char {
    if n < 10 {
        ((48 + n) as u8) as char
    } else {
        ((87 + n) as u8) as char
    }
}

/// The hexadecimal form of `data`: two lower-case digits for each byte, the
/// high half first.
pub open spec fn hex_encoding(data: Seq<u8>) -> Seq<char> {
    Seq::new(
        2 * data.len(),
        |i: int|
            if i % 2 == 0 {
                hex_digit(data[i / 2] / 16)
            } else {
                hex_digit(data[i / 2] % 16)
            },
    )
}

/// What the digit `b` stands for, in either case; `None` for any other byte.
pub open spec fn digit_value(b: u8) -> Option<u8> {
    if 48 <= b <= 57 {
        Some((b - 48) as u8)
    } else if 97 <= b <= 102 {
        Some((b - 87) as u8)
    } else if 65 <= b <= 70 {
        Some((b - 55) as u8)
    } else {
        None
    }
}

/// How many hexadecimal digits `text` starts with.
pub open spec fn leading_digits(text: Seq<u8>) -> nat
    decreases text.len(),
{
    if text.len() > 0 && digit_value(text[0]) is Some {
        1 + leading_digits(text.drop_first())
    } else {
        0
    }
}

/// The bytes that the digits of `text` spell, two digits to a byte.
pub open spec fn digits_bytes(text: Seq<u8>) -> Seq<u8> {
    Seq::new(
        text.len() / 2,
        |i: int| (16 * digit_value(text[2 * i]).unwrap() + digit_value(text[2 * i + 1]).unwrap()) as u8,
    )
}

/// The bytes that `text` is the hexadecimal form of, or the first thing
/// wrong with it: an odd length before any digit is looked at, else the first
/// byte that is no digit.
pub open spec fn hex_decoding(text: Seq<u8>) -> Result<Seq<u8>, HexError> {
    if text.len() % 2 != 0 {
        Err(HexError::OddLength)
    } else if leading_digits(text) < text.len() {
        Err(
            HexError::InvalidHexCharacter {
                c: text[leading_digits(text) as int] as char,
                index: leading_digits(text) as usize,
            },
        )
    } else {
        Ok(digits_bytes(text))
    }
}

/// A text that is all digits is counted to its end.
pub proof fn lemma_all_digits(text: Seq<u8>)
    requires
        forall|i: int| 0 <= i < text.len() ==> digit_value(#[trigger] text[i]) is Some,
    ensures
        leading_digits(text) == text.len(),
    decreases text.len(),
{
    if text.len() > 0 {
        let rest = text.drop_first();
        assert forall|i: int| 0 <= i < rest.len() implies digit_value(#[trigger] rest[i]) is Some by {
            assert(rest[i] == text[i + 1]);
        }
        lemma_all_digits(rest);
    }
}

/// The hexadecimal form of any bytes, read back, gives the bytes again.
pub proof fn law_hex_round_trip(data: Seq<u8>)
    ensures
        is_ascii_chars(hex_encoding(data)),
        encode_utf8(hex_encoding(data)).len() == 2 * data.len(),
        leading_digits(encode_utf8(hex_encoding(data))) == 2 * data.len(),
        hex_decoding(encode_utf8(hex_encoding(data))) == Ok::<Seq<u8>, HexError>(data),
{
    let text = hex_encoding(data);
    assert forall|i: int| 0 <= i < text.len() implies '\0' <= #[trigger] text[i] <= '\u{7f}' by {
        lemma_digit_of_nibble(data[i / 2] / 16);
        lemma_digit_of_nibble(data[i / 2] % 16);
    }
    is_ascii_chars_encode_utf8(text);
    let bytes = encode_utf8(text);
    assert forall|i: int| 0 <= i < bytes.len() implies digit_value(#[trigger] bytes[i]) is Some by {
        lemma_digit_of_nibble(data[i / 2] / 16);
        lemma_digit_of_nibble(data[i / 2] % 16);
        assert(bytes[i] == text[i] as u8);
    }
    lemma_all_digits(bytes);
    assert forall|i: int| 0 <= i < data.len() implies digits_bytes(bytes)[i] == data[i] by {
        lemma_digit_of_nibble(data[i] / 16);
        lemma_digit_of_nibble(data[i] % 16);
        assert(bytes[2 * i] == text[2 * i] as u8);
        assert(bytes[2 * i + 1] == text[2 * i + 1] as u8);
        assert(text[2 * i] == hex_digit(data[(2 * i) / 2] / 16));
        assert(text[2 * i + 1] == hex_digit(data[(2 * i + 1) / 2] % 16));
    }
    assert(digits_bytes(bytes) =~= data);
}

/// The digit for a value below 16 is a character of one byte, and that byte
/// stands for the value.
pub proof fn lemma_digit_of_nibble(n: u8)
    requires
        n < 16,
    ensures
        '\0' <= hex_digit(n) <= '\u{7f}',
        digit_value(hex_digit(n) as u8) == Some(n),
{
}

/// Calls `hex::encode`, which writes each byte as two digits taken from
/// `0123456789abcdef`, the high four bits first.
#[verifier::external_body]
pub(crate) fn hex_encode(data: &[u8]) -> (text: String)
    ensures
        text@ == hex_encoding(data@),
{
    hex::encode(data)
}

/// Calls `hex::decode`, which refuses an odd number of bytes, then reads the
/// bytes in pairs from the front and stops at the first that is no digit,
/// reporting it with its position.  The outside error is handed on variant by
/// variant.
#[verifier::external_body]
pub(crate) fn hex_decode(text: &[u8]) -> (r: Result<Vec<u8>, HexError>)
    ensures
        match r {
            Ok(data) => hex_decoding(text@) == Ok::<Seq<u8>, HexError>(data@),
            Err(e) => hex_decoding(text@) == Err::<Seq<u8>, HexError>(e),
        },
{
    match hex::decode(text) {
        Ok(data) => Ok(data),
        Err(hex::FromHexError::InvalidHexCharacter { c, index }) => Err(
            HexError::InvalidHexCharacter { c, index },
        ),
        Err(hex::FromHexError::OddLength) => Err(HexError::OddLength),
        Err(hex::FromHexError::InvalidStringLength) => Err(HexError::InvalidStringLength),
    }
}

} // verus!
