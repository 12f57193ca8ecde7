//! Hexadecimal text: the lowercase rendering of byte strings and the parsing
//! of `0x`-prefixed text back into bytes.

use vstd::prelude::*;
use vstd::string::*;

verus! {

/// The lowercase hex digit of a nibble (`0..=15`).
pub open spec fn hex_digit(nibble: int) -> char {
    if nibble < 10 {
        (nibble + 48) as char
    } else {
        (nibble + 87) as char
    }
}

/// The lowercase hex text of `bytes`: two digits per byte, high nibble first.
pub open spec fn hex_text(bytes: Seq<u8>) -> Seq<char> {
    Seq::new(
        2 * bytes.len(),
        |i: int|
            hex_digit(
                if i % 2 == 0 {
                    bytes[i / 2] as int / 16
                } else {
                    bytes[i / 2] as int % 16
                },
            ),
    )
}

/// The value of a hex digit in either case, or `None` for any other character.
pub open spec fn digit_value(c: char) -> Option<int> {
    let code = c as int;
    if 48 <= code <= 57 {
        Some(code - 48)
    } else if 97 <= code <= 102 {
        Some(code - 87)
    } else if 65 <= code <= 70 {
        Some(code - 55)
    } else {
        None
    }
}

/// Text that decodes to bytes: an even number of hex digits.
pub open spec fn is_hex_text(text: Seq<char>) -> bool {
    &&& text.len() % 2 == 0
    &&& forall|i: int| 0 <= i < text.len() ==> digit_value(#[trigger] text[i]) is Some
}

/// The bytes that hex text stands for: each pair of digits is one byte, high
/// nibble first.
pub open spec fn hex_bytes(text: Seq<char>) -> Seq<u8> {
    Seq::new(
        text.len() / 2,
        |i: int|
            (digit_value(text[2 * i]).unwrap() * 16 + digit_value(text[2 * i + 1]).unwrap()) as u8,
    )
}

/// Text that starts with the two characters `0x`.
pub open spec fn has_prefix(text: Seq<char>) -> bool {
    text.len() >= 2 && text[0] == '0' && text[1] == 'x'
}

/// Decoding undoes encoding: the hex text of any bytes is well formed and
/// stands for those bytes.
pub proof fn lemma_hex_round_trip(bytes: Seq<u8>)
    ensures
        is_hex_text(hex_text(bytes)),
        hex_bytes(hex_text(bytes)) == bytes,
{
    let text = hex_text(bytes);
    assert forall|i: int| 0 <= i < text.len() implies digit_value(#[trigger] text[i]) is Some by {
        let byte = bytes[i / 2] as int;
        assert(0 <= byte / 16 < 16 && 0 <= byte % 16 < 16);
    }
    assert forall|i: int| 0 <= i < bytes.len() implies hex_bytes(text)[i] == bytes[i] by {
        let byte = bytes[i] as int;
        assert(digit_value(text[2 * i]) == Some(byte / 16));
        assert(digit_value(text[2 * i + 1]) == Some(byte % 16));
    }
    assert(hex_bytes(text) =~= bytes);
}

/// Why a text was refused as a byte string of a fixed length.
#[derive(Debug, Clone, Copy, PartialEq, Eq)]
pub enum ParseError {
    /// The text does not start with `0x`.
    MissingPrefix,
    /// What follows the prefix is not an even number of hex digits.
    InvalidHex,
    /// The digits stand for another number of bytes than was asked for.
    WrongLength,
}

/// What `parse_fixed` owes for a text and a length of `n` bytes.
pub open spec fn parse_result(text: Seq<char>, n: nat) -> Result<Seq<u8>, ParseError> {
    if !has_prefix(text) {
        Err(ParseError::MissingPrefix)
    } else if !is_hex_text(text.skip(2)) {
        Err(ParseError::InvalidHex)
    } else if hex_bytes(text.skip(2)).len() != n {
        Err(ParseError::WrongLength)
    } else {
        Ok(hex_bytes(text.skip(2)))
    }
}

/// Trusted: `hex::FromHexError`, the error of `hex::decode`, declared as an
/// opaque type. The library only tells it from success and reads nothing in
/// it.
#[verifier::external_type_specification]
#[verifier::external_body]
pub struct ExFromHexError(hex::FromHexError);

/// Trusted: `hex::encode`. It walks the bytes in order and writes, for each,
/// the digit of its high nibble and then that of its low nibble, taken from
/// the table `0123456789abcdef`.
#[verifier::external_body]
pub(crate) fn encode_hex(bytes: &[u8]) -> (text: String)
    ensures
        text@ == hex_text(bytes@),
{
    hex::encode(bytes)
}

/// Trusted: `hex::decode`. It succeeds exactly on an even number of hex
/// digits of either case, and then each pair of digits gives one byte, the
/// first digit being the high nibble. It reads the text as UTF-8 bytes; a
/// character outside ASCII gives bytes above 127, none of which is a digit,
/// so the statement over characters holds of every text.
#[verifier::external_body]
pub(crate) fn decode_hex(text: &str) -> (decoded: Result<Vec<u8>, hex::FromHexError>)
    ensures
        decoded is Ok <==> is_hex_text(text@),
        decoded matches Ok(bytes) ==> bytes@ == hex_bytes(text@),
{
    hex::decode(text)
}

/// The text after a leading `0x`, or `None` where the text has no such prefix.
pub fn strip_prefix<'a>(text: &'a str) -> (rest: Option<&'a str>)
    ensures
        rest is Some <==> has_prefix(text@),
        rest matches Some(r) ==> r@ == text@.skip(2),
{
    let n: usize = text.unicode_len();
    if n >= 2 && text.get_char(0) == '0' && text.get_char(1) == 'x' {
        Some(text.substring_char(2, n))
    } else {
        None
    }
}

/// Renders bytes as `0x` followed by their lowercase hex text.
pub fn prefixed_hex(bytes: &[u8]) -> (text: String)
    ensures
        text@ == seq!['0', 'x'] + hex_text(bytes@),
        has_prefix(text@),
        text@.len() == 2 + 2 * bytes@.len(),
{
    let digits = encode_hex(bytes);
    let text = String::from_str("0x").concat(digits.as_str());
    proof {
        reveal_strlit("0x");
    }
    text
}

/// Parses `0x`-prefixed hex text that stands for exactly `N` bytes.
pub fn parse_fixed<const N: usize>(text: &str) -> (parsed: Result<[u8; N], ParseError>)
    ensures
        match parsed {
            Ok(bytes) => parse_result(text@, N as nat) == Ok::<Seq<u8>, ParseError>(bytes@),
            Err(fault) => parse_result(text@, N as nat) == Err::<Seq<u8>, ParseError>(fault),
        },
{
    let digits = match strip_prefix(text) {
        Some(rest) => rest,
        None => {
            return Err(ParseError::MissingPrefix);
        },
    };
    let decoded = match decode_hex(digits) {
        Ok(bytes) => bytes,
        Err(_) => {
            return Err(ParseError::InvalidHex);
        },
    };
    if decoded.len() != N {
        return Err(ParseError::WrongLength);
    }
    let mut bytes = [0u8; N];
    let mut i: usize = 0;
    while i < N
        invariant
            i <= N,
            decoded@.len() == N,
            forall|j: int| 0 <= j < i ==> bytes@[j] == decoded@[j],
        decreases N - i,
    {
        bytes[i] = decoded[i];
        i += 1;
    }
    assert(bytes@ =~= decoded@);
    Ok(bytes)
}

} // verus!
