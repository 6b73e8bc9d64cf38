use crate::error::Error;
use vstd::prelude::*;
use vstd::slice::slice_subrange;
use vstd::utf8::encode_utf8;

verus! {

/// The characters with the Unicode `White_Space` property.
pub open spec fn is_white_space(c: char) -> bool {
    let u = c as u32;
    ||| 0x09 <= u <= 0x0d
    ||| u == 0x20
    ||| u == 0x85
    ||| u == 0xa0
    ||| u == 0x1680
    ||| 0x2000 <= u <= 0x200a
    ||| u == 0x2028
    ||| u == 0x2029
    ||| u == 0x202f
    ||| u == 0x205f
    ||| u == 0x3000
}

/// `s` without its leading white space.
pub open spec fn trim_start(s: Seq<char>) -> Seq<char>
    decreases s.len(),
{
    if s.len() > 0 && is_white_space(s[0]) {
        trim_start(s.skip(1))
    } else {
        s
    }
}

/// `s` without its trailing white space.
pub open spec fn trim_end(s: Seq<char>) -> Seq<char>
    decreases s.len(),
{
    if s.len() > 0 && is_white_space(s.last()) {
        trim_end(s.drop_last())
    } else {
        s
    }
}

/// `s` without leading and trailing white space.
pub open spec fn trimmed(s: Seq<char>) -> Seq<char> {
    trim_end(trim_start(s))
}

/// Relies on `str::trim`: it removes leading and trailing characters that have the
/// Unicode `White_Space` property.
#[verifier::external_body]
fn trim(s: &str) -> (r: &str)
    ensures
        r@ == trimmed(s@),
{
    s.trim()
}

/// The value of an ASCII hex digit, either case.
pub open spec fn hex_digit_value(c: u8) -> Option<nat> {
    if 0x30 <= c <= 0x39 {
        Some((c - 0x30) as nat)
    } else if 0x61 <= c <= 0x66 {
        Some((c - 0x61 + 10) as nat)
    } else if 0x41 <= c <= 0x46 {
        Some((c - 0x41 + 10) as nat)
    } else {
        None
    }
}

/// An even number of hex digits.
pub open spec fn is_hex_text(digits: Seq<u8>) -> bool {
    &&& digits.len() % 2 == 0
    &&& forall|i: int| 0 <= i < digits.len() ==> (#[trigger] hex_digit_value(digits[i])) is Some
}

/// The bytes that hex digits denote, two digits per byte, high nibble first.
pub open spec fn hex_bytes(digits: Seq<u8>) -> Seq<u8> {
    Seq::new(
        digits.len() / 2,
        |i: int|
            (hex_digit_value(digits[2 * i])->0 * 16 + hex_digit_value(digits[2 * i + 1])->0) as u8,
    )
}

/// `text` without a leading `0x`.
pub open spec fn strip_hex_prefix(text: Seq<u8>) -> Seq<u8> {
    if text.len() >= 2 && text[0] == 0x30u8 && text[1] == 0x78u8 {
        text.skip(2)
    } else {
        text
    }
}

/// The hex digits of bytecode text: trimmed, then without its `0x`.
pub open spec fn hex_digits_of(text: Seq<char>) -> Seq<u8> {
    strip_hex_prefix(encode_utf8(trimmed(text)))
}

/// Relies on `hex::decode`: it accepts exactly an even number of ASCII hex digits of
/// either case and turns each pair into one byte, high nibble first.
#[verifier::external_body]
fn decode_hex(digits: &[u8]) -> (r: Result<Vec<u8>, hex::FromHexError>)
    ensures
        r is Ok <==> is_hex_text(digits@),
        r matches Ok(bytes) ==> bytes@ == hex_bytes(digits@),
{
    hex::decode(digits)
}

/// Reads bytecode text that has no surrounding white space; a `0x` prefix is optional.
pub fn parse_trimmed_hex(text: &str) -> (r: Result<Vec<u8>, Error>)
    ensures
        r is Ok <==> is_hex_text(strip_hex_prefix(encode_utf8(text@))),
        r matches Ok(bytes) ==> bytes@ == hex_bytes(strip_hex_prefix(encode_utf8(text@))),
        r matches Err(e) ==> e is Hex,
{
    let raw = text.as_bytes();
    let digits: &[u8] = if raw.len() >= 2 && raw[0] == 0x30 && raw[1] == 0x78 {
        slice_subrange(raw, 2, raw.len())
    } else {
        raw
    };
    assert(digits@ =~= strip_hex_prefix(encode_utf8(text@)));
    match decode_hex(digits) {
        Ok(bytes) => Ok(bytes),
        Err(e) => Err(Error::Hex(e)),
    }
}

/// Reads bytecode text: surrounding white space is ignored, a `0x` prefix is optional.
pub fn parse_hex(input: &str) -> (r: Result<Vec<u8>, Error>)
    ensures
        r is Ok <==> is_hex_text(hex_digits_of(input@)),
        r matches Ok(bytes) ==> bytes@ == hex_bytes(hex_digits_of(input@)),
        r matches Err(e) ==> e is Hex,
{
    parse_trimmed_hex(trim(input))
}

} // verus!
