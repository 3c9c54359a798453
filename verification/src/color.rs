//! Hex color text to raw RGB bytes.
//!
//! The caller hands the color as ASCII text such as `FF00FF`; exactly six hex
//! digits make a color, anything else is rejected before a frame is built.

use vstd::prelude::*;

use crate::error::InputError;

verus! {

/// True for the byte of an ASCII hex digit, either case.
pub open spec fn is_hex_digit(b: u8) -> bool {
    (0x30 <= b && b <= 0x39) || (0x41 <= b && b <= 0x46) || (0x61 <= b && b <= 0x66)
}

/// The value of an ASCII hex digit byte.
pub open spec fn hex_digit_value(b: u8) -> u8
    recommends
        is_hex_digit(b),
{
    if 0x30 <= b && b <= 0x39 {
        (b - 0x30) as u8
    } else if 0x41 <= b && b <= 0x46 {
        (b - 0x41 + 10) as u8
    } else {
        (b - 0x61 + 10) as u8
    }
}

/// True when the text is a well-formed hex string: even length, hex digits
/// throughout.
pub open spec fn valid_hex(s: Seq<u8>) -> bool {
    s.len() % 2 == 0 && forall|i: int| 0 <= i < s.len() ==> is_hex_digit(#[trigger] s[i])
}

/// The bytes a well-formed hex string denotes, one per digit pair.
pub open spec fn hex_bytes(s: Seq<u8>) -> Seq<u8> {
    Seq::new(
        s.len() / 2,
        |i: int| (hex_digit_value(s[2 * i]) * 16 + hex_digit_value(s[2 * i + 1])) as u8,
    )
}

/// Relies on hex::decode: each pair of hex digits, upper or lower case,
/// becomes one byte; odd length or a non-hex byte is an error.
#[verifier::external_body]
fn decode_hex(s: &[u8]) -> (r: Option<Vec<u8>>)
    ensures
        match r {
            Some(v) => valid_hex(s@) && v@ == hex_bytes(s@),
            None => !valid_hex(s@),
        },
{
    hex::decode(s).ok()
}

/// Parses a color: exactly six hex digits give the red, green and blue bytes;
/// any other text is rejected.
pub fn parse_color(s: &[u8]) -> (r: Result<(u8, u8, u8), InputError>)
    ensures
        valid_hex(s@) && s@.len() == 6 ==> r == Ok::<_, InputError>(
            (hex_bytes(s@)[0], hex_bytes(s@)[1], hex_bytes(s@)[2]),
        ),
        !(valid_hex(s@) && s@.len() == 6) ==> r == Err::<(u8, u8, u8), _>(InputError::InvalidColor),
{
    match decode_hex(s) {
        Some(v) => {
            if v.len() == 3 {
                Ok((v[0], v[1], v[2]))
            } else {
                Err(InputError::InvalidColor)
            }
        },
        None => Err(InputError::InvalidColor),
    }
}

} // verus!
