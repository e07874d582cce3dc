//! Hexadecimal text, as the collateral documents write byte strings.

use vstd::prelude::*;
use crate::bytes::bytes_equal;

verus! {

/// The value of a hexadecimal digit, in either case; `None` for any other
/// character.
pub open spec fn hex_digit(c: char) -> Option<u8> {
    let n = c as u32;
    if 48 <= n <= 57 {
        Some((n - 48) as u8)
    } else if 65 <= n <= 70 {
        Some((n - 55) as u8)
    } else if 97 <= n <= 102 {
        Some((n - 87) as u8)
    } else {
        None
    }
}

/// The bytes that a hexadecimal text stands for, two digits to a byte and
/// the high digit first; `None` where the text has an odd length or holds
/// anything but digits.
pub open spec fn hex_bytes(s: Seq<char>) -> Option<Seq<u8>> {
    if s.len() % 2 == 0 && (forall|i: int| 0 <= i < s.len() ==> hex_digit(#[trigger] s[i]) is Some) {
        Some(
            Seq::new(
                s.len() / 2,
                |i: int| (16 * hex_digit(s[2 * i]).unwrap() + hex_digit(s[2 * i + 1]).unwrap()) as u8,
            ),
        )
    } else {
        None
    }
}

/// Calls `hex::decode` on the text. That function refuses a text of odd
/// length and any character other than `0-9`, `a-f` and `A-F`; otherwise it
/// returns one byte for each pair of digits, the first digit of a pair
/// being the high half. The contract says exactly that, and is not proved here.
#[verifier::external_body]
pub(crate) fn decode_hex(text: &str) -> (r: Option<Vec<u8>>)
    ensures
        match r {
            Some(bytes) => hex_bytes(text@) == Some(bytes@),
            None => hex_bytes(text@) is None,
        },
{
    hex::decode(text).ok()
}

/// Whether `bytes` are exactly what the hexadecimal `text` stands for.
pub fn hex_equals(text: &str, bytes: &[u8]) -> (r: bool)
    ensures
        r == (hex_bytes(text@) == Some(bytes@)),
{
    match decode_hex(text) {
        Some(decoded) => bytes_equal(decoded.as_slice(), bytes),
        None => false,
    }
}

} // verus!
