//! Feed identifiers written as sixty-four hexadecimal digits.

use vstd::prelude::*;
use vstd::string::is_ascii_spec_bytes;
use vstd::string::StringSliceAdditionalSpecFns;
use crate::error::CodecError;

verus! {

/// The value of `c` as a hexadecimal digit, in either case; `None` for any
/// other character.
pub open spec fn hex_digit_value(c: char) -> Option<u8> {
    if '0' <= c && c <= '9' {
        Some((c as u8 - '0' as u8) as u8)
    } else if 'a' <= c && c <= 'f' {
        Some((c as u8 - 'a' as u8 + 10) as u8)
    } else if 'A' <= c && c <= 'F' {
        Some((c as u8 - 'A' as u8 + 10) as u8)
    } else {
        None
    }
}

/// `text` without a leading `0x`, if it has one.
pub open spec fn strip_hex_prefix(text: Seq<char>) -> Seq<char> {
    if text.len() >= 2 && text[0] == '0' && text[1] == 'x' {
        text.skip(2)
    } else {
        text
    }
}

/// `digits` is exactly sixty-four hexadecimal digits.
pub open spec fn is_feed_id_hex(digits: Seq<char>) -> bool {
    &&& digits.len() == 64
    &&& forall|i: int| 0 <= i < 64 ==> (#[trigger] hex_digit_value(digits[i])) is Some
}

/// The thirty-two bytes that sixty-four hexadecimal digits spell, two digits
/// to the byte, the high digit first.
pub open spec fn feed_id_bytes(digits: Seq<char>) -> Seq<u8> {
    Seq::new(
        32,
        |i: int|
            (16 * hex_digit_value(digits[2 * i]).unwrap() + hex_digit_value(
                digits[2 * i + 1],
            ).unwrap()) as u8,
    )
}

/// The feed id that `text` spells, or why it spells none.
pub open spec fn parse_feed_id(text: Seq<char>) -> Result<Seq<u8>, CodecError> {
    let digits = strip_hex_prefix(text);
    if is_feed_id_hex(digits) {
        Ok(feed_id_bytes(digits))
    } else {
        Err(CodecError::InvalidArgument)
    }
}

/// The value of an ASCII byte as a hexadecimal digit.
fn hex_digit(byte: u8) -> (r: Option<u8>)
    requires
        byte < 128,
    ensures
        r == hex_digit_value(byte as char),
        r matches Some(v) ==> v < 16,
{
    if 48 <= byte && byte <= 57 {
        Some(byte - 48)
    } else if 97 <= byte && byte <= 102 {
        Some(byte - 87)
    } else if 65 <= byte && byte <= 70 {
        Some(byte - 55)
    } else {
        None
    }
}

/// Parses a feed id from its hexadecimal spelling, with or without a leading
/// `0x`.
///
/// Succeeds exactly when what follows the optional prefix is sixty-four
/// hexadecimal digits; any other text is an invalid argument.
pub fn get_feed_id_from_hex(input: &str) -> (r: Result<[u8; 32], CodecError>)
    ensures
        match r {
            Ok(id) => parse_feed_id(input@) == Ok::<Seq<u8>, CodecError>(id@),
            Err(e) => parse_feed_id(input@) == Err::<Seq<u8>, CodecError>(e),
        },
{
    let ghost text = input@;
    let ghost digits = strip_hex_prefix(text);
    if !input.is_ascii() {
        proof {
            let k = choose|k: int|
                0 <= k < text.len() && !('\0' <= #[trigger] text[k] && text[k] <= '\u{7f}');
            if digits.len() == 64 {
                if text.len() >= 2 && text[0] == '0' && text[1] == 'x' {
                    assert(digits[k - 2] == text[k]);
                    assert(hex_digit_value(digits[k - 2]) is None);
                } else {
                    assert(hex_digit_value(digits[k]) is None);
                }
            }
        }
        return Err(CodecError::InvalidArgument);
    }
    let bytes: &[u8] = input.as_bytes();
    proof {
        is_ascii_spec_bytes(input);
    }
    assert(bytes@.len() == text.len());
    assert(forall|k: int|
        0 <= k < text.len() ==> '\0' <= (#[trigger] text[k]) <= '\u{7f}' && bytes@[k] == text[k] as u8);
    let len: usize = bytes.len();
    let start: usize = if len >= 2 && bytes[0] == 48 && bytes[1] == 120 {
        2
    } else {
        0
    };
    assert(digits =~= text.skip(start as int));
    if len - start != 64 {
        return Err(CodecError::InvalidArgument);
    }
    let mut feed_id: [u8; 32] = [0u8; 32];
    let mut i: usize = 0;
    while i < 32
        invariant
            i <= 32,
            start <= 2,
            bytes@.len() == start + 64,
            bytes@.len() == text.len(),
            text == input@,
            digits == strip_hex_prefix(text),
            digits == text.skip(start as int),
            forall|k: int|
                0 <= k < text.len() ==> '\0' <= (#[trigger] text[k]) <= '\u{7f}' && bytes@[k] == text[k] as u8,
            forall|k: int| 0 <= k < 2 * i ==> (#[trigger] hex_digit_value(digits[k])) is Some,
            forall|j: int| 0 <= j < i ==> feed_id@[j] == feed_id_bytes(digits)[j],
        decreases 32 - i,
    {
        let at: usize = start + 2 * i;
        let high_byte: u8 = bytes[at];
        let low_byte: u8 = bytes[at + 1];
        assert(digits[2 * i] == text[at as int] && high_byte as char == digits[2 * i]);
        assert(digits[2 * i + 1] == text[at + 1] && low_byte as char == digits[2 * i + 1]);
        let high: u8 = match hex_digit(high_byte) {
            Some(v) => v,
            None => { return Err(CodecError::InvalidArgument); },
        };
        let low: u8 = match hex_digit(low_byte) {
            Some(v) => v,
            None => { return Err(CodecError::InvalidArgument); },
        };
        feed_id[i] = 16 * high + low;
        i = i + 1;
    }
    assert(feed_id@ =~= feed_id_bytes(digits));
    Ok(feed_id)
}

} // verus!
