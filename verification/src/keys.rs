//! Key codes that the engine gives a meaning of their own.
//!
//! A key code is either the code point of a printable character or one of
//! the reserved values below. The input layer must deliver exactly these
//! values for the keys they name.

use vstd::prelude::*;

verus! {

/// Arrow down.
pub const DOWN: u32 = 258;

/// Arrow up.
pub const UP: u32 = 259;

/// Arrow left.
pub const LEFT: u32 = 260;

/// Arrow right.
pub const RIGHT: u32 = 261;

/// Backspace.
pub const BACKSPACE: u32 = 263;

/// Enter (line feed).
pub const ENTER: u32 = 10;

/// Escape.
pub const ESCAPE: u32 = 27;

/// The code of the character `0`.
pub const DIGIT_BASELINE: u32 = 48;

/// How many digits there are.
pub const MAX_DIGIT: u32 = 10;

/// The key code is one of the decimal digits `0` to `9`.
pub open spec fn spec_is_digit(ch: u32) -> bool {
    DIGIT_BASELINE <= ch < DIGIT_BASELINE + MAX_DIGIT
}

/// Tells whether the key code is one of the decimal digits `0` to `9`.
#[verifier::when_used_as_spec(spec_is_digit)]
pub fn is_digit(ch: u32) -> (r: bool)
    ensures
        r == spec_is_digit(ch),
{
    ch >= DIGIT_BASELINE && ch < DIGIT_BASELINE + MAX_DIGIT
}

/// The key code is the code point of a character: any value up to
/// `0x10FFFF` outside the surrogate range.
pub open spec fn is_scalar(code: u32) -> bool {
    code <= 0xD7FF || (0xE000 <= code && code <= 0x10FFFF)
}

/// The character that a key code stands for, if it stands for one.
pub open spec fn scalar(code: u32) -> Option<char> {
    if is_scalar(code) {
        Some(code as char)
    } else {
        None
    }
}

/// `char::from_u32` of the standard library: it returns the character with
/// the given code point, and `None` exactly when the value is a surrogate
/// or lies above `0x10FFFF`.
pub assume_specification[ char::from_u32 ](i: u32) -> (r: Option<char>)
    ensures
        r == scalar(i),
;

} // verus!
