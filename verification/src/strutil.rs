//! Character-level case arithmetic and the two std string operations the
//! rest of the library builds keys and messages with.

use vstd::prelude::*;

verus! {

/// Relies on `char::from_u32` of std: returns the `char` with the given
/// code point when it is a Unicode scalar value, and `None` otherwise.
pub assume_specification[ char::from_u32 ](v: u32) -> (r: Option<char>)
    ensures
        r == if vstd::utf8::is_scalar(v) {
            Some(v as char)
        } else {
            None::<char>
        },
;

/// Relies on `String::push` of std: appends the given character to the
/// end of the string.
pub assume_specification[ String::push ](s: &mut String, c: char)
    ensures
        final(s)@ == old(s)@.push(c),
;

/// An ASCII capital letter.
pub open spec fn is_ascii_upper(c: char) -> bool {
    'A' <= c && c <= 'Z'
}

/// An ASCII small letter.
pub open spec fn is_ascii_lower(c: char) -> bool {
    'a' <= c && c <= 'z'
}

/// An ASCII capital letter folded to its small form; anything else kept.
pub open spec fn to_lower(c: char) -> char {
    if is_ascii_upper(c) {
        ((c as u32) + 32) as char
    } else {
        c
    }
}

/// An ASCII small letter raised to its capital form; anything else kept.
pub open spec fn to_upper(c: char) -> char {
    if is_ascii_lower(c) {
        ((c as u32) - 32) as char
    } else {
        c
    }
}

/// Folds one character to its ASCII small form.
pub fn lower_char(c: char) -> (r: char)
    ensures
        r == to_lower(c),
{
    if 'A' <= c && c <= 'Z' {
        match char::from_u32((c as u32) + 32) {
            Some(d) => d,
            None => c,
        }
    } else {
        c
    }
}

/// Raises one character to its ASCII capital form.
pub fn upper_char(c: char) -> (r: char)
    ensures
        r == to_upper(c),
{
    if 'a' <= c && c <= 'z' {
        match char::from_u32((c as u32) - 32) {
            Some(d) => d,
            None => c,
        }
    } else {
        c
    }
}

} // verus!
