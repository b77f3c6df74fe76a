//! Keys as the game reads them, and the Unicode character classes it asks about.
use vstd::prelude::*;

verus! {

/// A key press, as far as the game tells keys apart.
#[derive(Clone, Copy, Debug, PartialEq, Eq, Structural)]
pub enum Key {
    Char(char),
    Enter,
    Backspace,
    Esc,
    Tab,
    Up,
    Down,
    Left,
    Right,
    Other,
}

/// Whether `c` has the Unicode `Lowercase` property.
pub uninterp spec fn unicode_is_lowercase(c: char) -> bool;

/// Whether `c` has the Unicode `Uppercase` property.
pub uninterp spec fn unicode_is_uppercase(c: char) -> bool;

/// `char::is_lowercase`.
/// Trusted: the result is the `Lowercase` property of `c`, which holds of
/// `a`..`z` and not of `A`..`Z`; what it is for other characters is not stated.
#[verifier::external_body]
pub fn is_lowercase(c: char) -> (r: bool)
    ensures
        r == unicode_is_lowercase(c),
        'a' <= c <= 'z' ==> r,
        'A' <= c <= 'Z' ==> !r,
{
    c.is_lowercase()
}

/// `char::is_uppercase`.
/// Trusted: the result is the `Uppercase` property of `c`, which holds of
/// `A`..`Z` and not of `a`..`z`; what it is for other characters is not stated.
#[verifier::external_body]
pub fn is_uppercase(c: char) -> (r: bool)
    ensures
        r == unicode_is_uppercase(c),
        'A' <= c <= 'Z' ==> r,
        'a' <= c <= 'z' ==> !r,
{
    c.is_uppercase()
}

} // verus!
