//! Character classes and case mappings of std, as the models use them.
use vstd::prelude::*;

verus! {

/// Unicode's White_Space property of a character.
pub uninterp spec fn whitespace_of(c: char) -> bool;

/// Whether a character is uppercase (Unicode's Uppercase property).
pub uninterp spec fn uppercase_of(c: char) -> bool;

/// Whether a character is lowercase (Unicode's Lowercase property).
pub uninterp spec fn lowercase_of(c: char) -> bool;

/// The first character of the full lowercase mapping of a character.
pub uninterp spec fn first_lower_of(c: char) -> Option<char>;

/// The first character of the full uppercase mapping of a character.
pub uninterp spec fn first_upper_of(c: char) -> Option<char>;

/// Relies on `char::is_whitespace`, which answers from the character alone;
/// its documentation shows space and newline as whitespace.
#[verifier::external_body]
pub(crate) fn is_whitespace(c: char) -> (r: bool)
    ensures
        r == whitespace_of(c),
        (c == ' ' || c == '\n') ==> r,
{
    c.is_whitespace()
}

/// Relies on `char::is_uppercase`, which answers from the character alone.
#[verifier::external_body]
pub(crate) fn is_uppercase(c: char) -> (r: bool)
    ensures
        r == uppercase_of(c),
{
    c.is_uppercase()
}

/// Relies on `char::is_lowercase`, which answers from the character alone.
#[verifier::external_body]
pub(crate) fn is_lowercase(c: char) -> (r: bool)
    ensures
        r == lowercase_of(c),
{
    c.is_lowercase()
}

/// Relies on `char::to_lowercase`, whose iterator yields one or more
/// characters; this is its first.
#[verifier::external_body]
pub(crate) fn first_lowercase(c: char) -> (r: Option<char>)
    ensures
        r == first_lower_of(c),
        r is Some,
{
    c.to_lowercase().next()
}

/// Relies on `char::to_uppercase`, whose iterator yields one or more
/// characters; this is its first.
#[verifier::external_body]
pub(crate) fn first_uppercase(c: char) -> (r: Option<char>)
    ensures
        r == first_upper_of(c),
        r is Some,
{
    c.to_uppercase().next()
}

/// ASCII lowercase: `A`..`Z` become `a`..`z`, every other character stays.
pub open spec fn ascii_lower_spec(c: char) -> char {
    if 'A' <= c && c <= 'Z' {
        ((c as u32) + 32) as char
    } else {
        c
    }
}

/// Lowercases an ASCII letter and leaves every other character as it is.
pub fn ascii_lower(c: char) -> (r: char)
    ensures
        r == ascii_lower_spec(c),
{
    if 'A' <= c && c <= 'Z' {
        ((c as u8) + 32) as char
    } else {
        c
    }
}

} // verus!
