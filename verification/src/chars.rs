//! Character classes used by the validation pipeline.
//!
//! The predicates here are the generic fast paths: ASCII alphanumerics, the
//! common separator characters, and the whitespace set used when trimming.
//! Domains refine them through their own hooks.

use vstd::prelude::*;

verus! {

/// An ASCII letter or digit.
pub open spec fn spec_is_ascii_alphanumeric(c: char) -> bool {
    ('a' <= c && c <= 'z') || ('A' <= c && c <= 'Z') || ('0' <= c && c <= '9')
}

/// A character of the generic key alphabet: alphanumeric or `_`, `-`, `.`.
pub open spec fn spec_is_key_char(c: char) -> bool {
    spec_is_ascii_alphanumeric(c) || c == '_' || c == '-' || c == '.'
}

/// A common separator character.
pub open spec fn spec_is_separator(c: char) -> bool {
    c == '_' || c == '-' || c == '.' || c == '/' || c == ':' || c == '|'
}

/// The whitespace characters removed when trimming.
pub open spec fn spec_is_space(c: char) -> bool {
    c == ' ' || c == '\t' || c == '\n' || c == '\r' || c == '\x0B' || c == '\x0C'
}

/// Fast check whether a character is an ASCII letter or digit.
pub fn is_ascii_alphanumeric_fast(c: char) -> (r: bool)
    ensures
        r == spec_is_ascii_alphanumeric(c),
{
    ('a' <= c && c <= 'z') || ('A' <= c && c <= 'Z') || ('0' <= c && c <= '9')
}

/// Fast check whether a character belongs to the generic key alphabet.
pub fn is_key_char_fast(c: char) -> (r: bool)
    ensures
        r == spec_is_key_char(c),
{
    is_ascii_alphanumeric_fast(c) || c == '_' || c == '-' || c == '.'
}

/// The generic fast path used by the character scan: same alphabet as
/// [`is_key_char_fast`].
pub fn is_ascii_allowed_fast(c: char) -> (r: bool)
    ensures
        r == spec_is_key_char(c),
{
    is_key_char_fast(c)
}

/// Check whether a character is a common separator.
pub fn is_separator(c: char) -> (r: bool)
    ensures
        r == spec_is_separator(c),
{
    c == '_' || c == '-' || c == '.' || c == '/' || c == ':' || c == '|'
}

/// Check whether a character counts as whitespace for trimming.
pub fn is_whitespace_fast(c: char) -> (r: bool)
    ensures
        r == spec_is_space(c),
{
    c == ' ' || c == '\t' || c == '\n' || c == '\r' || c == '\x0B' || c == '\x0C'
}

/// ASCII lowercase image of a character: uppercase ASCII letters map to their
/// lowercase form, everything else is unchanged.
pub open spec fn spec_lower_char(c: char) -> char {
    if c == 'A' { 'a' } else if c == 'B' { 'b' } else if c == 'C' { 'c' }
    else if c == 'D' { 'd' } else if c == 'E' { 'e' } else if c == 'F' { 'f' }
    else if c == 'G' { 'g' } else if c == 'H' { 'h' } else if c == 'I' { 'i' }
    else if c == 'J' { 'j' } else if c == 'K' { 'k' } else if c == 'L' { 'l' }
    else if c == 'M' { 'm' } else if c == 'N' { 'n' } else if c == 'O' { 'o' }
    else if c == 'P' { 'p' } else if c == 'Q' { 'q' } else if c == 'R' { 'r' }
    else if c == 'S' { 's' } else if c == 'T' { 't' } else if c == 'U' { 'u' }
    else if c == 'V' { 'v' } else if c == 'W' { 'w' } else if c == 'X' { 'x' }
    else if c == 'Y' { 'y' } else if c == 'Z' { 'z' } else { c }
}

/// Lowercase a single character as [`spec_lower_char`] describes.
pub fn lower_char(c: char) -> (r: char)
    ensures
        r == spec_lower_char(c),
{
    if c == 'A' { 'a' } else if c == 'B' { 'b' } else if c == 'C' { 'c' }
    else if c == 'D' { 'd' } else if c == 'E' { 'e' } else if c == 'F' { 'f' }
    else if c == 'G' { 'g' } else if c == 'H' { 'h' } else if c == 'I' { 'i' }
    else if c == 'J' { 'j' } else if c == 'K' { 'k' } else if c == 'L' { 'l' }
    else if c == 'M' { 'm' } else if c == 'N' { 'n' } else if c == 'O' { 'o' }
    else if c == 'P' { 'p' } else if c == 'Q' { 'q' } else if c == 'R' { 'r' }
    else if c == 'S' { 's' } else if c == 'T' { 't' } else if c == 'U' { 'u' }
    else if c == 'V' { 'v' } else if c == 'W' { 'w' } else if c == 'X' { 'x' }
    else if c == 'Y' { 'y' } else if c == 'Z' { 'z' } else { c }
}

/// Lowercasing a character twice gives the same result as doing it once.
pub proof fn lemma_lower_char_idempotent(c: char)
    ensures
        spec_lower_char(spec_lower_char(c)) == spec_lower_char(c),
{
}

/// Lowercasing never turns a character into whitespace or vice versa.
pub proof fn lemma_lower_char_space(c: char)
    ensures
        spec_is_space(spec_lower_char(c)) == spec_is_space(c),
{
}

/// Lowercasing keeps the character classes of the generic alphabet: the
/// image is alphanumeric, a key character, or a particular separator exactly
/// when the original is.
pub proof fn lemma_lower_char_classes(c: char)
    ensures
        spec_is_ascii_alphanumeric(spec_lower_char(c)) == spec_is_ascii_alphanumeric(c),
        spec_is_key_char(spec_lower_char(c)) == spec_is_key_char(c),
        (spec_lower_char(c) == '_') == (c == '_'),
        (spec_lower_char(c) == '-') == (c == '-'),
        (spec_lower_char(c) == '.') == (c == '.'),
        (spec_lower_char(c) == '/') == (c == '/'),
{
}

} // verus!
