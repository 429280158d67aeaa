//! Character classification used by the field sanitizer.

use vstd::prelude::*;

verus! {

/// The characters with the Unicode `White_Space` property.  This is the set
/// of characters that `str::trim` removes from the ends of a string.
pub open spec fn is_space_char(c: char) -> bool {
    let u = c as u32;
    u == 0x20 || (0x09 <= u && u <= 0x0D) || u == 0x85 || u == 0xA0 || u == 0x1680
        || (0x2000 <= u && u <= 0x200A) || u == 0x2028 || u == 0x2029 || u == 0x202F
        || u == 0x205F || u == 0x3000
}

/// Decides `is_space_char` executably.
pub fn char_is_space(c: char) -> (r: bool)
    ensures
        r == is_space_char(c),
{
    let u = c as u32;
    u == 0x20 || (0x09 <= u && u <= 0x0D) || u == 0x85 || u == 0xA0 || u == 0x1680
        || (0x2000 <= u && u <= 0x200A) || u == 0x2028 || u == 0x2029 || u == 0x202F
        || u == 0x205F || u == 0x3000
}

/// Whether `char::is_alphanumeric` accepts the character: the Unicode
/// classes Alphabetic, Nd, Nl and No.  The set is far too large to write
/// out, so it is left abstract and every contract speaks through this name.
pub uninterp spec fn is_alnum_char(c: char) -> bool;

/// Relies on `char::is_alphanumeric`: whether a character is alphanumeric
/// is a function of the character alone.
#[verifier::external_body]
pub(crate) fn char_is_alnum(c: char) -> (r: bool)
    ensures
        r == is_alnum_char(c),
{
    c.is_alphanumeric()
}

/// The invisible characters that price cleaning removes outright:
/// zero-width space, byte-order mark, carriage return and line feed.
pub open spec fn is_invisible_char(c: char) -> bool {
    c == '\u{200B}' || c == '\u{FEFF}' || c == '\r' || c == '\n'
}

/// Decides `is_invisible_char` executably.
pub fn char_is_invisible(c: char) -> (r: bool)
    ensures
        r == is_invisible_char(c),
{
    c == '\u{200B}' || c == '\u{FEFF}' || c == '\r' || c == '\n'
}

/// The characters a product name keeps: alphanumeric, whitespace, hyphen.
pub open spec fn keeps_name_char(c: char) -> bool {
    is_alnum_char(c) || is_space_char(c) || c == '-'
}

/// Decides `keeps_name_char` executably.
pub fn char_keeps_name(c: char) -> (r: bool)
    ensures
        r == keeps_name_char(c),
{
    char_is_alnum(c) || char_is_space(c) || c == '-'
}

/// The characters an id tag keeps: alphanumeric, hyphen, underscore.
pub open spec fn keeps_id_char(c: char) -> bool {
    is_alnum_char(c) || c == '-' || c == '_'
}

/// Decides `keeps_id_char` executably.
pub fn char_keeps_id(c: char) -> (r: bool)
    ensures
        r == keeps_id_char(c),
{
    char_is_alnum(c) || c == '-' || c == '_'
}

} // verus!
