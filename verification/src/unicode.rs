//! Unicode case mapping, character classes and normalisation, which come
//! from std's and `unicode-normalization`'s tables.

use vstd::prelude::*;

verus! {

/// What `str::to_lowercase` gives for a string: the Unicode lowercase
/// mapping of each character, with the final-sigma rule.
pub uninterp spec fn lowercase(s: Seq<char>) -> Seq<char>;

/// Whether `char::is_alphanumeric` holds for a character (Unicode
/// `Alphabetic` or `Numeric`).
pub uninterp spec fn alphanumeric(c: char) -> bool;

/// What `unicode_normalization::UnicodeNormalization::nfd` yields for a
/// string: its canonical decomposition (Normalization Form D).
pub uninterp spec fn nfd_form(s: Seq<char>) -> Seq<char>;

/// Whether a character is 7-bit ASCII.
pub open spec fn is_ascii_char(c: char) -> bool {
    (c as u32) < 128
}

/// Whether a text is all 7-bit ASCII.
pub open spec fn ascii_text(s: Seq<char>) -> bool {
    forall|i: int| 0 <= i < s.len() ==> is_ascii_char(#[trigger] s[i])
}

/// The lowercase of an ASCII character: `A` to `Z` become `a` to `z`.
pub open spec fn ascii_lower_char(c: char) -> char {
    if 'A' <= c && c <= 'Z' {
        ((c as u32) + 32) as char
    } else {
        c
    }
}

/// A text with `A` to `Z` made `a` to `z`.
pub open spec fn ascii_lowered(s: Seq<char>) -> Seq<char> {
    s.map_values(|c: char| ascii_lower_char(c))
}

/// Whether an ASCII character is a letter or a digit.
pub open spec fn is_ascii_alnum(c: char) -> bool {
    ('a' <= c && c <= 'z') || ('A' <= c && c <= 'Z') || ('0' <= c && c <= '9')
}

/// Calls `str::to_lowercase`. Its result is named `lowercase` of the input;
/// std documents it as a pure function of the string (Unicode tables of the
/// std in use).
///
/// For an ASCII text the Unicode lowercase mapping std applies is the ASCII
/// one (`A` to `Z` become `a` to `z`, nothing else changes), as std
/// documents for `to_ascii_lowercase`, which agrees with `to_lowercase` on
/// ASCII.
#[verifier::external_body]
pub(crate) fn to_lowercase(s: &str) -> (r: String)
    ensures
        r@ == lowercase(s@),
        ascii_text(s@) ==> r@ == ascii_lowered(s@),
{
    s.to_lowercase()
}

/// Calls `char::is_alphanumeric`; its result is named `alphanumeric`.
/// For an ASCII character the Unicode `Alphabetic` and `Numeric`
/// properties hold exactly of letters and digits (`char::is_alphanumeric`
/// agrees with `char::is_ascii_alphanumeric` there).
#[verifier::external_body]
pub(crate) fn is_alphanumeric(c: char) -> (b: bool)
    ensures
        b == alphanumeric(c),
        is_ascii_char(c) ==> b == is_ascii_alnum(c),
{
    c.is_alphanumeric()
}

/// Calls `UnicodeNormalization::nfd` on `s` and collects the characters it
/// yields; the result is named `nfd_form` of the input.
/// 7-bit ASCII never decomposes (the crate's `decompose_canonical` passes
/// it through), so an ASCII text is its own decomposition.
#[verifier::external_body]
pub(crate) fn nfd(s: &str) -> (r: String)
    ensures
        r@ == nfd_form(s@),
        ascii_text(s@) ==> r@ == s@,
{
    unicode_normalization::UnicodeNormalization::nfd(s).collect()
}

} // verus!
