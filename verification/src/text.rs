//! String operations of `std` that the rest of the library builds on.
//!
//! vstd gives no specification for lowercasing, `Debug` formatting or pushing
//! a character, so each of these is a small trusted wrapper whose contract
//! restates what the `std` documentation promises.  String equality is
//! verified on top of the specifications vstd gives.
use vstd::prelude::*;
use vstd::utf8::is_ascii_chars;

verus! {

/// The characters that `str::to_lowercase` returns for a string holding the
/// characters `s`.  Lowercasing follows the Unicode tables of `std`, which
/// depend on the input alone.
pub uninterp spec fn unicode_lowercase(s: Seq<char>) -> Seq<char>;

/// Lowercase of one ASCII letter; every other character is left alone.
pub open spec fn ascii_lower_char(c: char) -> char {
    if 'A' <= c && c <= 'Z' {
        ((c as u32) + 32) as char
    } else {
        c
    }
}

/// ASCII lowercasing of a whole string.
pub open spec fn ascii_lowercase(s: Seq<char>) -> Seq<char> {
    s.map_values(|c: char| ascii_lower_char(c))
}

/// Uppercase of one ASCII letter; every other character is left alone.
pub open spec fn ascii_upper_char(c: char) -> char {
    if 'a' <= c && c <= 'z' {
        ((c as u32) - 32) as char
    } else {
        c
    }
}

/// ASCII uppercasing of a whole string.
pub open spec fn ascii_uppercase(s: Seq<char>) -> Seq<char> {
    s.map_values(|c: char| ascii_upper_char(c))
}

/// Calls `str::to_lowercase`.  Its result is named `unicode_lowercase` of the
/// input.  On an input made of ASCII characters only, the Unicode lowercase
/// mapping is the ASCII one (`A`..`Z` to `a`..`z`, nothing else changes), and
/// the contract says so; on other inputs it states nothing beyond the name.
#[verifier::external_body]
pub(crate) fn str_to_lowercase(s: &str) -> (r: String)
    ensures
        r@ == unicode_lowercase(s@),
        is_ascii_chars(s@) ==> r@ == ascii_lowercase(s@),
{
    s.to_lowercase()
}

/// Whether two string slices hold the same characters.
pub(crate) fn str_eq(a: &str, b: &str) -> (r: bool)
    ensures
        r == (a@ == b@),
{
    a.to_owned() == b.to_owned()
}

/// The text that `{:?}` writes for a string slice holding the characters
/// `s`: the characters between double quotes, with quotes, backslashes,
/// control and non-printable characters escaped by `str::escape_debug`'s
/// rules.  It depends on the input alone.
pub uninterp spec fn debug_text(s: Seq<char>) -> Seq<char>;

/// Printable ASCII text holding neither a double quote nor a backslash: the
/// characters that `Debug` writes without any escape.
pub open spec fn plain_text(s: Seq<char>) -> bool {
    forall|i: int|
        0 <= i < s.len() ==> ' ' <= #[trigger] s[i] && s[i] <= '~' && s[i] != '"' && s[i] != '\\'
}

/// The text between double quotes.
pub open spec fn quoted(s: Seq<char>) -> Seq<char> {
    seq!['"'] + s + seq!['"']
}

/// Formats a string slice with `{:?}` (its `Debug` form).  Its result is
/// named `debug_text` of the input.  Printable ASCII characters other than
/// `"` and `\` are written as they are, so for plain text the result is the
/// text between double quotes; the escapes of other characters are not
/// spelled out.
#[verifier::external_body]
pub(crate) fn str_debug(s: &str) -> (r: String)
    ensures
        r@ == debug_text(s@),
        plain_text(s@) ==> r@ == quoted(s@),
{
    format!("{:?}", s)
}

/// Calls `String::push`: appends one character at the end.
#[verifier::external_body]
pub(crate) fn string_push(s: &mut String, c: char)
    ensures
        final(s)@ == old(s)@.push(c),
{
    s.push(c)
}

} // verus!
