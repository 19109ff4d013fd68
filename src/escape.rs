//! Escaping of user text into host-language literals, by std's own escaping.
use vstd::prelude::*;

verus! {

/// What `str::escape_default` makes of a string.
pub uninterp spec fn str_escape(s: Seq<char>) -> Seq<char>;

/// What `char::escape_default` makes of a character.
pub uninterp spec fn char_escape(c: char) -> Seq<char>;

/// Relies on `str::escape_default`: the escaped text, fit for the inside of
/// a string literal, depending on `s` alone.
#[verifier::external_body]
pub(crate) fn escape_str(s: &str) -> (r: String)
    ensures
        r@ == str_escape(s@),
{
    s.escape_default().to_string()
}

/// Relies on `char::escape_default`: the escaped character, fit for the
/// inside of a character literal, depending on `c` alone.
#[verifier::external_body]
pub(crate) fn escape_char(c: char) -> (r: String)
    ensures
        r@ == char_escape(c),
{
    c.escape_default().to_string()
}

} // verus!
