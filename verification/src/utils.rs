//! Text helpers for messages shown to the user.

use vstd::prelude::*;
use vstd::string::StringExecFns;

verus! {

/// The upper-case form of a character as `char::to_uppercase` of the standard
/// library gives it: one or more characters, by the Unicode tables alone.
pub uninterp spec fn spec_to_uppercase(c: char) -> Seq<char>;

/// `char::to_uppercase`, collected into a string. The mapping itself is not
/// modelled: the contract only names it.
#[verifier::external_body]
fn to_uppercase(c: char) -> (upper: String)
    ensures
        upper@ == spec_to_uppercase(c),
{
    c.to_uppercase().collect()
}

/// `text` with `head` in place of its first character; `head` alone for an empty
/// text.
pub open spec fn spec_replace_first(text: Seq<char>, head: Seq<char>) -> Seq<char> {
    if text.len() == 0 {
        head
    } else {
        head + text.subrange(1, text.len() as int)
    }
}

/// `text` with its first character in upper case.
pub open spec fn spec_capitalize_first_letter(text: Seq<char>) -> Seq<char> {
    if text.len() == 0 {
        text
    } else {
        spec_replace_first(text, spec_to_uppercase(text[0]))
    }
}

/// Puts `head` in place of the first character of `text`.
pub fn replace_first(text: &str, head: String) -> (replaced: String)
    ensures
        replaced@ == spec_replace_first(text@, head@),
{
    let len = text.unicode_len();
    if len == 0 {
        head
    } else {
        head.concat(text.substring_char(1, len))
    }
}

/// Puts the first character of `s` in upper case, as messages start.
pub fn capitalize_first_letter(s: &str) -> (capitalized: String)
    ensures
        capitalized@ == spec_capitalize_first_letter(s@),
{
    if s.unicode_len() == 0 {
        let empty = String::new();
        assert(empty@ =~= s@);
        empty
    } else {
        replace_first(s, to_uppercase(s.get_char(0)))
    }
}

} // verus!
