//! Character classes and case mappings of the Unicode standard.
//!
//! What the standard library decides from the Unicode tables is not proved
//! here. Each answer has a name, and the contracts of this library speak of
//! these names: they say what is done with an answer, not what it is.

use vstd::prelude::*;

verus! {

/// Whether a character has the `White_Space` property.
pub uninterp spec fn unicode_whitespace(c: char) -> bool;

/// Whether a character has the `Alphabetic` property.
pub uninterp spec fn unicode_alphabetic(c: char) -> bool;

/// Whether a character is alphabetic or numeric.
pub uninterp spec fn unicode_alphanumeric(c: char) -> bool;

/// The lowercase form of a text.
pub uninterp spec fn lowercase_text(s: Seq<char>) -> Seq<char>;

/// The uppercase form of a character, which may be more than one character.
pub uninterp spec fn uppercase_char(c: char) -> Seq<char>;

/// `char::is_whitespace` tells whether the character has the `White_Space`
/// property. The answer depends on the character alone.
pub assume_specification[ char::is_whitespace ](c: char) -> (b: bool)
    ensures
        b == unicode_whitespace(c),
;

/// `char::is_alphabetic` tells whether the character has the `Alphabetic`
/// property. The answer depends on the character alone.
pub assume_specification[ char::is_alphabetic ](c: char) -> (b: bool)
    ensures
        b == unicode_alphabetic(c),
;

/// `char::is_alphanumeric` tells whether the character is alphabetic or
/// numeric. The answer depends on the character alone.
pub assume_specification[ char::is_alphanumeric ](c: char) -> (b: bool)
    ensures
        b == unicode_alphanumeric(c),
;

/// `str::to_lowercase` returns the lowercase form of the text as a new
/// string. The result depends on the text alone.
pub assume_specification[ str::to_lowercase ](s: &str) -> (lower: String)
    ensures
        lower@ == lowercase_text(s@),
;

/// `char::to_uppercase` yields the characters of the uppercase form of the
/// character, collected here in order. The result depends on the character
/// alone.
#[verifier::external_body]
pub(crate) fn uppercase_of(c: char) -> (upper: Vec<char>)
    ensures
        upper@ == uppercase_char(c),
{
    c.to_uppercase().collect()
}

} // verus!
