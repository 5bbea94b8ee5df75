//! Specifications of the few standard-library string operations that the
//! library calls and that vstd leaves unspecified.
use vstd::prelude::*;

verus! {

/// `String::push` appends one character to the end of the string, as its
/// documentation states.
pub assume_specification[ String::push ](s: &mut String, ch: char)
    ensures
        final(s)@ == old(s)@.push(ch),
;

/// The Unicode lower-case mapping of a string, as `str::to_lowercase`
/// computes it from the Unicode character tables.
pub uninterp spec fn lowercase_of(s: Seq<char>) -> Seq<char>;

/// Calls `str::to_lowercase`. What the result is for a given string is left
/// to the name `lowercase_of`: the mapping follows the Unicode tables and is
/// a function of the string alone.
#[verifier::external_body]
pub fn to_lowercase(s: &str) -> (r: String)
    ensures
        r@ == lowercase_of(s@),
{
    s.to_lowercase()
}

} // verus!
