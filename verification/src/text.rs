//! Character and string primitives of the standard library that the tokenizer relies on.

use vstd::prelude::*;

verus! {

/// Whether `c` has the Unicode `Alphabetic` property, as `char::is_alphabetic` reports it.
pub uninterp spec fn unicode_alphabetic(c: char) -> bool;

/// Whether `c` has the Unicode `Uppercase` property, as `char::is_uppercase` reports it.
pub uninterp spec fn unicode_uppercase(c: char) -> bool;

/// Calls `char::is_alphabetic`. The Unicode tables behind it are not restated here:
/// the contract only gives the answer its name.
#[verifier::external_body]
pub(crate) fn is_alphabetic(c: char) -> (b: bool)
    ensures
        b == unicode_alphabetic(c),
{
    c.is_alphabetic()
}

/// Calls `char::is_uppercase`. The Unicode tables behind it are not restated here:
/// the contract only gives the answer its name.
#[verifier::external_body]
pub(crate) fn is_uppercase(c: char) -> (b: bool)
    ensures
        b == unicode_uppercase(c),
{
    c.is_uppercase()
}

/// Calls `String::push`, which appends one character to the end of the string.
#[verifier::external_body]
pub(crate) fn push_char(text: &mut String, c: char)
    ensures
        final(text)@ == old(text)@.push(c),
{
    text.push(c)
}

} // verus!
