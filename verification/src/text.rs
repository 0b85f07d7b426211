//! Building text one character at a time.

use vstd::prelude::*;

verus! {

/// `String::push` of the standard library, which appends one character to
/// the end of the string. Trusted: the contract restates its documentation.
#[verifier::external_body]
pub(crate) fn push_char(text: &mut String, c: char)
    ensures
        final(text)@ == old(text)@.push(c),
{
    text.push(c)
}

} // verus!
