//! Conversion from the editable character buffer to an owned string.

use vstd::prelude::*;

verus! {

/// Relies on `String`'s `FromIterator<&char>` implementation: collecting an
/// iterator of characters builds the string of exactly those characters, in
/// order.
#[verifier::external_body]
pub(crate) fn chars_to_string(chars: &Vec<char>) -> (s: String)
    ensures
        s@ == chars@,
{
    chars.iter().collect()
}

} // verus!
