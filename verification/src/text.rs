//! Small string helpers for building `String`s char by char.

use vstd::prelude::*;

verus! {

/// Appends `c` to `s` with `String::push`.
///
/// Trusted: `String::push` is documented to append the given char to the end
/// of the string; the contract states exactly that.
#[verifier::external_body]
pub(crate) fn push_char(s: &mut String, c: char)
    ensures
        final(s)@ == old(s)@.push(c),
{
    s.push(c)
}

} // verus!
