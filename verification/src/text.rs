//! A small string-building helper for diagnostic messages.

use vstd::prelude::*;

verus! {

/// Relies on `String::push_str`: appends the characters of `t` to `s`.
#[verifier::external_body]
pub(crate) fn push_str(s: &mut String, t: &str)
    ensures
        final(s)@ == old(s)@ + t@,
{
    s.push_str(t)
}

} // verus!
