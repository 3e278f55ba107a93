//! A comparison of strings that the standard library performs.

use vstd::prelude::*;

verus! {

/// `str::starts_with` of the standard library, with a string as the pattern:
/// tells whether `text` begins with `prefix`.
#[verifier::external_body]
pub(crate) fn starts_with(text: &str, prefix: &str) -> (yes: bool)
    ensures
        yes == prefix@.is_prefix_of(text@),
{
    text.starts_with(prefix)
}

} // verus!
