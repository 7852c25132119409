//! The one place where chance enters the library.

use vstd::prelude::*;

verus! {

/// Draws an index with `rand::random_range(0..bound)`. That function panics
/// on an empty range, so `bound` must be positive; every value it returns
/// lies in the range. Nothing else is promised: two calls may differ.
#[verifier::external_body]
pub(crate) fn random_below(bound: usize) -> (out: usize)
    requires
        bound > 0,
    ensures
        out < bound,
{
    rand::random_range(0..bound)
}

/// Draws a byte with `rand::random::<u8>()`. Any byte may come back.
#[verifier::external_body]
pub(crate) fn random_byte() -> (out: u8) {
    rand::random::<u8>()
}

} // verus!
