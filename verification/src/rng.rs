//! The library's only tie to a randomness source: one bounded draw.

use vstd::prelude::*;

verus! {

/// Relies on rand::random_range: a draw from the half-open range `0..n`
/// is some value below `n` (the call panics on an empty range, so the
/// range must be non-empty). Nothing more is promised of a random result.
#[verifier::external_body]
pub(crate) fn rand_below(n: u32) -> (r: u32)
    requires
        0 < n,
    ensures
        r < n,
{
    rand::random_range(0..n)
}

} // verus!
