//! Chance, drawn from the generator of the thread.

use vstd::prelude::*;

verus! {

/// Draws a number below `bound`.
///
/// The body calls `rand::Rng::gen_range` on `rand::thread_rng()` with the
/// range from zero to `bound`, which is not proved here. Of the number that
/// comes back only its range is known: it is at least zero and below
/// `bound`. The call panics on an empty range, which `bound > 0` rules out,
/// and when the operating system cannot seed the generator.
#[verifier::external_body]
pub(crate) fn random_below(bound: usize) -> (drawn: usize)
    requires
        bound > 0,
    ensures
        drawn < bound,
{
    rand::Rng::gen_range(&mut rand::thread_rng(), 0..bound)
}

} // verus!
