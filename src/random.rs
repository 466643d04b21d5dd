//! Random draws for serves and rebounds.
use vstd::prelude::*;

verus! {

/// Relies on `rand::thread_rng` and `rand::Rng::gen_range` (rand 0.7): a number drawn from
/// `lo..hi`, the upper bound excluded; `gen_range` panics unless `lo < hi`.
#[verifier::external_body]
pub(crate) fn random_between(lo: i64, hi: i64) -> (r: i64)
    requires
        lo < hi,
    ensures
        lo <= r < hi,
{
    rand::Rng::gen_range(&mut rand::thread_rng(), lo, hi)
}

} // verus!
