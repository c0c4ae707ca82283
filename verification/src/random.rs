//! The crate's single source of randomness: a uniform draw from a closed
//! range, taken from the thread-local generator of the `rand` crate.

use rand::Rng;
use vstd::prelude::*;

verus! {

/// Relies on rand::Rng::gen_range over rand::thread_rng: a draw from the
/// nonempty closed range `lo..=hi` lies between the two bounds (the
/// method panics on an empty range, which the precondition rules out).
/// Nothing more is assumed of the draw; callers must hold for every value
/// in the range.
#[verifier::external_body]
pub(crate) fn random_in_range(lo: i64, hi: i64) -> (r: i64)
    requires
        lo <= hi,
    ensures
        lo <= r <= hi,
{
    let mut rng = rand::thread_rng();
    Rng::gen_range(&mut rng, lo..=hi)
}

} // verus!
