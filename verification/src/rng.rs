//! The one random draw the game makes: a uniform integer from a half-open
//! range, used to reset the encounter countdown and to pick an enemy species.

use rand::Rng;
use vstd::prelude::*;

verus! {

/// Relies on rand::thread_rng and rand::Rng::gen_range over an `i64` range:
/// gen_range panics on an empty range and otherwise returns a value drawn
/// uniformly from `[lo, hi)`. The draw depends on the generator's state, so
/// nothing beyond membership in the range is stated.
#[verifier::external_body]
pub(crate) fn gen_range_i64(lo: i64, hi: i64) -> (r: i64)
    requires
        lo < hi,
    ensures
        lo <= r < hi,
{
    rand::thread_rng().gen_range(lo..hi)
}

} // verus!
