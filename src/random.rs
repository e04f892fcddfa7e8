//! The source of randomness behind fresh transition tables.

use rand::Rng;
use vstd::prelude::*;

verus! {

/// Relies on `rand::Rng::gen_range` over the thread-local generator
/// (`rand::thread_rng`): a draw from the half-open range `0..bound` lies in
/// that range. `gen_range` panics on an empty range, which `requires` rules out.
#[verifier::external_body]
pub(crate) fn random_below(bound: u8) -> (r: u8)
    requires
        bound >= 1,
    ensures
        r < bound,
{
    rand::thread_rng().gen_range(0..bound)
}

} // verus!
