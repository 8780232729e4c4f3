//! The one source of chance: where the colour wheel starts.

use vstd::prelude::*;

verus! {

/// Calls `rand::thread_rng` and, on the generator it hands out,
/// `rand::Rng::gen_range` with the range from zero up to and without
/// `bound`. The range must not be empty. The number drawn lies in it; which
/// one it is differs from call to call.
#[verifier::external_body]
pub(crate) fn random_below(bound: u64) -> (value: u64)
    requires
        bound > 0,
    ensures
        value < bound,
{
    rand::Rng::gen_range(&mut rand::thread_rng(), 0..bound)
}

} // verus!
