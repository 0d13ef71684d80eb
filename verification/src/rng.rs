//! The pseudo-random generator used by the opponent policy, passed in
//! explicitly so that turn resolution stays reproducible.

use vstd::prelude::*;

verus! {

/// The fastrand generator, opaque to the engine: nothing is assumed
/// about the values it produces beyond the range each draw is asked for.
#[verifier::external_type_specification]
#[verifier::external_body]
pub struct ExRng(fastrand::Rng);

/// Relies on fastrand::Rng::usize: a draw from the range `0..len` lies
/// below `len`. The call panics only on an empty range, which `len >= 1`
/// rules out.
#[verifier::external_body]
pub(crate) fn random_index(rng: &mut fastrand::Rng, len: usize) -> (r: usize)
    requires
        len >= 1,
    ensures
        r < len,
{
    rng.usize(0..len)
}

} // verus!
