//! The random draws that the agents make.

use vstd::prelude::*;

verus! {

#[verifier::external_type_specification]
#[verifier::external_body]
pub struct ExStdRng(rand::rngs::StdRng);

/// `rand::Rng::gen_range` on the half-open range `low..high` of `u64`.
/// The call panics on an empty range, which `requires` leaves out; the
/// value it returns lies in the range. That every value of the range is
/// equally likely is not stated.
#[verifier::external_body]
pub(crate) fn between(rng: &mut rand::rngs::StdRng, low: u64, high: u64) -> (drawn: u64)
    requires
        low < high,
    ensures
        low <= drawn < high,
{
    rand::Rng::gen_range(rng, low..high)
}

/// `rand::random::<bool>`: a coin tossed by the thread's own generator, which
/// the operating system seeds at its first use. Nothing is stated of the
/// outcome.
#[verifier::external_body]
pub(crate) fn coin() -> (heads: bool) {
    rand::random::<bool>()
}

} // verus!
