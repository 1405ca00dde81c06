//! The one source of chance in the library: a generator seeded by the
//! operating system, and bounded draws from it.

use vstd::prelude::*;
use rand::Rng;
use rand::SeedableRng;

verus! {

/// `rand::rngs::StdRng`, carried as an opaque value: nothing is known of
/// what is inside.
#[verifier::external_type_specification]
#[verifier::external_body]
pub struct ExStdRng(rand::rngs::StdRng);

/// Calls `rand::SeedableRng::from_entropy` for `rand::rngs::StdRng`.
/// Nothing is claimed of the generator that comes back. The call panics
/// if the operating system cannot provide entropy.
#[verifier::external_body]
pub(crate) fn fresh_generator() -> (g: rand::rngs::StdRng) {
    rand::rngs::StdRng::from_entropy()
}

/// Calls `rand::Rng::gen_range` with the half-open range `0..bound`.
/// The range is not empty, so the call does not panic, and the value
/// drawn lies inside the range; which value it is, is left open.
#[verifier::external_body]
pub(crate) fn draw_below(generator: &mut rand::rngs::StdRng, bound: usize) -> (r: usize)
    requires
        bound > 0,
    ensures
        r < bound,
{
    generator.gen_range(0..bound)
}

} // verus!
