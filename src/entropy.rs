//! The source of randomness: rand's thread-local generator.

use rand::rngs::ThreadRng;
use rand::Rng;
use vstd::prelude::*;

verus! {

/// rand's handle on the thread-local generator, carried through opaquely.
#[verifier::external_type_specification]
#[verifier::external_body]
pub struct ExThreadRng(ThreadRng);

/// Relies on `rand::thread_rng`: it hands out the calling thread's generator.
/// Nothing is promised of the values it will produce.
pub assume_specification[ rand::thread_rng ]() -> ThreadRng;

/// Relies on rand's `Rng::gen_range`: a value drawn from `0..bound` lies in that range.
/// It panics on an empty range only, which `requires` leaves out.
#[verifier::external_body]
pub(crate) fn draw_below(rng: &mut ThreadRng, bound: u8) -> (r: u8)
    requires
        0 < bound,
    ensures
        r < bound,
{
    rng.gen_range(0..bound)
}

} // verus!
