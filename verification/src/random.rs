//! The generator that food placement draws from.
//!
//! Nothing here is proved: these items state what the `rand` crate is taken
//! to do, and the proofs elsewhere rest on them.

use rand::rngs::ThreadRng;
use rand::Rng;
use vstd::prelude::*;

verus! {

/// `rand::rngs::ThreadRng`, the handle to the calling thread's generator.
/// Its inside is not modelled.
#[verifier::external_type_specification]
#[verifier::external_body]
pub struct ExThreadRng(rand::rngs::ThreadRng);

/// `rand::thread_rng` hands out the calling thread's generator, which the
/// system seeds on first use. Nothing is claimed of the handle it returns.
/// No argument decides whether it returns: it fails only where the system
/// cannot seed the generator.
pub assume_specification[ rand::thread_rng ]() -> (rng: ThreadRng);

/// `rand::Rng::gen_range` on the inclusive range `low..=high`. It panics on
/// an empty range, so `low <= high` is asked for; the number it returns
/// lies in the range. Which number comes is left open, and two draws need
/// not agree.
#[verifier::external_body]
pub(crate) fn gen_range_inclusive(rng: &mut ThreadRng, low: i32, high: i32) -> (r: i32)
    requires
        low <= high,
    ensures
        low <= r <= high,
{
    rng.gen_range(low..=high)
}

} // verus!
