//! The random decisions of the simulation, drawn from the thread-local
//! generator of the `rand` crate.
//!
//! Rates are counted in thousandths: a rate of `RATE_SCALE` always succeeds, a
//! rate of zero never does.

use vstd::prelude::*;
use rand::rngs::ThreadRng;
use rand::Rng;

verus! {

/// The rate that stands for certainty.
pub const RATE_SCALE: u32 = 1000;

/// `rand::rngs::ThreadRng`, a handle to the thread-local generator. Opaque.
#[verifier::external_type_specification]
#[verifier::external_body]
pub struct ExThreadRng(ThreadRng);

/// `rand::thread_rng`: a handle to the thread-local generator. Nothing is
/// claimed of it.
pub assume_specification[ rand::thread_rng ]() -> ThreadRng;

/// Calls `Rng::gen_ratio`: one trial that succeeds with probability
/// `numerator / denominator`.
///
/// Trusted: the trial always succeeds when the two numbers are equal and never
/// when the numerator is zero; `gen_ratio` panics on the ratios that `requires`
/// excludes. Nothing else is claimed of the outcome.
#[verifier::external_body]
pub(crate) fn chance(random: &mut ThreadRng, numerator: u32, denominator: u32) -> (success: bool)
    requires
        0 < denominator,
        numerator <= denominator,
    ensures
        numerator == denominator ==> success,
        numerator == 0 ==> !success,
{
    random.gen_ratio(numerator, denominator)
}

/// Calls `Rng::gen_range` with the inclusive range from `low` to `high`.
///
/// Trusted: the number drawn lies in that range; `gen_range` panics on the
/// empty ranges that `requires` excludes.
#[verifier::external_body]
pub(crate) fn pick_between(random: &mut ThreadRng, low: i64, high: i64) -> (picked: i64)
    requires
        low <= high,
    ensures
        low <= picked <= high,
{
    random.gen_range(low..=high)
}

} // verus!
