//! The monotonic clock that the attack cooldown is measured against.

use vstd::prelude::*;
use std::time::{Duration, Instant};

verus! {

/// `std::time::Instant`, a reading of the monotonic clock. Opaque: readings
/// can be stored, copied and compared for equality, nothing else.
#[verifier::external_type_specification]
#[verifier::external_body]
pub struct ExInstant(Instant);

/// `Instant::now`: the current reading of the clock. Nothing is claimed of it.
pub assume_specification[ Instant::now ]() -> Instant;

/// `Instant::elapsed`: the time that has passed since the reading was taken.
/// Nothing is claimed of it.
pub assume_specification[ Instant::elapsed ](instant: &Instant) -> Duration;

/// `Duration::as_millis`: the whole milliseconds in a duration. Nothing is
/// claimed of it.
pub assume_specification[ Duration::as_millis ](duration: &Duration) -> u128;

} // verus!
