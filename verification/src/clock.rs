//! The monotonic clock that times the pause of a drained column.
use vstd::prelude::*;
use std::time::{Duration, Instant};

verus! {

/// `std::time::Instant`, a reading of the monotonic clock. Nothing inside it
/// is visible to the proofs.
#[verifier::external_type_specification]
#[verifier::external_body]
pub struct ExInstant(Instant);

/// `Instant::now`: the current reading of the monotonic clock. Nothing is
/// claimed of the reading.
pub assume_specification[ Instant::now ]() -> (now: Instant);

/// `Instant::elapsed`: the time since the reading was taken. Nothing is
/// claimed of its length.
pub assume_specification[ Instant::elapsed ](start: &Instant) -> (passed: Duration);

/// `Duration::as_millis`: the whole milliseconds in the duration. Nothing is
/// claimed of their number.
pub assume_specification[ Duration::as_millis ](duration: &Duration) -> (millis: u128);

/// A millisecond count as `u64`, with counts beyond `u64::MAX` held at it.
pub open spec fn clamped(millis: u128) -> u64 {
    if millis > u64::MAX {
        u64::MAX
    } else {
        millis as u64
    }
}

/// Narrows a millisecond count to `u64`, saturating.
pub fn clamp_millis(millis: u128) -> (ms: u64)
    ensures
        ms == clamped(millis),
{
    if millis > u64::MAX as u128 {
        u64::MAX
    } else {
        millis as u64
    }
}

/// Milliseconds on the monotonic clock since `start`, held at `u64::MAX`.
pub(crate) fn millis_since(start: &Instant) -> (ms: u64) {
    let passed = start.elapsed();
    clamp_millis(passed.as_millis())
}

} // verus!
