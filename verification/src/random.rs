//! The random source of a column.
use vstd::prelude::*;
use rand::rngs::ThreadRng;
use rand::Rng;

verus! {

/// `rand::rngs::ThreadRng`, a handle to the random generator of a thread.
/// Nothing inside it is visible to the proofs.
#[verifier::external_type_specification]
#[verifier::external_body]
pub struct ExThreadRng(ThreadRng);

/// `rand::thread_rng`: a handle to the generator of the calling thread.
/// Nothing is claimed about its state.
pub assume_specification[ rand::thread_rng ]() -> (rng: ThreadRng);

/// Draws a number from `low..high` with `rand::Rng::gen_range`.
///
/// Trusted: the call returns, and its result lies in the range. `gen_range`
/// panics on an empty range, which `requires` leaves out. Which number of the
/// range comes is left open.
#[verifier::external_body]
pub(crate) fn random_in(rng: &mut ThreadRng, low: u64, high: u64) -> (n: u64)
    requires
        low < high,
    ensures
        low <= n < high,
{
    rng.gen_range(low..high)
}

} // verus!
