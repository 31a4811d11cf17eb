//! Drawing heights from the thread-local random generator.
use rand::Rng;
use vstd::prelude::*;

verus! {

#[verifier::external_type_specification]
#[verifier::external_body]
pub struct ExThreadRng(rand::rngs::ThreadRng);

/// Relies on `rand::thread_rng`: a handle to this thread's generator.
#[verifier::external_body]
pub(crate) fn thread_rng() -> (r: rand::rngs::ThreadRng) {
    rand::thread_rng()
}

/// Relies on `rand::Rng::gen_range` with an exclusive range: the value lies
/// in `0..high`; the call panics on an empty range, which `requires` rules
/// out.
#[verifier::external_body]
pub(crate) fn draw_below(rng: &mut rand::rngs::ThreadRng, high: i64) -> (r: i64)
    requires
        0 < high,
    ensures
        0 <= r < high,
{
    rng.gen_range(0..high)
}

} // verus!
