//! The fixed-capacity sample buffer and its trusted interface.
//!
//! Samples are stored in `heapless::Vec`, the fixed-capacity vector the
//! driver stack uses, so no buffer is ever reallocated in steady state.
//! The verifier sees that type as opaque: `samples_of` names what a buffer
//! holds, and the small trusted wrappers below state what each operation
//! does to it, as the vector's source shows.

use vstd::prelude::*;

verus! {

/// Samples gathered per second.
pub const SAMPLE_RATE_HZ: usize = 200;

/// Seconds of samples gathered into one buffer before it is handed off.
pub const PUBLISH_PERIOD_S: usize = 10;

/// Number of samples one buffer holds: one publish period at the sample
/// rate.
pub const BUFFER_CAPACITY: usize = SAMPLE_RATE_HZ * PUBLISH_PERIOD_S;

#[verifier::external_type_specification]
#[verifier::external_body]
#[verifier::reject_recursive_types(T)]
pub struct ExHeaplessVec<T, const N: usize>(heapless::Vec<T, N>);

/// One buffer of millivolt samples, fixed at `BUFFER_CAPACITY`.
pub type SampleBuffer = heapless::Vec<u16, BUFFER_CAPACITY>;

/// The samples a buffer holds, oldest first.
pub uninterp spec fn samples_of(b: SampleBuffer) -> Seq<u16>;

/// Relies on `heapless::Vec::new`: a new vector is empty.
#[verifier::external_body]
pub(crate) fn buffer_new() -> (b: SampleBuffer)
    ensures
        samples_of(b) == Seq::<u16>::empty(),
{
    heapless::Vec::new()
}

/// Relies on `heapless::Vec::push`: appends the item when the length is
/// below the fixed capacity, and otherwise hands the item back and leaves
/// the vector unchanged.
#[verifier::external_body]
pub(crate) fn buffer_push(b: &mut SampleBuffer, v: u16) -> (accepted: bool)
    ensures
        samples_of(*old(b)).len() < BUFFER_CAPACITY ==> accepted
            && samples_of(*final(b)) == samples_of(*old(b)).push(v),
        samples_of(*old(b)).len() >= BUFFER_CAPACITY ==> !accepted
            && samples_of(*final(b)) == samples_of(*old(b)),
{
    match b.push(v) {
        Ok(()) => true,
        Err(_) => false,
    }
}

/// Relies on `heapless::Vec::len`: the number of samples held.
#[verifier::external_body]
pub(crate) fn buffer_len(b: &SampleBuffer) -> (n: usize)
    ensures
        n == samples_of(*b).len(),
{
    b.len()
}

/// Relies on `heapless::Vec::clear`: removes every sample.
#[verifier::external_body]
pub(crate) fn buffer_clear(b: &mut SampleBuffer)
    ensures
        samples_of(*final(b)) == Seq::<u16>::empty(),
{
    b.clear()
}

/// Relies on `heapless::Vec::as_slice`: the stored samples, oldest first.
#[verifier::external_body]
pub(crate) fn buffer_to_vec(b: &SampleBuffer) -> (v: Vec<u16>)
    ensures
        v@ == samples_of(*b),
{
    b.as_slice().to_vec()
}

} // verus!
