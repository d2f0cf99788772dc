//! Overwriting memory with zeros.

use vstd::prelude::*;
use crate::model::zeros;

verus! {

/// Keeps the compiler from moving memory accesses across this point, by
/// `std::sync::atomic::compiler_fence` with sequentially consistent ordering.
///
/// It is placed after a wipe, where the zeroing stores could otherwise be
/// dropped as dead. It changes no value, so there is nothing to state about
/// it; that it neither unwinds nor opens an invariant is taken on trust.
#[verifier::external_body]
pub(crate) fn store_barrier()
    opens_invariants none
    no_unwind
{
    std::sync::atomic::compiler_fence(std::sync::atomic::Ordering::SeqCst);
}

/// Overwrites every byte of `bytes` with `value` through the slice method
/// `fill` of the standard library.
///
/// Trusted: `fill` keeps the length and leaves `value` at every position, and
/// for bytes it neither unwinds nor opens an invariant.
#[verifier::external_body]
pub(crate) fn fill_bytes(bytes: &mut Vec<u8>, value: u8)
    ensures
        final(bytes)@ == Seq::new(old(bytes)@.len(), |i: int| value),
    opens_invariants none
    no_unwind
{
    bytes.fill(value);
}

/// Overwrites every byte of `region` with zero, in place, whatever it held.
pub fn wipe(region: &mut [u8])
    ensures
        final(region)@ == zeros(old(region)@.len()),
        final(region)@.len() == old(region)@.len(),
{
    let length: usize = region.len();
    let mut done: usize = 0;
    while done < length
        invariant
            done <= length,
            length == region@.len(),
            region@.len() == old(region)@.len(),
            forall|k: int| 0 <= k < done ==> region@[k] == 0u8,
        decreases length - done,
    {
        region[done] = 0;
        done += 1;
    }
    store_barrier();
}

} // verus!
