//! Trusted boundary to the `oorandom` pseudo-random number generator.
//!
//! The generator itself is opaque: nothing here claims which value comes
//! out, only the range every outcome lies in.

use vstd::prelude::*;

verus! {

/// `oorandom::Rand32`, the PCG32 generator the game draws from. Its state
/// is opaque to the verifier; it is only carried through and handed to the
/// wrappers below.
#[verifier::external_type_specification]
#[verifier::external_body]
pub struct ExRand32(oorandom::Rand32);

/// Relies on `oorandom::Rand32::new`: builds a generator from a seed. It
/// never fails; nothing is claimed about the state it produces.
#[verifier::external_body]
pub(crate) fn rand32_new(seed: u64) -> oorandom::Rand32 {
    oorandom::Rand32::new(seed)
}

/// Relies on `oorandom::Rand32::rand_range`: for a non-empty range it
/// returns a value inside `[lo, hi)` (Lemire's rejection sampling); an
/// empty range is excluded, since the call would panic on it. Which value
/// comes back is not claimed.
#[verifier::external_body]
pub(crate) fn rand_range(rng: &mut oorandom::Rand32, lo: u32, hi: u32) -> (r: u32)
    requires
        lo < hi,
    ensures
        lo <= r < hi,
{
    rng.rand_range(lo..hi)
}

} // verus!
