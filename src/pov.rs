//! The bound on the size of a proof of validity.
use vstd::prelude::*;

verus! {

/// Maximum size of a proof of validity, in bytes: 10 MiB.
pub const MAX_POV_SIZE: u32 = 10 * 1024 * 1024;

/// Whether a proof of `proof_size` bytes stays within the budget; a proof of
/// exactly `MAX_POV_SIZE` bytes does.
pub fn fits_pov_budget(proof_size: u64) -> (r: bool)
    ensures
        r == (proof_size <= MAX_POV_SIZE),
{
    proof_size <= MAX_POV_SIZE as u64
}

} // verus!
