//! Parameters of the derivative-of-Gaussian kernel pair. The kernel weights
//! themselves are floating point and computed by the caller; this module
//! decides which parameters may be used.

use vstd::prelude::*;
use crate::binary64::{is_positive, lt};
use crate::edge::EdgeError;

verus! {

/// Accepts a kernel `size` of at least 1 and a `sigma` (a binary64 pattern)
/// greater than zero; anything else, NaN included, is `InvalidKernel`.
pub fn check_kernel_parameters(size: usize, sigma: u64) -> (r: Result<(), EdgeError>)
    ensures
        r is Ok <==> size >= 1 && is_positive(sigma),
        r is Err ==> r == Err::<(), EdgeError>(EdgeError::InvalidKernel { size, sigma }),
{
    if size == 0 || !lt(0, sigma) {
        Err(EdgeError::InvalidKernel { size, sigma })
    } else {
        Ok(())
    }
}

} // verus!
