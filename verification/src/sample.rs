//! The function under test in the samples: scripts generate one test of it
//! for each case.

use vstd::prelude::*;

verus! {

/// The sum of two sizes.
pub fn add(left: usize, right: usize) -> (sum: usize)
    requires
        left + right <= usize::MAX,
    ensures
        sum == left + right,
{
    left + right
}

} // verus!
