use vstd::prelude::*;

pub mod memfd_rb;
pub mod safeappdb;

verus! {

/// Adds two integers.
pub fn add(left: u64, right: u64) -> (sum: u64)
    requires
        left + right <= u64::MAX,
    ensures
        sum == left + right,
{
    left + right
}

} // verus!
