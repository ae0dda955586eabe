//! Verified core of the QuixByte backend: account rules, credential checks,
//! session grants and the problem documents the service answers with.

use vstd::prelude::*;

pub mod auth;
pub mod credentials;
pub mod greeting;
pub mod problem;

verus! {

/// Adds two sizes.
pub fn add(left: usize, right: usize) -> (sum: usize)
    requires
        left + right <= usize::MAX,
    ensures
        sum == left + right,
{
    left + right
}

} // verus!
