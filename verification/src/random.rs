//! The source of random identifiers, codes and seeds.

use vstd::prelude::*;

verus! {

/// `fastrand::u32` on the inclusive range from `low` to `high`: some value
/// of the range. Which one is not known, and two calls may differ.
#[verifier::external_body]
pub(crate) fn random_u32(low: u32, high: u32) -> (value: u32)
    requires
        low <= high,
    ensures
        low <= value <= high,
{
    fastrand::u32(low..=high)
}

} // verus!
