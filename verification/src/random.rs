//! The library's source of chance.

use vstd::prelude::*;

verus! {

/// Calls `rand::random::<bool>()`, which draws from the thread's generator.
/// Nothing is claimed of the outcome: either value may come back, and two
/// calls need not agree.
#[verifier::external_body]
pub(crate) fn random_bool() -> (coin: bool) {
    rand::random::<bool>()
}

/// Calls `rand::random::<u64>()`, which draws from the thread's generator.
/// Nothing is claimed of the outcome: any value may come back, and two calls
/// need not differ.
#[verifier::external_body]
pub(crate) fn random_u64() -> (bits: u64) {
    rand::random::<u64>()
}

} // verus!
