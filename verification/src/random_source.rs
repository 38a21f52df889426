//! The process-wide pseudo-random source behind spawning, as trusted
//! wrappers. Nothing downstream depends on more than the stated ranges:
//! every consumer of a draw takes it as a plain argument and is verified
//! for all values the range admits.

use vstd::prelude::*;

use rand::Rng;

verus! {

/// Relies on rand::random::<bool>: a fresh draw from the thread-local
/// generator. Nothing can be promised of the outcome.
#[verifier::external_body]
pub(crate) fn random_bool() -> bool {
    rand::random()
}

/// Relies on rand::Rng::gen_range over a half-open u64 range: the result
/// is drawn from `[lo, hi)`. The range must be non-empty, or the call
/// would panic.
#[verifier::external_body]
pub(crate) fn random_in_range(lo: u64, hi: u64) -> (r: u64)
    requires
        lo < hi,
    ensures
        lo <= r < hi,
{
    rand::thread_rng().gen_range(lo..hi)
}

} // verus!
