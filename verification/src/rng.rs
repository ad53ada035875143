//! The crate's only boundary with the rand crate: drawing uniformly
//! distributed integers for spawn positions and decoration variants.
//!
//! Nothing can be promised about an individual draw beyond its range, so
//! the callers state what holds of every outcome.

use vstd::prelude::*;
use rand::Rng;

verus! {

/// The thread-local generator type of the rand crate, opaque to the
/// verifier.
#[verifier::external_type_specification]
#[verifier::external_body]
pub struct ExThreadRng(rand::rngs::ThreadRng);

/// Relies on rand::thread_rng: a handle to the lazily seeded thread-local
/// generator.
#[verifier::external_body]
pub(crate) fn fresh_rng() -> rand::rngs::ThreadRng {
    rand::thread_rng()
}

/// Relies on rand::Rng::gen_range over the inclusive range `lo..=hi`: it
/// panics only on an empty range, and samples a value within the range.
#[verifier::external_body]
pub(crate) fn gen_range_i64(rng: &mut rand::rngs::ThreadRng, lo: i64, hi: i64) -> (r: i64)
    requires
        lo <= hi,
    ensures
        lo <= r <= hi,
{
    rng.gen_range(lo..=hi)
}

} // verus!
