//! Randomness, drawn from rand's thread-local generator.
use vstd::prelude::*;
use rand::Rng;
use rand::RngCore;

verus! {

/// A number below `bound`, through rand's `Rng::gen_range` on `0..bound`,
/// which panics on an empty range; nothing more is claimed of the number.
#[verifier::external_body]
pub(crate) fn random_below(bound: usize) -> (r: usize)
    requires
        bound > 0,
    ensures
        r < bound,
{
    rand::thread_rng().gen_range(0..bound)
}

/// A random `u32`, through rand's `RngCore::next_u32`.
#[verifier::external_body]
pub(crate) fn random_u32() -> u32 {
    rand::thread_rng().next_u32()
}

/// `n` random bytes, through rand's `RngCore::fill_bytes` on a buffer of `n`
/// zeros; the contract claims only the length.
#[verifier::external_body]
pub(crate) fn random_bytes(n: usize) -> (r: Vec<u8>)
    ensures
        r@.len() == n,
{
    let mut buf = vec![0u8; n];
    rand::thread_rng().fill_bytes(&mut buf);
    buf
}

} // verus!
