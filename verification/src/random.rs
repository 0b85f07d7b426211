//! The source of random bytes.

use rand::rngs::ThreadRng;
use rand::Rng;
use vstd::prelude::*;

verus! {

/// `rand::rngs::ThreadRng`, the handle to the generator that `rand` keeps for
/// each thread. Nothing is known of what it holds.
#[verifier::external_type_specification]
#[verifier::external_body]
pub struct ExThreadRng(ThreadRng);

/// `rand::rng`, which hands out the calling thread's generator. Trusted, and
/// nothing is claimed of the handle. It panics where the operating system
/// gives the generator no seed.
#[verifier::external_body]
pub(crate) fn thread_rng() -> ThreadRng {
    rand::rng()
}

/// `rand::Rng::random` at the type `u8`, which draws a byte from the uniform
/// distribution over all 256 values. Trusted, and nothing is claimed of the
/// byte: two draws may differ. It panics where the generator is due for a
/// new seed and the operating system gives it none.
#[verifier::external_body]
pub(crate) fn random_byte(rng: &mut ThreadRng) -> u8 {
    rng.random()
}

} // verus!
