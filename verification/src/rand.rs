use vstd::prelude::*;

verus! {

/// A source of random integers, such as a thread-local RNG or a fixed value
/// in tests.
pub trait RandSource<T> {
    /// Returns a random value.
    fn rand(&self) -> T;
}

/// Draws a `u64` from the thread-local generator with `rand::random`; the
/// value is random, so nothing is stated of it.
#[verifier::external_body]
fn thread_random_u64() -> u64 {
    ::rand::random::<u64>()
}

/// Draws a `u128` from the thread-local generator with `rand::random`; the
/// value is random, so nothing is stated of it.
#[verifier::external_body]
fn thread_random_u128() -> u128 {
    ::rand::random::<u128>()
}

/// A random source backed by the thread-local generator of the `rand` crate.
#[derive(Clone, Copy, Debug, Default)]
pub struct ThreadRandom;

impl RandSource<u64> for ThreadRandom {
    fn rand(&self) -> u64 {
        thread_random_u64()
    }
}

impl RandSource<u128> for ThreadRandom {
    fn rand(&self) -> u128 {
        thread_random_u128()
    }
}

} // verus!
