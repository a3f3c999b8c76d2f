use vstd::prelude::*;

verus! {

/// Draws a `usize` from `rand::random`, which samples the thread-local
/// generator. Nothing is claimed of the value: any `usize` may come back,
/// and two calls may give different values.
#[verifier::external_body]
fn rand_random_usize() -> usize {
    rand::random::<usize>()
}

/// The value the random source emits on each run: a fresh uniformly
/// drawn `usize`. Every `usize` is a possible outcome.
pub fn random_sample() -> usize {
    rand_random_usize()
}

} // verus!
