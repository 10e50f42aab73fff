//! Randomness, taken from the `rand` crate's thread-local generator.

use vstd::prelude::*;
use rand::Rng;
use rand::seq::SliceRandom;

verus! {

/// The thread-local random number generator of `rand`.
#[verifier::external_type_specification]
#[verifier::external_body]
pub struct ExThreadRng(rand::rngs::ThreadRng);

/// A handle on this thread's generator (`rand::thread_rng`).
/// Nothing is claimed of it.
#[verifier::external_body]
pub(crate) fn thread_rng() -> rand::rngs::ThreadRng {
    rand::thread_rng()
}

/// A random `usize` drawn from the generator (`Rng::gen::<usize>`).
/// Nothing is claimed of the number: it depends on chance.
#[verifier::external_body]
pub(crate) fn gen_usize(rng: &mut rand::rngs::ThreadRng) -> usize {
    rng.gen::<usize>()
}

/// One element of `items` picked at random (`SliceRandom::choose` on a slice).
/// Claimed, as rand's source shows: `None` exactly when `items` is empty, and
/// otherwise one of the elements of `items`.
#[verifier::external_body]
pub(crate) fn choose_char(items: &[char], rng: &mut rand::rngs::ThreadRng) -> (r: Option<char>)
    ensures
        r is None <==> items@.len() == 0,
        r matches Some(c) ==> items@.contains(c),
{
    items.choose(rng).copied()
}

} // verus!
