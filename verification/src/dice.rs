//! The random draws the generator is built on.
//!
//! The functions of this module call into the `rand` crate. Their bodies are
//! not verified: each contract records what `rand` documents about the call,
//! and holds for every value the generator may produce.

use vstd::prelude::*;
use rand::distributions::Uniform;
use rand::rngs::StdRng;
use rand::seq::IteratorRandom;
use rand::Rng;

verus! {

/// `rand::rngs::StdRng`, the seedable generator that every selection and
/// roll receives explicitly. Its state is opaque to the contracts.
#[verifier::external_type_specification]
#[verifier::external_body]
pub struct ExStdRng(rand::rngs::StdRng);

/// The largest number of positions [`choose_positions`] is asked for.
pub const MAX_POSITIONS: usize = 4;

/// Calls `Rng::gen_range(low, high)`.
///
/// `rand` documents the result as a value of the half-open range
/// `[low, high)`, and a panic when `low >= high`.
#[verifier::external_body]
pub(crate) fn draw_in_range(rng: &mut StdRng, low: usize, high: usize) -> (draw: usize)
    requires
        low < high,
    ensures
        low <= draw < high,
{
    rng.gen_range(low, high)
}

/// Calls `Rng::sample` with the distribution `Uniform::new(low, high)`.
///
/// `rand` documents the distribution as sampling from the half-open range
/// `[low, high)`, and its construction as panicking when `low >= high`.
#[verifier::external_body]
pub(crate) fn sample_uniform(rng: &mut StdRng, low: u8, high: u8) -> (sample: u8)
    requires
        low < high,
    ensures
        low <= sample < high,
{
    rng.sample(Uniform::new(low, high))
}

/// Calls `IteratorRandom::choose` on the positions `0..len`.
///
/// `rand` documents the result as one element of the iterator, and as `None`
/// if and only if the iterator is empty.
#[verifier::external_body]
pub(crate) fn choose_position(rng: &mut StdRng, len: usize) -> (position: Option<usize>)
    ensures
        position is None <==> len == 0,
        position matches Some(p) ==> p < len,
{
    (0..len).choose(rng)
}

/// Calls `IteratorRandom::choose_multiple` on the positions `0..len`.
///
/// `rand` documents the result as `amount` elements collected from the
/// iterator, or all of them when the iterator yields fewer than `amount`, in
/// an order that is neither stable nor fully random. Each element of the
/// iterator is collected at most once, so the positions are pairwise
/// distinct. The call reserves room for `amount` elements up front, which is
/// why `amount` is bounded here.
#[verifier::external_body]
pub(crate) fn choose_positions(rng: &mut StdRng, len: usize, amount: usize) -> (positions: Vec<
    usize,
>)
    requires
        amount <= MAX_POSITIONS,
    ensures
        positions@.len() == if amount <= len { amount } else { len },
        forall|i: int| 0 <= i < positions@.len() ==> positions@[i] < len,
        positions@.no_duplicates(),
{
    (0..len).choose_multiple(rng, amount)
}

} // verus!
