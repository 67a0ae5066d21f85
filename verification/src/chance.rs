//! Chances given in percent, and the draws they are tried on.

use vstd::prelude::*;
use rand::rngs::StdRng;
use crate::dice::draw_in_range;

verus! {

/// Percent draws are taken from `0..PERCENT_DRAWS`, that is from 0 to 100
/// inclusive.
pub const PERCENT_DRAWS: usize = 101;

/// A chance given in percent succeeds on a draw that lies strictly below it.
pub open spec fn chance_hits(draw: usize, chance_percent: usize) -> bool {
    draw < chance_percent
}

/// The number of draws below `chance_percent` among `draws`.
pub open spec fn successes(draws: Seq<usize>, chance_percent: usize) -> nat {
    draws.filter(|d: usize| chance_hits(d, chance_percent)).len()
}

/// Whether a chance given in percent succeeds on `draw`.
pub fn trial_succeeds(draw: usize, chance_percent: usize) -> (hit: bool)
    ensures
        hit == chance_hits(draw, chance_percent),
{
    draw < chance_percent
}

/// Counts the draws on which a chance of `chance_percent` succeeds.
pub fn count_successes(draws: &Vec<usize>, chance_percent: usize) -> (count: usize)
    ensures
        count == successes(draws@, chance_percent),
        count <= draws@.len(),
{
    let mut count: usize = 0;
    let mut i: usize = 0;
    assert(draws@.take(0) =~= Seq::<usize>::empty());
    proof {
        reveal(Seq::filter);
    }
    while i < draws.len()
        invariant
            i <= draws.len(),
            count == successes(draws@.take(i as int), chance_percent),
            count <= i,
        decreases draws.len() - i,
    {
        proof {
            let seen = draws@.take(i as int);
            assert(draws@.take(i + 1) =~= seen.push(draws@[i as int]));
            seen.lemma_filter_push(draws@[i as int], |d: usize| chance_hits(d, chance_percent));
        }
        if trial_succeeds(draws[i], chance_percent) {
            count += 1;
        }
        i += 1;
    }
    assert(draws@.take(draws.len() as int) =~= draws@);
    count
}

/// Draws one number from 0 to 100 inclusive.
pub fn roll_percent(rng: &mut StdRng) -> (draw: usize)
    ensures
        draw < PERCENT_DRAWS,
{
    draw_in_range(rng, 0, PERCENT_DRAWS)
}

/// Draws `trials` numbers from 0 to 100 inclusive, one after the other.
pub fn roll_trials(rng: &mut StdRng, trials: usize) -> (draws: Vec<usize>)
    ensures
        draws@.len() == trials,
        forall|i: int| 0 <= i < draws@.len() ==> draws@[i] < PERCENT_DRAWS,
{
    let mut draws: Vec<usize> = Vec::new();
    let mut i: usize = 0;
    while i < trials
        invariant
            i <= trials,
            draws@.len() == i,
            forall|j: int| 0 <= j < draws@.len() ==> draws@[j] < PERCENT_DRAWS,
        decreases trials - i,
    {
        let draw = roll_percent(rng);
        draws.push(draw);
        i += 1;
    }
    draws
}

/// A chance of zero succeeds on no draw, and a chance succeeds on every
/// draw that is smaller than it: one of a hundred percent on every draw but
/// the largest, one above a hundred on all of them.
pub proof fn lemma_chance_extremes(draw: usize, chance_percent: usize)
    requires
        draw < PERCENT_DRAWS,
    ensures
        !chance_hits(draw, 0),
        draw < chance_percent ==> chance_hits(draw, chance_percent),
        draw != 100 ==> chance_hits(draw, 100),
        chance_percent >= PERCENT_DRAWS ==> chance_hits(draw, chance_percent),
{
}

/// A chance of zero never succeeds, whatever was drawn.
pub proof fn lemma_zero_chance_never_hits(draws: Seq<usize>)
    ensures
        successes(draws, 0) == 0,
    decreases draws.len(),
{
    reveal(Seq::filter);
    if draws.len() > 0 {
        lemma_zero_chance_never_hits(draws.drop_last());
    }
}

/// Where every draw lies below the chance, every trial succeeds.
pub proof fn lemma_all_draws_below_chance(draws: Seq<usize>, chance_percent: usize)
    requires
        forall|i: int| 0 <= i < draws.len() ==> draws[i] < chance_percent,
    ensures
        successes(draws, chance_percent) == draws.len(),
    decreases draws.len(),
{
    reveal(Seq::filter);
    if draws.len() > 0 {
        lemma_all_draws_below_chance(draws.drop_last(), chance_percent);
    }
}

} // verus!
