//! Drawing entries from a pool of ids without replacement.

use vstd::prelude::*;
use crate::error::GenError;

verus! {

/// The smaller of two lengths.
pub open spec fn smaller(a: int, b: int) -> int {
    if a <= b {
        a
    } else {
        b
    }
}

/// The entries of `pool` at `positions`, in the order of `positions`.
pub open spec fn picks(pool: Seq<usize>, positions: Seq<usize>) -> Seq<usize> {
    Seq::new(positions.len(), |i: int| pool[positions[i] as int])
}

/// `positions` are pairwise distinct positions of a pool of `len` entries.
pub open spec fn distinct_positions(positions: Seq<usize>, len: nat) -> bool {
    &&& positions.no_duplicates()
    &&& forall|i: int| 0 <= i < positions.len() ==> positions[i] < len
}

/// `picked` was drawn from `pool` without replacement: it lists the entries
/// at some pairwise distinct positions of `pool`.
pub open spec fn drawn_from(picked: Seq<usize>, pool: Seq<usize>) -> bool {
    exists|positions: Seq<usize>|
        distinct_positions(positions, pool.len()) && picked == #[trigger] picks(pool, positions)
}

/// Reads the entries of `pool` at `positions`.
pub fn pick_at(pool: &Vec<usize>, positions: &Vec<usize>) -> (picked: Vec<usize>)
    requires
        forall|i: int| 0 <= i < positions@.len() ==> positions@[i] < pool@.len(),
    ensures
        picked@ == picks(pool@, positions@),
{
    let mut picked: Vec<usize> = Vec::new();
    let mut i: usize = 0;
    while i < positions.len()
        invariant
            i <= positions.len(),
            forall|j: int| 0 <= j < positions@.len() ==> positions@[j] < pool@.len(),
            picked@ == picks(pool@, positions@.take(i as int)),
        decreases positions.len() - i,
    {
        assert(picks(pool@, positions@.take(i + 1)) =~= picks(pool@, positions@.take(i as int)).push(
            pool@[positions@[i as int] as int],
        ));
        picked.push(pool[positions[i]]);
        i += 1;
    }
    assert(positions@.take(positions.len() as int) =~= positions@);
    picked
}

/// The entry of `pool` that a random choice fell on, or the refusal that an
/// empty pool calls for.
pub fn pick_entry(pool: &Vec<usize>, position: Option<usize>) -> (entry: Result<usize, GenError>)
    requires
        position matches Some(p) ==> p < pool@.len(),
    ensures
        entry == match position {
            Some(p) => Ok::<usize, GenError>(pool@[p as int]),
            None => Err::<usize, GenError>(GenError::CatalogExhausted),
        },
{
    match position {
        Some(p) => Ok(pool[p]),
        None => Err(GenError::CatalogExhausted),
    }
}

/// Pairwise distinct positions of a pool are no more than the pool has
/// entries.
pub proof fn lemma_distinct_positions_fit(positions: Seq<usize>, len: nat)
    requires
        distinct_positions(positions, len),
    ensures
        positions.len() <= len,
{
    let below = Set::new(|p: int| 0 <= p < len);
    vstd::set_lib::lemma_int_range(0, len as int);
    assert(below =~= vstd::set_lib::set_int_range(0, len as int));
    let as_ints = positions.map_values(|p: usize| p as int);
    assert(as_ints.no_duplicates()) by {
        assert forall|i: int, j: int|
            0 <= i < as_ints.len() && 0 <= j < as_ints.len() && i != j implies as_ints[i]
            != as_ints[j] by {
            assert(positions[i] != positions[j]);
        }
    }
    as_ints.unique_seq_to_set();
    assert(as_ints.to_set().subset_of(below)) by {
        assert forall|p: int| as_ints.to_set().contains(p) implies below.contains(p) by {
            let i = choose|i: int| 0 <= i < as_ints.len() && as_ints[i] == p;
            assert(positions[i] < len);
        }
    }
    vstd::set_lib::lemma_len_subset(as_ints.to_set(), below);
}

/// Whatever is drawn from a pool is an entry of the pool, and no more
/// entries are drawn than the pool holds.
pub proof fn lemma_drawn_entries_are_in_pool(picked: Seq<usize>, pool: Seq<usize>)
    requires
        drawn_from(picked, pool),
    ensures
        picked.len() <= pool.len(),
        forall|i: int| 0 <= i < picked.len() ==> pool.contains(#[trigger] picked[i]),
{
    let positions = choose|positions: Seq<usize>|
        distinct_positions(positions, pool.len()) && picked == #[trigger] picks(pool, positions);
    assert forall|i: int| 0 <= i < picked.len() implies pool.contains(#[trigger] picked[i]) by {
        assert(picked[i] == pool[positions[i] as int]);
    }
    lemma_distinct_positions_fit(positions, pool.len());
}

} // verus!
