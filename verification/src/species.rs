//! Selection of the species of an instance.

use vstd::prelude::*;
use rand::rngs::StdRng;
use crate::dice::choose_position;
use crate::error::GenError;
use crate::generation::{convert_gen, is_available, spec_is_available, Generation};
use crate::models::{catalog_view, Pokemon, SpeciesView};
use crate::pools::pick_entry;

verus! {

/// Position `i` of `catalog` holds a species that is available in
/// `generation`.
pub open spec fn species_available_at(
    catalog: Seq<SpeciesView>,
    i: int,
    generation: Generation,
) -> bool {
    0 <= i < catalog.len() && spec_is_available(catalog[i].introduced, generation)
}

/// Collects the positions of the species that are available in `generation`,
/// in catalog order.
pub fn available_species(catalog: &[Pokemon], generation: Generation) -> (eligible: Vec<usize>)
    ensures
        forall|k: int|
            0 <= k < eligible@.len() ==> species_available_at(
                catalog_view(catalog@),
                #[trigger] eligible@[k] as int,
                generation,
            ),
        forall|j: int, k: int| 0 <= j < k < eligible@.len() ==> eligible@[j] < eligible@[k],
        forall|i: int| #[trigger]
            species_available_at(catalog_view(catalog@), i, generation) ==> eligible@.contains(
                i as usize,
            ),
{
    let mut eligible: Vec<usize> = Vec::new();
    let ghost views = catalog_view(catalog@);
    let mut i: usize = 0;
    while i < catalog.len()
        invariant
            i <= catalog.len(),
            views == catalog_view(catalog@),
            forall|k: int|
                0 <= k < eligible@.len() ==> eligible@[k] < i && species_available_at(
                    views,
                    #[trigger] eligible@[k] as int,
                    generation,
                ),
            forall|j: int, k: int| 0 <= j < k < eligible@.len() ==> eligible@[j] < eligible@[k],
            forall|p: int|
                p < i && #[trigger] species_available_at(views, p, generation)
                    ==> eligible@.contains(p as usize),
        decreases catalog.len() - i,
    {
        let ghost before = eligible@;
        if is_available(convert_gen(catalog[i].pokemon_gen.as_str()), generation) {
            eligible.push(i);
            assert(eligible@[before.len() as int] == i);
        }
        assert forall|p: int|
            p < i + 1 && #[trigger] species_available_at(
                views,
                p,
                generation,
            ) implies eligible@.contains(p as usize) by {
            if p < i {
                let k = choose|k: int| 0 <= k < before.len() && before[k] == p as usize;
                assert(eligible@[k] == p as usize);
            }
        }
        i += 1;
    }
    eligible
}

/// Draws a species that is available in `generation` and returns its
/// position in `catalog`.
///
/// The call is refused with [`GenError::CatalogExhausted`] exactly when the
/// catalog holds no species for the generation.
pub fn select_species(catalog: &[Pokemon], generation: Generation, rng: &mut StdRng) -> (species:
    Result<usize, GenError>)
    ensures
        match species {
            Ok(i) => species_available_at(catalog_view(catalog@), i as int, generation),
            Err(e) => {
                &&& e == GenError::CatalogExhausted
                &&& forall|i: int| !species_available_at(catalog_view(catalog@), i, generation)
            },
        },
{
    let eligible = available_species(catalog, generation);
    let position = choose_position(rng, eligible.len());
    let species = pick_entry(&eligible, position);
    proof {
        if species is Err {
            assert forall|i: int| !species_available_at(
                catalog_view(catalog@),
                i,
                generation,
            ) by {
                if species_available_at(catalog_view(catalog@), i, generation) {
                    assert(eligible@.contains(i as usize));
                }
            }
        }
    }
    species
}

} // verus!
