//! Generation of a batch of instances under a size ceiling.

use vstd::prelude::*;
use rand::rngs::StdRng;
use crate::error::GenError;
use crate::generation::game_generation;
use crate::models::{catalog_view, Pokemon, PokemonStats};
use crate::randgen::{gen_rand_pokemon, generated_from, generation_can_fail, generation_must_fail};

verus! {

/// The largest number of instances that one request may ask for.
pub const MAX_BATCH: usize = 1000;

/// Generates `numb_to_gen` instances for `game`, one after the other, from
/// the catalog `file_data`.
///
/// A request above [`MAX_BATCH`] is refused with
/// [`GenError::BatchTooLarge`] before anything is drawn. A request within
/// the ceiling is refused with [`GenError::CatalogExhausted`] as soon as one
/// of its instances is; otherwise it yields exactly `numb_to_gen` instances.
pub fn gen_pokemons(
    file_data: &[Pokemon],
    numb_to_gen: usize,
    game: String,
    egg_move_chance: usize,
    hidden_ability_chance: usize,
    shiny_chance: usize,
    maxivs: bool,
    rng: &mut StdRng,
) -> (batch: Result<Vec<PokemonStats>, GenError>)
    ensures
        numb_to_gen > MAX_BATCH ==> batch == Err::<Vec<PokemonStats>, GenError>(
            GenError::BatchTooLarge,
        ),
        numb_to_gen <= MAX_BATCH ==> match batch {
            Ok(instances) => {
                &&& instances@.len() == numb_to_gen
                &&& forall|j: int|
                    0 <= j < instances@.len() ==> generated_from(
                        (#[trigger] instances@[j])@,
                        catalog_view(file_data@),
                        game@,
                        egg_move_chance,
                        hidden_ability_chance,
                        shiny_chance,
                        maxivs,
                    )
            },
            Err(e) => {
                &&& e == GenError::CatalogExhausted
                &&& numb_to_gen > 0
                &&& generation_can_fail(
                    catalog_view(file_data@),
                    game_generation(game@),
                    hidden_ability_chance,
                )
            },
        },
        ({
            &&& 0 < numb_to_gen <= MAX_BATCH
            &&& generation_must_fail(
                catalog_view(file_data@),
                game_generation(game@),
                hidden_ability_chance,
            )
        }) ==> batch == Err::<Vec<PokemonStats>, GenError>(GenError::CatalogExhausted),
        ({
            &&& numb_to_gen <= MAX_BATCH
            &&& numb_to_gen == 0 || !generation_can_fail(
                catalog_view(file_data@),
                game_generation(game@),
                hidden_ability_chance,
            )
        }) ==> batch is Ok,
{
    if numb_to_gen > MAX_BATCH {
        return Err(GenError::BatchTooLarge);
    }
    let mut instances: Vec<PokemonStats> = Vec::new();
    let mut i: usize = 0;
    while i < numb_to_gen
        invariant
            i <= numb_to_gen <= MAX_BATCH,
            instances@.len() == i,
            forall|j: int|
                0 <= j < instances@.len() ==> generated_from(
                    (#[trigger] instances@[j])@,
                    catalog_view(file_data@),
                    game@,
                    egg_move_chance,
                    hidden_ability_chance,
                    shiny_chance,
                    maxivs,
                ),
            i > 0 ==> !generation_must_fail(
                catalog_view(file_data@),
                game_generation(game@),
                hidden_ability_chance,
            ),
        decreases numb_to_gen - i,
    {
        match gen_rand_pokemon(
            file_data,
            game.as_str(),
            egg_move_chance,
            hidden_ability_chance,
            shiny_chance,
            maxivs,
            rng,
        ) {
            Ok(stats) => {
                instances.push(stats);
            },
            Err(e) => {
                return Err(e);
            },
        }
        i += 1;
    }
    Ok(instances)
}

} // verus!
