//! Generation of one complete instance.

use vstd::prelude::*;
use rand::rngs::StdRng;
use crate::attributes::{
    gen_rand_gender, gender_of, individual_values_of, roll_individual_values, roll_nature,
    roll_shiny, shiny_of, MAX_IV, MIN_IV, NATURES,
};
use crate::error::GenError;
use crate::generation::{game_generation, resolve_generation, Generation};
use crate::models::{catalog_view, InstanceView, Pokemon, PokemonStats, SpeciesView};
use crate::abilities::{
    abilities_exist, ability_of, available_abilities, gen_rand_ability, hidden_pool_reachable,
    lemma_ability_belongs_to_species, normal_pool_reachable, NO_ABILITY,
};
use crate::moves::{
    gen_rand_moves, is_game_move, lemma_moveset_holds_game_moves, moveset_of, MOVE_SLOTS,
};
use crate::species::{select_species, species_available_at};

verus! {

/// The id that marks a move slot as empty.
pub const EMPTY_SLOT: usize = 0;

/// The four move slots that hold `moves` in order, the rest of them empty.
pub open spec fn padded_slots(moves: Seq<usize>) -> Seq<usize> {
    Seq::new(
        MOVE_SLOTS as nat,
        |i: int|
            if i < moves.len() {
                moves[i]
            } else {
                EMPTY_SLOT
            },
    )
}

/// Some draw makes the choice of an ability for `species` fail: abilities
/// exist in the generation, the normal pool can be asked, and the catalog
/// leaves it empty.
pub open spec fn ability_can_fail(
    species: SpeciesView,
    generation: Generation,
    hidden_ability_chance: usize,
) -> bool {
    &&& abilities_exist(generation)
    &&& normal_pool_reachable(species, generation, hidden_ability_chance)
    &&& available_abilities(species.normal_abilities, generation).len() == 0
}

/// Every draw makes the choice of an ability for `species` fail: it can
/// fail, and no draw sends the choice to the hidden pool.
pub open spec fn ability_must_fail(
    species: SpeciesView,
    generation: Generation,
    hidden_ability_chance: usize,
) -> bool {
    &&& ability_can_fail(species, generation, hidden_ability_chance)
    &&& !hidden_pool_reachable(species, generation, hidden_ability_chance)
}

/// `instance` is an instance of `species` that the request described by the
/// other arguments can produce.
pub open spec fn instance_of(
    instance: InstanceView,
    species: SpeciesView,
    game: Seq<char>,
    egg_move_chance: usize,
    hidden_ability_chance: usize,
    shiny_chance: usize,
    max_ivs: bool,
) -> bool {
    &&& instance.species == species.id
    &&& ability_of(instance.ability, species, game_generation(game), hidden_ability_chance)
    &&& gender_of(instance.gender, species.id)
    &&& shiny_of(instance.shiny, shiny_chance)
    &&& 1 <= instance.nature <= NATURES
    &&& individual_values_of(instance.individual_values, max_ivs)
    &&& exists|moves: Seq<usize>|
        #[trigger] moveset_of(moves, species, game, egg_move_chance) && instance.move_slots
            == padded_slots(moves)
}

/// `instance` is an instance that a request for `game` over `catalog` can
/// produce: an instance of some species of the catalog that is available in
/// the generation of the game.
pub open spec fn generated_from(
    instance: InstanceView,
    catalog: Seq<SpeciesView>,
    game: Seq<char>,
    egg_move_chance: usize,
    hidden_ability_chance: usize,
    shiny_chance: usize,
    max_ivs: bool,
) -> bool {
    exists|i: int|
        {
            &&& #[trigger] species_available_at(catalog, i, game_generation(game))
            &&& instance_of(
                instance,
                catalog[i],
                game,
                egg_move_chance,
                hidden_ability_chance,
                shiny_chance,
                max_ivs,
            )
        }
}

/// Some draw makes a request fail: the catalog holds no species for the
/// generation, or it holds one whose ability choice can fail.
pub open spec fn generation_can_fail(
    catalog: Seq<SpeciesView>,
    generation: Generation,
    hidden_ability_chance: usize,
) -> bool {
    ||| forall|i: int| !species_available_at(catalog, i, generation)
    ||| exists|i: int|
        #[trigger] species_available_at(catalog, i, generation) && ability_can_fail(
            catalog[i],
            generation,
            hidden_ability_chance,
        )
}

/// Every draw makes a request fail: the catalog holds no species for the
/// generation, or the ability choice fails for each one it holds.
pub open spec fn generation_must_fail(
    catalog: Seq<SpeciesView>,
    generation: Generation,
    hidden_ability_chance: usize,
) -> bool {
    forall|i: int| #[trigger]
        species_available_at(catalog, i, generation) ==> ability_must_fail(
            catalog[i],
            generation,
            hidden_ability_chance,
        )
}

/// Puts the selected and rolled parts together, filling the move slots that
/// `moves` leaves with [`EMPTY_SLOT`].
pub fn assemble_instance(
    species: usize,
    ability: usize,
    gender: u8,
    shiny: bool,
    nature: u8,
    individual_values: &[u8; 6],
    moves: &Vec<usize>,
) -> (stats: PokemonStats)
    ensures
        stats@ == (InstanceView {
            species,
            ability,
            gender: gender as int,
            shiny,
            nature: nature as int,
            individual_values: individual_values@.map_values(|v: u8| v as int),
            move_slots: padded_slots(moves@),
        }),
{
    let stats = PokemonStats {
        Species: species,
        Ability: ability,
        Gender: gender,
        isShiny: shiny,
        Nature: nature,
        Hp: individual_values[0],
        Atk: individual_values[1],
        Def: individual_values[2],
        SpA: individual_values[3],
        SpD: individual_values[4],
        Spe: individual_values[5],
        moveOne: slot(moves, 0),
        moveTwo: slot(moves, 1),
        moveThree: slot(moves, 2),
        moveFour: slot(moves, 3),
    };
    assert(stats@.individual_values =~= individual_values@.map_values(|v: u8| v as int));
    assert(stats@.move_slots =~= padded_slots(moves@));
    stats
}

/// The move in slot `i`, or [`EMPTY_SLOT`] where `moves` does not reach it.
pub fn slot(moves: &Vec<usize>, i: usize) -> (id: usize)
    ensures
        id == if i < moves@.len() {
            moves@[i as int]
        } else {
            EMPTY_SLOT
        },
{
    if i < moves.len() {
        moves[i]
    } else {
        EMPTY_SLOT
    }
}

/// Generates one instance for `game` from the catalog `file_data`.
///
/// The game title is resolved to its generation; a species available in that
/// generation is drawn, then its moveset and ability, then gender,
/// shininess, nature and individual values. The call is refused with
/// [`GenError::CatalogExhausted`] when the catalog has no species for the
/// generation, or no normal ability for the species drawn where one is
/// needed.
pub fn gen_rand_pokemon(
    file_data: &[Pokemon],
    game: &str,
    egg_move_chance: usize,
    hidden_ability_chance: usize,
    shiny_chance: usize,
    max_ivs: bool,
    rng: &mut StdRng,
) -> (generated: Result<PokemonStats, GenError>)
    ensures
        match generated {
            Ok(stats) => generated_from(
                stats@,
                catalog_view(file_data@),
                game@,
                egg_move_chance,
                hidden_ability_chance,
                shiny_chance,
                max_ivs,
            ),
            Err(e) => {
                &&& e == GenError::CatalogExhausted
                &&& generation_can_fail(
                    catalog_view(file_data@),
                    game_generation(game@),
                    hidden_ability_chance,
                )
            },
        },
        generation_must_fail(
            catalog_view(file_data@),
            game_generation(game@),
            hidden_ability_chance,
        ) ==> generated is Err,
        !generation_can_fail(
            catalog_view(file_data@),
            game_generation(game@),
            hidden_ability_chance,
        ) ==> generated is Ok,
{
    let generation = resolve_generation(game);
    let ghost catalog = catalog_view(file_data@);
    let index = match select_species(file_data, generation, rng) {
        Ok(index) => index,
        Err(e) => {
            return Err(e);
        },
    };
    let pokemon = &file_data[index];
    assert(catalog[index as int] == pokemon@);
    let moves = gen_rand_moves(pokemon, game, egg_move_chance, rng);
    let ability = match gen_rand_ability(pokemon, generation, hidden_ability_chance, rng) {
        Ok(ability) => ability,
        Err(e) => {
            assert(species_available_at(catalog, index as int, generation));
            return Err(e);
        },
    };
    let gender = gen_rand_gender(&pokemon.pokemon_id, rng);
    let shiny = roll_shiny(shiny_chance, rng);
    let nature = roll_nature(rng);
    let individual_values = roll_individual_values(max_ivs, rng);
    let stats = assemble_instance(
        pokemon.pokemon_id,
        ability,
        gender,
        shiny,
        nature,
        &individual_values,
        &moves,
    );
    proof {
        assert(moveset_of(moves@, pokemon@, game@, egg_move_chance));
        assert(instance_of(
            stats@,
            catalog[index as int],
            game@,
            egg_move_chance,
            hidden_ability_chance,
            shiny_chance,
            max_ivs,
        ));
        assert(species_available_at(catalog, index as int, generation));
    }
    Ok(stats)
}

/// The species of a generated instance is a species of the catalog that was
/// introduced in the generation of the game or before it: none from a later
/// generation is ever returned.
pub proof fn lemma_generated_species_is_available(
    instance: InstanceView,
    catalog: Seq<SpeciesView>,
    game: Seq<char>,
    egg_move_chance: usize,
    hidden_ability_chance: usize,
    shiny_chance: usize,
    max_ivs: bool,
)
    requires
        generated_from(
            instance,
            catalog,
            game,
            egg_move_chance,
            hidden_ability_chance,
            shiny_chance,
            max_ivs,
        ),
    ensures
        exists|i: int|
            0 <= i < catalog.len() && (#[trigger] catalog[i]).id == instance.species
                && catalog[i].introduced.rank() <= game_generation(game).rank(),
{
    let i = choose|i: int|
        {
            &&& #[trigger] species_available_at(catalog, i, game_generation(game))
            &&& instance_of(
                instance,
                catalog[i],
                game,
                egg_move_chance,
                hidden_ability_chance,
                shiny_chance,
                max_ivs,
            )
        };
    assert(catalog[i].id == instance.species);
}

/// In the first two generations every instance has [`NO_ABILITY`], whatever
/// the species and the hidden-ability chance.
pub proof fn lemma_no_ability_in_early_generations(
    instance: InstanceView,
    species: SpeciesView,
    game: Seq<char>,
    egg_move_chance: usize,
    hidden_ability_chance: usize,
    shiny_chance: usize,
    max_ivs: bool,
)
    requires
        instance_of(
            instance,
            species,
            game,
            egg_move_chance,
            hidden_ability_chance,
            shiny_chance,
            max_ivs,
        ),
        game_generation(game) == Generation::I || game_generation(game) == Generation::II,
    ensures
        instance.ability == NO_ABILITY,
{
    lemma_ability_belongs_to_species(
        instance.ability,
        species,
        game_generation(game),
        hidden_ability_chance,
    );
}

/// Each of the six individual values of an instance lies between
/// [`MIN_IV`] and [`MAX_IV`], and all six are [`MAX_IV`] where the request
/// asks for maximal values.
pub proof fn lemma_individual_values_in_range(
    instance: InstanceView,
    species: SpeciesView,
    game: Seq<char>,
    egg_move_chance: usize,
    hidden_ability_chance: usize,
    shiny_chance: usize,
    max_ivs: bool,
)
    requires
        instance_of(
            instance,
            species,
            game,
            egg_move_chance,
            hidden_ability_chance,
            shiny_chance,
            max_ivs,
        ),
    ensures
        instance.individual_values.len() == 6,
        forall|i: int| 0 <= i < 6 ==> MIN_IV <= #[trigger] instance.individual_values[i] <= MAX_IV,
        max_ivs ==> instance.individual_values =~= seq![31int, 31, 31, 31, 31, 31],
{
    if max_ivs {
        assert forall|i: int| 0 <= i < 6 implies #[trigger] instance.individual_values[i]
            == 31 by {}
    }
}

/// An instance has four move slots. A slot is empty or holds a move of the
/// species that belongs to the requested game.
pub proof fn lemma_slots_hold_game_moves(
    instance: InstanceView,
    species: SpeciesView,
    game: Seq<char>,
    egg_move_chance: usize,
    hidden_ability_chance: usize,
    shiny_chance: usize,
    max_ivs: bool,
)
    requires
        instance_of(
            instance,
            species,
            game,
            egg_move_chance,
            hidden_ability_chance,
            shiny_chance,
            max_ivs,
        ),
    ensures
        instance.move_slots.len() == MOVE_SLOTS,
        forall|s: int|
            0 <= s < MOVE_SLOTS ==> {
                ||| #[trigger] instance.move_slots[s] == EMPTY_SLOT
                ||| is_game_move(species.egg_moves, game, instance.move_slots[s])
                ||| is_game_move(species.normal_moves, game, instance.move_slots[s])
            },
{
    let moves = choose|moves: Seq<usize>|
        #[trigger] moveset_of(moves, species, game, egg_move_chance) && instance.move_slots
            == padded_slots(moves);
    lemma_moveset_holds_game_moves(moves, species, game, egg_move_chance);
    assert forall|s: int| 0 <= s < MOVE_SLOTS implies {
        ||| #[trigger] instance.move_slots[s] == EMPTY_SLOT
        ||| is_game_move(species.egg_moves, game, instance.move_slots[s])
        ||| is_game_move(species.normal_moves, game, instance.move_slots[s])
    } by {
        if s < moves.len() {
            assert(instance.move_slots[s] == moves[s]);
        }
    }
}

} // verus!
