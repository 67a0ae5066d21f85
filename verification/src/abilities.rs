//! Selection of the ability of an instance.

use vstd::prelude::*;
use rand::rngs::StdRng;
use crate::chance::{chance_hits, roll_percent, trial_succeeds, PERCENT_DRAWS};
use crate::dice::choose_position;
use crate::error::GenError;
use crate::generation::{convert_gen, is_available, spec_is_available, Generation};
use crate::models::{ability_views, Ability, AbilityView, Pokemon, SpeciesView};
use crate::pools::pick_entry;

verus! {

/// The ability id of instances in generations that have no abilities.
pub const NO_ABILITY: usize = 0;

/// Abilities are a mechanic from the third generation onward.
pub open spec fn abilities_exist(generation: Generation) -> bool {
    generation.rank() >= Generation::III.rank()
}

/// Hidden abilities are a mechanic from the fifth generation onward.
pub open spec fn hidden_abilities_exist(generation: Generation) -> bool {
    generation.rank() >= Generation::V.rank()
}

/// Ids of the abilities among `abilities` that are available in `generation`,
/// in catalog order.
pub open spec fn available_abilities(abilities: Seq<AbilityView>, generation: Generation) -> Seq<
    usize,
> {
    abilities.filter(|a: AbilityView| spec_is_available(a.introduced, generation)).map_values(
        |a: AbilityView| a.id,
    )
}

/// `id` is the id of an ability among `abilities` that is available in
/// `generation`.
pub open spec fn is_available_ability(
    abilities: Seq<AbilityView>,
    generation: Generation,
    id: usize,
) -> bool {
    exists|j: int|
        0 <= j < abilities.len() && #[trigger] abilities[j].id == id && spec_is_available(
            abilities[j].introduced,
            generation,
        )
}

/// Whether the ability is taken from the hidden pool: the chance trial
/// succeeded, the generation knows hidden abilities, and the species has one
/// that is available.
pub open spec fn takes_hidden_ability(
    draw: usize,
    hidden_ability_chance: usize,
    generation: Generation,
    hidden_pool_len: nat,
) -> bool {
    &&& chance_hits(draw, hidden_ability_chance)
    &&& hidden_abilities_exist(generation)
    &&& hidden_pool_len > 0
}

/// Some draw sends the choice to the hidden pool: the chance is positive,
/// the generation knows hidden abilities, and the species has one available.
pub open spec fn hidden_pool_reachable(
    species: SpeciesView,
    generation: Generation,
    hidden_ability_chance: usize,
) -> bool {
    &&& hidden_ability_chance > 0
    &&& hidden_abilities_exist(generation)
    &&& available_abilities(species.hidden_abilities, generation).len() > 0
}

/// Some draw sends the choice to the normal pool: this fails only where the
/// hidden pool is eligible and the chance exceeds every draw.
pub open spec fn normal_pool_reachable(
    species: SpeciesView,
    generation: Generation,
    hidden_ability_chance: usize,
) -> bool {
    !(hidden_ability_chance >= PERCENT_DRAWS && hidden_pool_reachable(
        species,
        generation,
        hidden_ability_chance,
    ))
}

/// `ability` is an ability id that [`gen_rand_ability`] can return for
/// `species` in `generation` at the given hidden-ability chance.
pub open spec fn ability_of(
    ability: usize,
    species: SpeciesView,
    generation: Generation,
    hidden_ability_chance: usize,
) -> bool {
    if abilities_exist(generation) {
        ||| {
            &&& normal_pool_reachable(species, generation, hidden_ability_chance)
            &&& available_abilities(species.normal_abilities, generation).contains(ability)
        }
        ||| {
            &&& hidden_pool_reachable(species, generation, hidden_ability_chance)
            &&& available_abilities(species.hidden_abilities, generation).contains(ability)
        }
    } else {
        ability == NO_ABILITY
    }
}

/// Whether abilities are a mechanic in `generation`.
pub fn has_abilities(generation: Generation) -> (exist: bool)
    ensures
        exist == abilities_exist(generation),
{
    generation.ordinal() >= Generation::III.ordinal()
}

/// Whether hidden abilities are a mechanic in `generation`.
pub fn has_hidden_abilities(generation: Generation) -> (exist: bool)
    ensures
        exist == hidden_abilities_exist(generation),
{
    generation.ordinal() >= Generation::V.ordinal()
}

/// Collects the ids of the abilities that are available in `generation`.
pub fn abilities_for_generation(abilities: &Vec<Ability>, generation: Generation) -> (pool: Vec<
    usize,
>)
    ensures
        pool@ == available_abilities(ability_views(abilities@), generation),
{
    let mut pool: Vec<usize> = Vec::new();
    let ghost views = ability_views(abilities@);
    let mut i: usize = 0;
    assert(views.take(0) =~= Seq::<AbilityView>::empty());
    proof {
        reveal(Seq::filter);
    }
    while i < abilities.len()
        invariant
            i <= abilities.len(),
            views == ability_views(abilities@),
            pool@ == available_abilities(views.take(i as int), generation),
        decreases abilities.len() - i,
    {
        proof {
            let seen = views.take(i as int);
            assert(views.take(i + 1) =~= seen.push(abilities@[i as int]@));
            let keep = |a: AbilityView| spec_is_available(a.introduced, generation);
            seen.lemma_filter_push(abilities@[i as int]@, keep);
            let kept = seen.filter(keep);
            assert(kept.push(abilities@[i as int]@).map_values(|a: AbilityView| a.id)
                =~= kept.map_values(|a: AbilityView| a.id).push(abilities@[i as int].id));
        }
        if is_available(convert_gen(abilities[i].gen.as_str()), generation) {
            pool.push(abilities[i].id);
        }
        i += 1;
    }
    assert(views.take(abilities.len() as int) =~= views);
    pool
}

/// Decides from a percent draw whether the ability comes from the hidden pool.
pub fn use_hidden_pool(
    draw: usize,
    hidden_ability_chance: usize,
    generation: Generation,
    hidden_pool_len: usize,
) -> (hidden: bool)
    ensures
        hidden == takes_hidden_ability(
            draw,
            hidden_ability_chance,
            generation,
            hidden_pool_len as nat,
        ),
{
    trial_succeeds(draw, hidden_ability_chance) && has_hidden_abilities(generation)
        && hidden_pool_len > 0
}

/// Draws an ability for `pokemon` in `generation`.
///
/// Generations without abilities yield [`NO_ABILITY`]. Otherwise one chance
/// trial decides between the hidden abilities and the normal ones, where the
/// hidden ones are only eligible from the fifth generation onward and only
/// if the species has one available; the ability is then chosen from the
/// pool at random. The call is refused with
/// [`GenError::CatalogExhausted`] when the normal pool is needed and the
/// catalog leaves it empty.
pub fn gen_rand_ability(
    pokemon: &Pokemon,
    generation: Generation,
    hidden_ability_chance: usize,
    rng: &mut StdRng,
) -> (ability: Result<usize, GenError>)
    ensures
        match ability {
            Ok(id) => ability_of(id, pokemon@, generation, hidden_ability_chance),
            Err(e) => {
                &&& e == GenError::CatalogExhausted
                &&& abilities_exist(generation)
                &&& normal_pool_reachable(pokemon@, generation, hidden_ability_chance)
                &&& available_abilities(pokemon@.normal_abilities, generation).len() == 0
            },
        },
        !abilities_exist(generation) ==> ability == Ok::<usize, GenError>(NO_ABILITY),
        available_abilities(pokemon@.normal_abilities, generation).len() > 0 ==> ability is Ok,
        ({
            &&& abilities_exist(generation)
            &&& !hidden_pool_reachable(pokemon@, generation, hidden_ability_chance)
            &&& available_abilities(pokemon@.normal_abilities, generation).len() == 0
        }) ==> ability is Err,
{
    if !has_abilities(generation) {
        return Ok(NO_ABILITY);
    }
    let hidden_pool = abilities_for_generation(&pokemon.hidden_abilities, generation);
    let draw = roll_percent(rng);
    if use_hidden_pool(draw, hidden_ability_chance, generation, hidden_pool.len()) {
        let position = choose_position(rng, hidden_pool.len());
        pick_entry(&hidden_pool, position)
    } else {
        let normal_pool = abilities_for_generation(&pokemon.normal_abilities, generation);
        let position = choose_position(rng, normal_pool.len());
        pick_entry(&normal_pool, position)
    }
}

/// The pool of a generation holds exactly the ids of the abilities that are
/// available in it.
pub proof fn lemma_available_abilities_members(
    abilities: Seq<AbilityView>,
    generation: Generation,
    id: usize,
)
    ensures
        available_abilities(abilities, generation).contains(id) <==> is_available_ability(
            abilities,
            generation,
            id,
        ),
{
    let keep = |a: AbilityView| spec_is_available(a.introduced, generation);
    let kept = abilities.filter(keep);
    let ids = available_abilities(abilities, generation);
    if ids.contains(id) {
        let k = choose|k: int| 0 <= k < ids.len() && ids[k] == id;
        abilities.lemma_filter_pred(keep, k);
        assert(kept.contains(kept[k]));
        abilities.lemma_filter_contains_rev(keep, kept[k]);
        let j = choose|j: int| 0 <= j < abilities.len() && abilities[j] == kept[k];
        assert(abilities[j].id == id && spec_is_available(abilities[j].introduced, generation));
    }
    if is_available_ability(abilities, generation, id) {
        let j = choose|j: int|
            0 <= j < abilities.len() && abilities[j].id == id && spec_is_available(
                abilities[j].introduced,
                generation,
            );
        abilities.lemma_filter_contains(keep, j);
        let k = choose|k: int| 0 <= k < kept.len() && kept[k] == abilities[j];
        assert(ids[k] == id);
    }
}

/// An ability that can be drawn in a generation with abilities is one of the
/// normal or hidden abilities of the species, and is available in the
/// generation. Before the third generation it is [`NO_ABILITY`].
pub proof fn lemma_ability_belongs_to_species(
    ability: usize,
    species: SpeciesView,
    generation: Generation,
    hidden_ability_chance: usize,
)
    requires
        ability_of(ability, species, generation, hidden_ability_chance),
    ensures
        generation == Generation::I || generation == Generation::II ==> ability == NO_ABILITY,
        abilities_exist(generation) ==> is_available_ability(
            species.normal_abilities,
            generation,
            ability,
        ) || (hidden_abilities_exist(generation) && is_available_ability(
            species.hidden_abilities,
            generation,
            ability,
        )),
{
    lemma_available_abilities_members(species.normal_abilities, generation, ability);
    lemma_available_abilities_members(species.hidden_abilities, generation, ability);
}

} // verus!
