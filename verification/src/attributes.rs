//! Gender, shininess, nature and individual values of an instance.

use vstd::prelude::*;
use rand::rngs::StdRng;
use crate::dice::{draw_in_range, sample_uniform};
use crate::chance::{roll_percent, trial_succeeds, PERCENT_DRAWS};

verus! {

/// Gender code of a male instance.
pub const MALE: u8 = 0;

/// Gender code of a female instance.
pub const FEMALE: u8 = 1;

/// Gender code of an instance without gender.
pub const GENDERLESS: u8 = 2;

/// The smallest individual value.
pub const MIN_IV: u8 = 1;

/// The largest individual value.
pub const MAX_IV: u8 = 31;

/// The number of natures; nature codes run from 1 to this number.
pub const NATURES: u8 = 25;

/// The ids of the species that have no gender.
pub const GENDERLESS_SPECIES: [usize; 23] = [
    883,
    881,
    343,
    374,
    436,
    703,
    615,
    781,
    882,
    880,
    870,
    622,
    599,
    337,
    81,
    774,
    855,
    137,
    479,
    338,
    120,
    201,
    100,
];

/// The ids of the species that are always female.
pub const FEMALE_ONLY_SPECIES: [usize; 12] = [29, 314, 440, 115, 238, 241, 548, 629, 669, 761, 856, 868];

/// The ids of the species that are always male.
pub const MALE_ONLY_SPECIES: [usize; 7] = [32, 236, 128, 538, 539, 627, 859];

/// The gender that the species id fixes, if it fixes one. The three tables
/// are consulted in the order genderless, female-only, male-only.
pub open spec fn fixed_gender(species: usize) -> Option<u8> {
    if GENDERLESS_SPECIES@.contains(species) {
        Some(GENDERLESS)
    } else if FEMALE_ONLY_SPECIES@.contains(species) {
        Some(FEMALE)
    } else if MALE_ONLY_SPECIES@.contains(species) {
        Some(MALE)
    } else {
        None
    }
}

/// `gender` is a gender code that an instance of `species` can have.
pub open spec fn gender_of(gender: int, species: usize) -> bool {
    match fixed_gender(species) {
        Some(fixed) => gender == fixed,
        None => gender == MALE || gender == FEMALE,
    }
}

/// Whether `id` occurs in `ids`.
pub fn contains_id(ids: &[usize], id: usize) -> (found: bool)
    ensures
        found == ids@.contains(id),
{
    let mut i: usize = 0;
    while i < ids.len()
        invariant
            i <= ids.len(),
            forall|j: int| 0 <= j < i ==> ids@[j] != id,
        decreases ids.len() - i,
    {
        if ids[i] == id {
            return true;
        }
        i += 1;
    }
    false
}

/// Looks the species up in the three gender tables.
pub fn species_gender(species: usize) -> (gender: Option<u8>)
    ensures
        gender == fixed_gender(species),
{
    if contains_id(&GENDERLESS_SPECIES, species) {
        Some(GENDERLESS)
    } else if contains_id(&FEMALE_ONLY_SPECIES, species) {
        Some(FEMALE)
    } else if contains_id(&MALE_ONLY_SPECIES, species) {
        Some(MALE)
    } else {
        None
    }
}

/// Draws the gender of an instance of `species`: the fixed gender where the
/// species has one, male or female otherwise.
pub fn gen_rand_gender(species: &usize, rng: &mut StdRng) -> (gender: u8)
    ensures
        gender_of(gender as int, *species),
{
    match species_gender(*species) {
        Some(fixed) => fixed,
        None => draw_in_range(rng, 0, 2) as u8,
    }
}

/// `shiny` is an outcome that [`roll_shiny`] can have at the given chance.
pub open spec fn shiny_of(shiny: bool, shiny_chance: usize) -> bool {
    &&& shiny_chance == 0 ==> !shiny
    &&& shiny_chance >= PERCENT_DRAWS ==> shiny
}

/// Draws whether an instance is shiny at a chance given in percent.
///
/// The draw runs from 0 to 100 inclusive and the chance succeeds on a draw
/// strictly below it, so a chance of 0 never succeeds and only a chance
/// above 100 always does.
pub fn roll_shiny(shiny_chance: usize, rng: &mut StdRng) -> (shiny: bool)
    ensures
        shiny_of(shiny, shiny_chance),
{
    let draw = roll_percent(rng);
    trial_succeeds(draw, shiny_chance)
}

/// Draws a nature code from 1 to [`NATURES`].
pub fn roll_nature(rng: &mut StdRng) -> (nature: u8)
    ensures
        1 <= nature <= NATURES,
{
    draw_in_range(rng, 1, NATURES as usize + 1) as u8
}

/// Six individual values are in range, and all at the maximum where
/// `max_ivs` asks for it.
pub open spec fn individual_values_of(values: Seq<int>, max_ivs: bool) -> bool {
    &&& values.len() == 6
    &&& forall|i: int| 0 <= i < 6 ==> MIN_IV <= #[trigger] values[i] <= MAX_IV
    &&& max_ivs ==> forall|i: int| 0 <= i < 6 ==> #[trigger] values[i] == MAX_IV
}

/// Draws one individual value, or takes the maximum where `max_ivs` is set.
pub fn roll_individual_value(max_ivs: bool, rng: &mut StdRng) -> (value: u8)
    ensures
        MIN_IV <= value <= MAX_IV,
        max_ivs ==> value == MAX_IV,
{
    if max_ivs {
        MAX_IV
    } else {
        sample_uniform(rng, MIN_IV, MAX_IV + 1)
    }
}

/// Draws the six individual values in the order hp, attack, defense, special
/// attack, special defense, speed. Each value has a draw of its own.
pub fn roll_individual_values(max_ivs: bool, rng: &mut StdRng) -> (values: [u8; 6])
    ensures
        individual_values_of(values@.map_values(|v: u8| v as int), max_ivs),
{
    let hp = roll_individual_value(max_ivs, rng);
    let atk = roll_individual_value(max_ivs, rng);
    let def = roll_individual_value(max_ivs, rng);
    let spa = roll_individual_value(max_ivs, rng);
    let spd = roll_individual_value(max_ivs, rng);
    let spe = roll_individual_value(max_ivs, rng);
    [hp, atk, def, spa, spd, spe]
}

} // verus!
