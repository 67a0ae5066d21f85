//! Generations, and the tables that map game titles and catalog tags to them.

use vstd::prelude::*;
use crate::text::str_eq;

verus! {

/// The generation in which a catalog entry first becomes available.
///
/// Generations are totally ordered by [`Generation::rank`]; an entry
/// introduced in one generation stays available in every later one.
#[derive(Clone, Copy, Debug, PartialEq, Eq, Structural)]
pub enum Generation {
    I,
    II,
    III,
    IV,
    V,
    VI,
    VII,
    VIII,
}

impl Generation {
    /// Position of the generation in the lineage, from 1 to 8.
    pub open spec fn rank(self) -> int {
        match self {
            Generation::I => 1,
            Generation::II => 2,
            Generation::III => 3,
            Generation::IV => 4,
            Generation::V => 5,
            Generation::VI => 6,
            Generation::VII => 7,
            Generation::VIII => 8,
        }
    }

    /// Position of the generation in the lineage, from 1 to 8.
    pub fn ordinal(self) -> (n: u8)
        ensures
            n == self.rank(),
    {
        match self {
            Generation::I => 1,
            Generation::II => 2,
            Generation::III => 3,
            Generation::IV => 4,
            Generation::V => 5,
            Generation::VI => 6,
            Generation::VII => 7,
            Generation::VIII => 8,
        }
    }
}

/// The generation that unrecognised game titles and catalog tags fall back to.
pub open spec fn default_generation() -> Generation {
    Generation::III
}

/// The generation that a catalog tag names, [`default_generation`] for any
/// text that is not a tag.
pub open spec fn tag_generation(tag: Seq<char>) -> Generation {
    if tag == "generation-i"@ {
        Generation::I
    } else if tag == "generation-ii"@ {
        Generation::II
    } else if tag == "generation-iii"@ {
        Generation::III
    } else if tag == "generation-iv"@ {
        Generation::IV
    } else if tag == "generation-v"@ {
        Generation::V
    } else if tag == "generation-vi"@ {
        Generation::VI
    } else if tag == "generation-vii"@ {
        Generation::VII
    } else if tag == "generation-viii"@ {
        Generation::VIII
    } else {
        default_generation()
    }
}

/// Whether `game` is one of the game titles the library knows.
pub open spec fn is_supported_game(game: Seq<char>) -> bool {
    ||| game == "red-blue"@
    ||| game == "yellow"@
    ||| game == "gold-silver"@
    ||| game == "crystal"@
    ||| game == "firered-leafgreen"@
    ||| game == "ruby-sapphire"@
    ||| game == "emerald"@
    ||| game == "diamond-pearl"@
    ||| game == "platinum"@
    ||| game == "heartgold-soulsilver"@
    ||| game == "black-white"@
    ||| game == "black-2-white-2"@
    ||| game == "x-y"@
    ||| game == "omega-ruby-alpha-sapphire"@
    ||| game == "sun-moon"@
    ||| game == "ultra-sun-ultra-moon"@
    ||| game == "sword-shield"@
}

/// The generation that the game titled `game` belongs to,
/// [`default_generation`] for any title the library does not know.
pub open spec fn game_generation(game: Seq<char>) -> Generation {
    if game == "red-blue"@ || game == "yellow"@ {
        Generation::I
    } else if game == "gold-silver"@ || game == "crystal"@ {
        Generation::II
    } else if game == "firered-leafgreen"@ || game == "ruby-sapphire"@ || game == "emerald"@ {
        Generation::III
    } else if game == "diamond-pearl"@ || game == "platinum"@ || game
        == "heartgold-soulsilver"@ {
        Generation::IV
    } else if game == "black-white"@ || game == "black-2-white-2"@ {
        Generation::V
    } else if game == "x-y"@ || game == "omega-ruby-alpha-sapphire"@ {
        Generation::VI
    } else if game == "sun-moon"@ || game == "ultra-sun-ultra-moon"@ {
        Generation::VII
    } else if game == "sword-shield"@ {
        Generation::VIII
    } else {
        default_generation()
    }
}

/// A title outside the supported set resolves to the default generation.
pub proof fn lemma_unknown_game_defaults(game: Seq<char>)
    requires
        !is_supported_game(game),
    ensures
        game_generation(game) == Generation::III,
{
}

/// Every title resolves to one of the eight generations of the lineage.
pub proof fn lemma_generation_in_lineage(game: Seq<char>)
    ensures
        1 <= game_generation(game).rank() <= 8,
{
}

/// Availability is a total preorder that follows the lineage: it is
/// reflexive and transitive, any two generations compare, and two
/// generations that are available in each other are the same.
pub proof fn lemma_availability_is_total_order(a: Generation, b: Generation, c: Generation)
    ensures
        spec_is_available(a, a),
        spec_is_available(a, b) || spec_is_available(b, a),
        spec_is_available(a, b) && spec_is_available(b, c) ==> spec_is_available(a, c),
        spec_is_available(a, b) && spec_is_available(b, a) ==> a == b,
{
}

/// Parses a catalog tag such as `"generation-iv"`.
///
/// Text that is not a tag yields the default generation rather than an error.
pub fn convert_gen(gen: &str) -> (generation: Generation)
    ensures
        generation == tag_generation(gen@),
{
    if str_eq(gen, "generation-i") {
        Generation::I
    } else if str_eq(gen, "generation-ii") {
        Generation::II
    } else if str_eq(gen, "generation-iii") {
        Generation::III
    } else if str_eq(gen, "generation-iv") {
        Generation::IV
    } else if str_eq(gen, "generation-v") {
        Generation::V
    } else if str_eq(gen, "generation-vi") {
        Generation::VI
    } else if str_eq(gen, "generation-vii") {
        Generation::VII
    } else if str_eq(gen, "generation-viii") {
        Generation::VIII
    } else {
        Generation::III
    }
}

/// Resolves a game title to its generation.
///
/// Titles the library does not know resolve to the default generation; this
/// is a permissive fallback, not a validation step.
pub fn resolve_generation(game: &str) -> (generation: Generation)
    ensures
        generation == game_generation(game@),
        !is_supported_game(game@) ==> generation == Generation::III,
{
    if str_eq(game, "red-blue") || str_eq(game, "yellow") {
        Generation::I
    } else if str_eq(game, "gold-silver") || str_eq(game, "crystal") {
        Generation::II
    } else if str_eq(game, "firered-leafgreen") || str_eq(game, "ruby-sapphire") || str_eq(
        game,
        "emerald",
    ) {
        Generation::III
    } else if str_eq(game, "diamond-pearl") || str_eq(game, "platinum") || str_eq(
        game,
        "heartgold-soulsilver",
    ) {
        Generation::IV
    } else if str_eq(game, "black-white") || str_eq(game, "black-2-white-2") {
        Generation::V
    } else if str_eq(game, "x-y") || str_eq(game, "omega-ruby-alpha-sapphire") {
        Generation::VI
    } else if str_eq(game, "sun-moon") || str_eq(game, "ultra-sun-ultra-moon") {
        Generation::VII
    } else if str_eq(game, "sword-shield") {
        Generation::VIII
    } else {
        Generation::III
    }
}

/// Whether an entry introduced in `entry` can be used in `requested`.
pub open spec fn spec_is_available(entry: Generation, requested: Generation) -> bool {
    entry.rank() <= requested.rank()
}

/// Whether an entry introduced in `entry` can be used in `requested`.
#[verifier::when_used_as_spec(spec_is_available)]
pub fn is_available(entry: Generation, requested: Generation) -> (available: bool)
    ensures
        available == spec_is_available(entry, requested),
{
    entry.ordinal() <= requested.ordinal()
}

/// Whether the entry tagged `gen1` can be used in the generation tagged `gen2`.
pub fn is_gen_lower_or_equal(gen1: &str, gen2: &str) -> (lower_or_equal: bool)
    ensures
        lower_or_equal == spec_is_available(tag_generation(gen1@), tag_generation(gen2@)),
{
    is_available(convert_gen(gen1), convert_gen(gen2))
}

} // verus!
