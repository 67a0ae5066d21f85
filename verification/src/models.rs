//! The species catalog and the generated instance, with their mathematical views.

use vstd::prelude::*;
use crate::generation::{tag_generation, Generation};

verus! {

/// A move that a species can use in one particular game.
#[derive(Clone, Debug)]
pub struct Move {
    pub id: usize,
    pub game: String,
}

/// An ability, available from the generation its tag names onward.
#[derive(Clone, Debug)]
pub struct Ability {
    pub id: usize,
    pub gen: String,
}

/// One species of the catalog with its move and ability pools.
#[derive(Clone, Debug)]
pub struct Pokemon {
    pub pokemon_id: usize,
    pub normal_moves: Vec<Move>,
    pub egg_moves: Vec<Move>,
    pub normal_abilities: Vec<Ability>,
    pub hidden_abilities: Vec<Ability>,
    pub pokemon_gen: String,
}

/// A generated instance.
///
/// `Gender` is 0 for male, 1 for female and 2 for genderless. A move slot
/// holds 0 when it is empty; catalog move ids start at 1.
#[allow(non_snake_case)]
#[derive(Clone, Debug, PartialEq, Eq)]
pub struct PokemonStats {
    pub Species: usize,
    pub Ability: usize,
    pub Gender: u8,
    pub isShiny: bool,
    pub Nature: u8,
    pub Hp: u8,
    pub Atk: u8,
    pub Def: u8,
    pub SpA: u8,
    pub SpD: u8,
    pub Spe: u8,
    pub moveOne: usize,
    pub moveTwo: usize,
    pub moveThree: usize,
    pub moveFour: usize,
}

/// A move as the contracts see it: its id and the title of its game.
pub ghost struct MoveView {
    pub id: usize,
    pub game: Seq<char>,
}

/// An ability as the contracts see it: its id and the generation that
/// introduced it.
pub ghost struct AbilityView {
    pub id: usize,
    pub introduced: Generation,
}

/// A species as the contracts see it.
pub ghost struct SpeciesView {
    pub id: usize,
    pub normal_moves: Seq<MoveView>,
    pub egg_moves: Seq<MoveView>,
    pub normal_abilities: Seq<AbilityView>,
    pub hidden_abilities: Seq<AbilityView>,
    pub introduced: Generation,
}

/// An instance as the contracts see it: the six individual values in the
/// order hp, attack, defense, special attack, special defense, speed, and
/// the four move slots in order.
pub ghost struct InstanceView {
    pub species: usize,
    pub ability: usize,
    pub gender: int,
    pub shiny: bool,
    pub nature: int,
    pub individual_values: Seq<int>,
    pub move_slots: Seq<usize>,
}

impl View for Move {
    type V = MoveView;

    open spec fn view(&self) -> MoveView {
        MoveView { id: self.id, game: self.game@ }
    }
}

impl View for Ability {
    type V = AbilityView;

    open spec fn view(&self) -> AbilityView {
        AbilityView { id: self.id, introduced: tag_generation(self.gen@) }
    }
}

/// The views of `moves`, position by position.
pub open spec fn move_views(moves: Seq<Move>) -> Seq<MoveView> {
    Seq::new(moves.len(), |i: int| moves[i]@)
}

/// The views of `abilities`, position by position.
pub open spec fn ability_views(abilities: Seq<Ability>) -> Seq<AbilityView> {
    Seq::new(abilities.len(), |i: int| abilities[i]@)
}

impl View for Pokemon {
    type V = SpeciesView;

    open spec fn view(&self) -> SpeciesView {
        SpeciesView {
            id: self.pokemon_id,
            normal_moves: move_views(self.normal_moves@),
            egg_moves: move_views(self.egg_moves@),
            normal_abilities: ability_views(self.normal_abilities@),
            hidden_abilities: ability_views(self.hidden_abilities@),
            introduced: tag_generation(self.pokemon_gen@),
        }
    }
}

/// The views of the species in `catalog`, position by position.
pub open spec fn catalog_view(catalog: Seq<Pokemon>) -> Seq<SpeciesView> {
    Seq::new(catalog.len(), |i: int| catalog[i]@)
}

impl View for PokemonStats {
    type V = InstanceView;

    open spec fn view(&self) -> InstanceView {
        InstanceView {
            species: self.Species,
            ability: self.Ability,
            gender: self.Gender as int,
            shiny: self.isShiny,
            nature: self.Nature as int,
            individual_values: seq![
                self.Hp as int,
                self.Atk as int,
                self.Def as int,
                self.SpA as int,
                self.SpD as int,
                self.Spe as int,
            ],
            move_slots: seq![self.moveOne, self.moveTwo, self.moveThree, self.moveFour],
        }
    }
}

} // verus!
