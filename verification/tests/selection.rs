use pokegen::abilities::{
    abilities_for_generation, gen_rand_ability, has_abilities, has_hidden_abilities,
    use_hidden_pool, NO_ABILITY,
};
use pokegen::chance::{count_successes, roll_trials};
use pokegen::error::GenError;
use pokegen::generation::Generation;
use pokegen::models::{Ability, Move, Pokemon};
use pokegen::moves::{
    assemble_moves, egg_trials, gen_rand_moves, moves_for_game, EGG_TRIALS, MOVE_SLOTS,
};
use pokegen::pools::{pick_at, pick_entry};
use pokegen::species::{available_species, select_species};
use rand::rngs::StdRng;
use rand::SeedableRng;

fn a_move(id: usize, game: &str) -> Move {
    Move { id, game: game.to_string() }
}

fn an_ability(id: usize, gen: &str) -> Ability {
    Ability { id, gen: gen.to_string() }
}

fn a_species(id: usize, gen: &str) -> Pokemon {
    Pokemon {
        pokemon_id: id,
        normal_moves: vec![],
        egg_moves: vec![],
        normal_abilities: vec![],
        hidden_abilities: vec![],
        pokemon_gen: gen.to_string(),
    }
}

fn a_learner(normal: Vec<Move>, egg: Vec<Move>) -> Pokemon {
    Pokemon {
        pokemon_id: 1,
        normal_moves: normal,
        egg_moves: egg,
        normal_abilities: vec![],
        hidden_abilities: vec![],
        pokemon_gen: "generation-i".to_string(),
    }
}

fn a_bearer(normal: Vec<Ability>, hidden: Vec<Ability>) -> Pokemon {
    Pokemon {
        pokemon_id: 1,
        normal_moves: vec![],
        egg_moves: vec![],
        normal_abilities: normal,
        hidden_abilities: hidden,
        pokemon_gen: "generation-i".to_string(),
    }
}

fn all_distinct(ids: &[usize]) -> bool {
    (0..ids.len()).all(|i| (0..i).all(|j| ids[i] != ids[j]))
}

#[test]
fn moves_are_filtered_by_game_in_catalog_order() {
    let moves = vec![
        a_move(5, "emerald"),
        a_move(3, "red-blue"),
        a_move(9, "emerald"),
        a_move(1, "yellow"),
        a_move(5, "emerald"),
    ];
    assert_eq!(moves_for_game(&moves, "emerald"), vec![5, 9, 5]);
    assert_eq!(moves_for_game(&moves, "red-blue"), vec![3]);
    assert_eq!(moves_for_game(&moves, "yellow"), vec![1]);
    assert_eq!(moves_for_game(&moves, "crystal"), Vec::<usize>::new());
    assert_eq!(moves_for_game(&vec![], "emerald"), Vec::<usize>::new());
}

#[test]
fn abilities_are_filtered_by_generation_in_catalog_order() {
    let abilities = vec![
        an_ability(65, "generation-iii"),
        an_ability(34, "generation-v"),
        an_ability(12, "generation-iv"),
        an_ability(77, "no tag at all"),
    ];
    assert_eq!(abilities_for_generation(&abilities, Generation::I), Vec::<usize>::new());
    assert_eq!(abilities_for_generation(&abilities, Generation::III), vec![65, 77]);
    assert_eq!(abilities_for_generation(&abilities, Generation::IV), vec![65, 12, 77]);
    assert_eq!(abilities_for_generation(&abilities, Generation::VIII), vec![65, 34, 12, 77]);
}

#[test]
fn picks_follow_the_positions() {
    let pool = vec![10, 20, 30, 40, 50];
    assert_eq!(pick_at(&pool, &vec![]), Vec::<usize>::new());
    assert_eq!(pick_at(&pool, &vec![4, 0, 2]), vec![50, 10, 30]);
    assert_eq!(pick_at(&pool, &vec![1, 1]), vec![20, 20]);
}

#[test]
fn an_entry_is_picked_or_the_pool_is_exhausted() {
    let pool = vec![10, 20, 30];
    assert_eq!(pick_entry(&pool, Some(0)), Ok(10));
    assert_eq!(pick_entry(&pool, Some(2)), Ok(30));
    assert_eq!(pick_entry(&pool, None), Err(GenError::CatalogExhausted));
    assert_eq!(pick_entry(&vec![], None), Err(GenError::CatalogExhausted));
}

#[test]
fn egg_moves_come_before_normal_moves() {
    let egg_pool = vec![100, 200, 300];
    let normal_pool = vec![1, 2, 3, 4, 5];
    assert_eq!(
        assemble_moves(&egg_pool, &normal_pool, &vec![2, 0], &vec![4, 1]),
        vec![300, 100, 5, 2]
    );
    assert_eq!(assemble_moves(&egg_pool, &normal_pool, &vec![], &vec![0, 1, 2, 3]), vec![1, 2, 3, 4]);
    assert_eq!(assemble_moves(&egg_pool, &normal_pool, &vec![1], &vec![]), vec![200]);
    assert_eq!(assemble_moves(&vec![], &vec![], &vec![], &vec![]), Vec::<usize>::new());
}

#[test]
fn one_trial_per_egg_move_and_at_most_three() {
    assert_eq!(egg_trials(0), 0);
    assert_eq!(egg_trials(1), 1);
    assert_eq!(egg_trials(2), 2);
    assert_eq!(egg_trials(3), 3);
    assert_eq!(egg_trials(4), 3);
    assert_eq!(egg_trials(1000), EGG_TRIALS);
}

#[test]
fn movesets_hold_at_most_four_distinct_moves_of_the_game() {
    let normal: Vec<Move> = (1..=10)
        .map(|id| a_move(id, if id % 2 == 0 { "emerald" } else { "platinum" }))
        .collect();
    let egg: Vec<Move> = (101..=108)
        .map(|id| a_move(id, if id % 2 == 0 { "emerald" } else { "platinum" }))
        .collect();
    let species = a_learner(normal, egg);
    let mut rng = StdRng::seed_from_u64(1);
    for chance in [0usize, 1, 33, 50, 99, 100, 101, 250] {
        for _ in 0..50 {
            let moves = gen_rand_moves(&species, "emerald", chance, &mut rng);
            assert_eq!(moves.len(), MOVE_SLOTS);
            assert!(all_distinct(&moves));
            assert!(moves.iter().all(|id| id % 2 == 0));
            let eggs = moves.iter().filter(|id| **id > 100).count();
            assert!(eggs <= EGG_TRIALS);
            // the egg moves come first
            assert!(moves.iter().take(eggs).all(|id| *id > 100));
            assert!(moves.iter().skip(eggs).all(|id| *id <= 10));
        }
    }
}

#[test]
fn without_egg_moves_all_moves_are_normal() {
    let normal: Vec<Move> = (1..=6).map(|id| a_move(id, "crystal")).collect();
    let egg: Vec<Move> = (101..=106).map(|id| a_move(id, "gold-silver")).collect();
    let species = a_learner(normal, egg);
    let mut rng = StdRng::seed_from_u64(2);
    for chance in [0usize, 50, 100, 101] {
        for _ in 0..50 {
            let moves = gen_rand_moves(&species, "crystal", chance, &mut rng);
            assert_eq!(moves.len(), 4);
            assert!(all_distinct(&moves));
            assert!(moves.iter().all(|id| (1..=6).contains(id)));
        }
    }
}

#[test]
fn zero_chance_draws_no_egg_move() {
    let normal: Vec<Move> = (1..=6).map(|id| a_move(id, "x-y")).collect();
    let egg: Vec<Move> = (101..=106).map(|id| a_move(id, "x-y")).collect();
    let species = a_learner(normal, egg);
    let mut rng = StdRng::seed_from_u64(3);
    for _ in 0..200 {
        let moves = gen_rand_moves(&species, "x-y", 0, &mut rng);
        assert_eq!(moves.len(), 4);
        assert!(moves.iter().all(|id| *id <= 6));
    }
}

#[test]
fn certain_chance_draws_three_egg_moves_then_one_normal_move() {
    let normal: Vec<Move> = (1..=6).map(|id| a_move(id, "x-y")).collect();
    let egg: Vec<Move> = (101..=105).map(|id| a_move(id, "x-y")).collect();
    let species = a_learner(normal, egg);
    let mut rng = StdRng::seed_from_u64(4);
    for _ in 0..200 {
        let moves = gen_rand_moves(&species, "x-y", 101, &mut rng);
        assert_eq!(moves.len(), 4);
        assert!(all_distinct(&moves));
        assert!(moves[0] > 100 && moves[1] > 100 && moves[2] > 100);
        assert!(moves[3] <= 6);
    }
}

#[test]
fn full_chance_draws_one_egg_move_per_successful_trial() {
    let normal: Vec<Move> = (1..=6).map(|id| a_move(id, "x-y")).collect();
    let egg: Vec<Move> = (101..=105).map(|id| a_move(id, "x-y")).collect();
    let species = a_learner(normal, egg);
    let mut all_three = 0;
    for seed in 0..40u64 {
        // the trials are the first thing drawn, so a generator with the same
        // seed tells which draws the moveset was decided on
        let mut oracle = StdRng::seed_from_u64(seed);
        let draws = roll_trials(&mut oracle, 3);
        let expected = count_successes(&draws, 100);
        let mut rng = StdRng::seed_from_u64(seed);
        let moves = gen_rand_moves(&species, "x-y", 100, &mut rng);
        assert_eq!(moves.len(), 4);
        assert!(all_distinct(&moves));
        assert_eq!(moves.iter().filter(|id| **id > 100).count(), expected);
        assert!(moves.iter().take(expected).all(|id| *id > 100));
        assert!(moves.iter().skip(expected).all(|id| *id <= 6));
        if draws.iter().all(|d| *d < 100) {
            assert_eq!(expected, 3);
            all_three += 1;
        }
    }
    assert!(all_three > 0);
}

#[test]
fn egg_moves_are_limited_by_the_egg_pool() {
    let normal: Vec<Move> = (1..=6).map(|id| a_move(id, "x-y")).collect();
    let egg = vec![a_move(101, "x-y"), a_move(102, "sun-moon"), a_move(103, "sun-moon")];
    let species = a_learner(normal, egg);
    let mut rng = StdRng::seed_from_u64(6);
    for _ in 0..100 {
        let moves = gen_rand_moves(&species, "x-y", 101, &mut rng);
        assert_eq!(moves.len(), 4);
        assert_eq!(moves[0], 101);
        assert!(moves[1..].iter().all(|id| *id <= 6));
        assert!(all_distinct(&moves));
    }
}

#[test]
fn short_pools_give_short_movesets() {
    let species = a_learner(
        vec![a_move(1, "emerald"), a_move(2, "emerald"), a_move(3, "yellow")],
        vec![a_move(101, "emerald")],
    );
    let mut rng = StdRng::seed_from_u64(8);
    for _ in 0..50 {
        let mut moves = gen_rand_moves(&species, "emerald", 0, &mut rng);
        moves.sort();
        assert_eq!(moves, vec![1, 2]);
        let mut moves = gen_rand_moves(&species, "emerald", 101, &mut rng);
        assert_eq!(moves[0], 101);
        moves.sort();
        assert_eq!(moves, vec![1, 2, 101]);
        assert_eq!(gen_rand_moves(&species, "yellow", 101, &mut rng), vec![3]);
        assert_eq!(gen_rand_moves(&species, "platinum", 50, &mut rng), Vec::<usize>::new());
    }
}

#[test]
fn every_move_of_a_pool_is_drawn_sometimes() {
    let normal: Vec<Move> = (1..=8).map(|id| a_move(id, "emerald")).collect();
    let species = a_learner(normal, vec![]);
    let mut rng = StdRng::seed_from_u64(9);
    let mut seen = [false; 9];
    for _ in 0..300 {
        for id in gen_rand_moves(&species, "emerald", 0, &mut rng) {
            seen[id] = true;
        }
    }
    assert!(seen[1..].iter().all(|s| *s));
}

#[test]
fn abilities_start_with_the_third_generation() {
    assert!(!has_abilities(Generation::I));
    assert!(!has_abilities(Generation::II));
    assert!(has_abilities(Generation::III));
    assert!(has_abilities(Generation::VIII));
    assert!(!has_hidden_abilities(Generation::III));
    assert!(!has_hidden_abilities(Generation::IV));
    assert!(has_hidden_abilities(Generation::V));
    assert!(has_hidden_abilities(Generation::VIII));
}

#[test]
fn the_hidden_pool_needs_a_hit_a_late_generation_and_an_entry() {
    assert!(use_hidden_pool(10, 11, Generation::V, 1));
    assert!(use_hidden_pool(100, 101, Generation::VIII, 3));
    assert!(!use_hidden_pool(11, 11, Generation::V, 1));
    assert!(!use_hidden_pool(100, 100, Generation::V, 1));
    assert!(!use_hidden_pool(0, 0, Generation::V, 1));
    assert!(!use_hidden_pool(10, 11, Generation::IV, 1));
    assert!(!use_hidden_pool(10, 11, Generation::III, 1));
    assert!(!use_hidden_pool(10, 11, Generation::V, 0));
}

#[test]
fn early_generations_have_no_ability() {
    let species = a_bearer(
        vec![an_ability(65, "generation-i")],
        vec![an_ability(34, "generation-i")],
    );
    let bare = a_bearer(vec![], vec![]);
    let mut rng = StdRng::seed_from_u64(10);
    for chance in [0usize, 50, 100, 101] {
        for generation in [Generation::I, Generation::II] {
            assert_eq!(gen_rand_ability(&species, generation, chance, &mut rng), Ok(NO_ABILITY));
            assert_eq!(gen_rand_ability(&bare, generation, chance, &mut rng), Ok(0));
        }
    }
}

#[test]
fn hidden_abilities_wait_for_the_fifth_generation() {
    let species = a_bearer(
        vec![an_ability(65, "generation-iii"), an_ability(66, "generation-iv")],
        vec![an_ability(34, "generation-iii")],
    );
    let mut rng = StdRng::seed_from_u64(12);
    for _ in 0..100 {
        assert_eq!(gen_rand_ability(&species, Generation::III, 101, &mut rng), Ok(65));
        let fourth = gen_rand_ability(&species, Generation::IV, 101, &mut rng);
        assert!(fourth == Ok(65) || fourth == Ok(66));
        assert_eq!(gen_rand_ability(&species, Generation::V, 101, &mut rng), Ok(34));
        let never = gen_rand_ability(&species, Generation::V, 0, &mut rng);
        assert!(never == Ok(65) || never == Ok(66));
        let either = gen_rand_ability(&species, Generation::VI, 50, &mut rng);
        assert!(either == Ok(65) || either == Ok(66) || either == Ok(34));
    }
}

#[test]
fn both_ability_pools_are_used_at_an_even_chance() {
    let species = a_bearer(
        vec![an_ability(65, "generation-iii")],
        vec![an_ability(34, "generation-v")],
    );
    let mut rng = StdRng::seed_from_u64(13);
    let mut hidden = 0;
    let mut normal = 0;
    for _ in 0..400 {
        match gen_rand_ability(&species, Generation::VII, 50, &mut rng) {
            Ok(34) => hidden += 1,
            Ok(65) => normal += 1,
            other => panic!("unexpected ability {:?}", other),
        }
    }
    assert!(hidden > 100 && normal > 100);
}

#[test]
fn a_late_hidden_ability_is_not_available_yet() {
    let species = a_bearer(
        vec![an_ability(65, "generation-iii")],
        vec![an_ability(34, "generation-vii")],
    );
    let mut rng = StdRng::seed_from_u64(14);
    for _ in 0..50 {
        assert_eq!(gen_rand_ability(&species, Generation::VI, 101, &mut rng), Ok(65));
        assert_eq!(gen_rand_ability(&species, Generation::VII, 101, &mut rng), Ok(34));
    }
}

#[test]
fn an_empty_normal_pool_exhausts_the_catalog() {
    let bare = a_bearer(vec![], vec![]);
    let late = a_bearer(vec![an_ability(65, "generation-vi")], vec![]);
    let hidden_only = a_bearer(vec![], vec![an_ability(34, "generation-v")]);
    let mut rng = StdRng::seed_from_u64(15);
    for chance in [0usize, 50, 101] {
        assert_eq!(
            gen_rand_ability(&bare, Generation::III, chance, &mut rng),
            Err(GenError::CatalogExhausted)
        );
        assert_eq!(
            gen_rand_ability(&late, Generation::V, chance, &mut rng),
            Err(GenError::CatalogExhausted)
        );
        assert_eq!(gen_rand_ability(&late, Generation::VI, chance, &mut rng), Ok(65));
        assert_eq!(
            gen_rand_ability(&hidden_only, Generation::IV, chance, &mut rng),
            Err(GenError::CatalogExhausted)
        );
    }
    assert_eq!(
        gen_rand_ability(&hidden_only, Generation::V, 0, &mut rng),
        Err(GenError::CatalogExhausted)
    );
    assert_eq!(gen_rand_ability(&hidden_only, Generation::V, 101, &mut rng), Ok(34));
}

#[test]
fn available_species_are_listed_in_catalog_order() {
    let catalog = vec![
        a_species(1, "generation-i"),
        a_species(152, "generation-ii"),
        a_species(810, "generation-viii"),
        a_species(25, "generation-i"),
        a_species(252, "generation-iii"),
        a_species(9999, "unknown"),
    ];
    assert_eq!(available_species(&catalog, Generation::I), vec![0, 3]);
    assert_eq!(available_species(&catalog, Generation::II), vec![0, 1, 3]);
    assert_eq!(available_species(&catalog, Generation::III), vec![0, 1, 3, 4, 5]);
    assert_eq!(available_species(&catalog, Generation::VII), vec![0, 1, 3, 4, 5]);
    assert_eq!(available_species(&catalog, Generation::VIII), vec![0, 1, 2, 3, 4, 5]);
    assert_eq!(available_species(&[], Generation::VIII), Vec::<usize>::new());
}

#[test]
fn no_species_of_a_later_generation_is_selected() {
    let catalog: Vec<Pokemon> = (0..40)
        .map(|i| {
            a_species(
                i,
                match i % 4 {
                    0 => "generation-i",
                    1 => "generation-ii",
                    2 => "generation-v",
                    _ => "generation-viii",
                },
            )
        })
        .collect();
    let mut rng = StdRng::seed_from_u64(16);
    let mut seen = vec![false; catalog.len()];
    for _ in 0..500 {
        let index = select_species(&catalog, Generation::II, &mut rng).unwrap();
        assert!(index < catalog.len());
        assert!(index % 4 <= 1);
        seen[index] = true;
    }
    // the choice is spread over the eligible species
    assert!(seen.iter().filter(|s| **s).count() > 10);
}

#[test]
fn a_catalog_without_eligible_species_is_exhausted() {
    let mut rng = StdRng::seed_from_u64(17);
    assert_eq!(select_species(&[], Generation::VIII, &mut rng), Err(GenError::CatalogExhausted));
    let late = vec![a_species(810, "generation-viii"), a_species(722, "generation-vii")];
    assert_eq!(select_species(&late, Generation::VI, &mut rng), Err(GenError::CatalogExhausted));
    assert_eq!(select_species(&late, Generation::VII, &mut rng), Ok(1));
}
