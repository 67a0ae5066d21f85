//! Selection of the moveset of an instance.

use vstd::prelude::*;
use rand::rngs::StdRng;
use crate::chance::{
    count_successes, lemma_all_draws_below_chance, lemma_zero_chance_never_hits, roll_trials,
    PERCENT_DRAWS,
};
use crate::dice::choose_positions;
use crate::models::{move_views, Move, MoveView, Pokemon, SpeciesView};
use crate::pools::{drawn_from, lemma_drawn_entries_are_in_pool, pick_at, picks, smaller};
use crate::text::str_eq;

verus! {

/// The number of move slots of an instance.
pub const MOVE_SLOTS: usize = 4;

/// The most egg moves a moveset can hold.
pub const EGG_TRIALS: usize = 3;

/// Ids of the moves among `moves` that belong to `game`, in catalog order.
pub open spec fn game_moves(moves: Seq<MoveView>, game: Seq<char>) -> Seq<usize> {
    moves.filter(|m: MoveView| m.game == game).map_values(|m: MoveView| m.id)
}

/// `id` is the id of a move among `moves` that belongs to `game`.
pub open spec fn is_game_move(moves: Seq<MoveView>, game: Seq<char>, id: usize) -> bool {
    exists|j: int| 0 <= j < moves.len() && #[trigger] moves[j].id == id && moves[j].game == game
}

/// The number of chance trials made for a species with `egg_pool_len` egg
/// moves in the requested game: one per egg move, and at most [`EGG_TRIALS`].
pub open spec fn trial_count(egg_pool_len: nat) -> nat {
    smaller(EGG_TRIALS as int, egg_pool_len as int) as nat
}

/// `moves` is a moveset with `egg_count` egg moves: the egg moves come first
/// and were drawn from `egg_pool` without replacement, the others were drawn
/// from `normal_pool` without replacement and fill the slots that the egg
/// moves leave, as far as `normal_pool` reaches.
pub open spec fn is_moveset(
    moves: Seq<usize>,
    egg_pool: Seq<usize>,
    normal_pool: Seq<usize>,
    egg_count: int,
) -> bool {
    &&& 0 <= egg_count <= trial_count(egg_pool.len())
    &&& moves.len() == egg_count + smaller(MOVE_SLOTS - egg_count, normal_pool.len() as int)
    &&& drawn_from(moves.take(egg_count), egg_pool)
    &&& drawn_from(moves.skip(egg_count), normal_pool)
}

/// `moves` is a moveset that [`gen_rand_moves`] can return for `species`
/// in `game` at the given egg-move chance.
pub open spec fn moveset_of(
    moves: Seq<usize>,
    species: SpeciesView,
    game: Seq<char>,
    egg_move_chance: usize,
) -> bool {
    let egg_pool = game_moves(species.egg_moves, game);
    let normal_pool = game_moves(species.normal_moves, game);
    exists|egg_count: int|
        {
            &&& #[trigger] is_moveset(moves, egg_pool, normal_pool, egg_count)
            &&& egg_move_chance == 0 ==> egg_count == 0
            &&& egg_move_chance >= PERCENT_DRAWS ==> egg_count == trial_count(egg_pool.len())
        }
}

/// Collects the ids of the moves that belong to `game`.
pub fn moves_for_game(moves: &Vec<Move>, game: &str) -> (pool: Vec<usize>)
    ensures
        pool@ == game_moves(move_views(moves@), game@),
{
    let mut pool: Vec<usize> = Vec::new();
    let ghost views = move_views(moves@);
    let mut i: usize = 0;
    assert(views.take(0) =~= Seq::<MoveView>::empty());
    proof {
        reveal(Seq::filter);
    }
    while i < moves.len()
        invariant
            i <= moves.len(),
            views == move_views(moves@),
            pool@ == game_moves(views.take(i as int), game@),
        decreases moves.len() - i,
    {
        proof {
            let seen = views.take(i as int);
            assert(views.take(i + 1) =~= seen.push(moves@[i as int]@));
            let keep = |m: MoveView| m.game == game@;
            seen.lemma_filter_push(moves@[i as int]@, keep);
            let kept = seen.filter(keep);
            assert(kept.push(moves@[i as int]@).map_values(|m: MoveView| m.id) =~= kept.map_values(
                |m: MoveView| m.id,
            ).push(moves@[i as int].id));
        }
        if str_eq(moves[i].game.as_str(), game) {
            pool.push(moves[i].id);
        }
        i += 1;
    }
    assert(views.take(moves.len() as int) =~= views);
    pool
}

/// The number of chance trials for an egg pool of `egg_pool_len` moves.
pub fn egg_trials(egg_pool_len: usize) -> (trials: usize)
    ensures
        trials == trial_count(egg_pool_len as nat),
{
    if egg_pool_len < EGG_TRIALS {
        egg_pool_len
    } else {
        EGG_TRIALS
    }
}

/// The moveset that the drawn positions stand for: the egg moves first, then
/// the normal moves, each in draw order.
pub fn assemble_moves(
    egg_pool: &Vec<usize>,
    normal_pool: &Vec<usize>,
    egg_positions: &Vec<usize>,
    normal_positions: &Vec<usize>,
) -> (moves: Vec<usize>)
    requires
        forall|i: int| 0 <= i < egg_positions@.len() ==> egg_positions@[i] < egg_pool@.len(),
        forall|i: int|
            0 <= i < normal_positions@.len() ==> normal_positions@[i] < normal_pool@.len(),
    ensures
        moves@ == picks(egg_pool@, egg_positions@) + picks(normal_pool@, normal_positions@),
{
    let mut moves = pick_at(egg_pool, egg_positions);
    let mut normal = pick_at(normal_pool, normal_positions);
    moves.append(&mut normal);
    moves
}

/// Draws a moveset for `pokemon` in `game`.
///
/// One chance trial is made per egg move that the species has in the game,
/// at most three; each success puts one egg move into the moveset. The
/// remaining slots are filled from the normal moves of the game. Where a
/// pool holds fewer moves than there are slots for it, the moveset is
/// shorter: no move is invented.
pub fn gen_rand_moves(pokemon: &Pokemon, game: &str, egg_move_chance: usize, rng: &mut StdRng) -> (moves:
    Vec<usize>)
    ensures
        moves@.len() <= MOVE_SLOTS,
        moveset_of(moves@, pokemon@, game@, egg_move_chance),
        game_moves(pokemon@.egg_moves, game@).len() == 0 ==> drawn_from(
            moves@,
            game_moves(pokemon@.normal_moves, game@),
        ),
{
    let normal_pool = moves_for_game(&pokemon.normal_moves, game);
    let egg_pool = moves_for_game(&pokemon.egg_moves, game);
    let draws = roll_trials(rng, egg_trials(egg_pool.len()));
    let egg_count = count_successes(&draws, egg_move_chance);
    proof {
        lemma_zero_chance_never_hits(draws@);
        if egg_move_chance >= PERCENT_DRAWS {
            lemma_all_draws_below_chance(draws@, egg_move_chance);
        }
    }
    let egg_positions = choose_positions(rng, egg_pool.len(), egg_count);
    let normal_positions = choose_positions(rng, normal_pool.len(), MOVE_SLOTS - egg_count);
    let moves = assemble_moves(&egg_pool, &normal_pool, &egg_positions, &normal_positions);
    proof {
        let eggs = picks(egg_pool@, egg_positions@);
        let normals = picks(normal_pool@, normal_positions@);
        assert(moves@.take(egg_count as int) =~= eggs);
        assert(moves@.skip(egg_count as int) =~= normals);
        assert(is_moveset(moves@, egg_pool@, normal_pool@, egg_count as int));
        assert(egg_pool@ == game_moves(pokemon@.egg_moves, game@));
        assert(normal_pool@ == game_moves(pokemon@.normal_moves, game@));
        if egg_pool@.len() == 0 {
            assert(moves@.skip(0) =~= moves@);
        }
    }
    moves
}

/// The pool of a game holds exactly the ids of the moves that belong to it.
pub proof fn lemma_game_moves_members(moves: Seq<MoveView>, game: Seq<char>, id: usize)
    ensures
        game_moves(moves, game).contains(id) <==> is_game_move(moves, game, id),
{
    let keep = |m: MoveView| m.game == game;
    let kept = moves.filter(keep);
    let ids = game_moves(moves, game);
    if ids.contains(id) {
        let k = choose|k: int| 0 <= k < ids.len() && ids[k] == id;
        moves.lemma_filter_pred(keep, k);
        assert(kept.contains(kept[k]));
        moves.lemma_filter_contains_rev(keep, kept[k]);
        let j = choose|j: int| 0 <= j < moves.len() && moves[j] == kept[k];
        assert(moves[j].id == id && moves[j].game == game);
    }
    if is_game_move(moves, game, id) {
        let j = choose|j: int| 0 <= j < moves.len() && moves[j].id == id && moves[j].game == game;
        moves.lemma_filter_contains(keep, j);
        let k = choose|k: int| 0 <= k < kept.len() && kept[k] == moves[j];
        assert(ids[k] == id);
    }
}

/// A moveset never exceeds the move slots, and each of its moves belongs to
/// the requested game: the egg moves to the egg moves of the species, the
/// others to its normal moves.
pub proof fn lemma_moveset_holds_game_moves(
    moves: Seq<usize>,
    species: SpeciesView,
    game: Seq<char>,
    egg_move_chance: usize,
)
    requires
        moveset_of(moves, species, game, egg_move_chance),
    ensures
        moves.len() <= MOVE_SLOTS,
        forall|i: int|
            0 <= i < moves.len() ==> is_game_move(species.egg_moves, game, #[trigger] moves[i])
                || is_game_move(species.normal_moves, game, moves[i]),
        game_moves(species.egg_moves, game).len() == 0 ==> forall|i: int|
            0 <= i < moves.len() ==> is_game_move(species.normal_moves, game, #[trigger] moves[i]),
{
    let egg_pool = game_moves(species.egg_moves, game);
    let normal_pool = game_moves(species.normal_moves, game);
    let egg_count = choose|egg_count: int| #[trigger]
        is_moveset(moves, egg_pool, normal_pool, egg_count);
    lemma_drawn_entries_are_in_pool(moves.take(egg_count), egg_pool);
    lemma_drawn_entries_are_in_pool(moves.skip(egg_count), normal_pool);
    assert forall|i: int| 0 <= i < moves.len() implies (is_game_move(
        species.egg_moves,
        game,
        #[trigger] moves[i],
    ) || is_game_move(species.normal_moves, game, moves[i])) && (egg_pool.len() == 0
        ==> is_game_move(species.normal_moves, game, moves[i])) by {
        if i < egg_count {
            assert(moves.take(egg_count)[i] == moves[i]);
            lemma_game_moves_members(species.egg_moves, game, moves[i]);
        } else {
            assert(moves.skip(egg_count)[i - egg_count] == moves[i]);
            lemma_game_moves_members(species.normal_moves, game, moves[i]);
        }
    }
}

/// At a chance above every draw, a moveset opens with one egg move per
/// trial: three of them where the species has at least three egg moves in
/// the game.
pub proof fn lemma_moveset_at_certain_chance(
    moves: Seq<usize>,
    species: SpeciesView,
    game: Seq<char>,
    egg_move_chance: usize,
)
    requires
        moveset_of(moves, species, game, egg_move_chance),
        egg_move_chance >= PERCENT_DRAWS,
    ensures
        is_moveset(
            moves,
            game_moves(species.egg_moves, game),
            game_moves(species.normal_moves, game),
            trial_count(game_moves(species.egg_moves, game).len()) as int,
        ),
        game_moves(species.egg_moves, game).len() >= EGG_TRIALS ==> trial_count(
            game_moves(species.egg_moves, game).len(),
        ) == EGG_TRIALS,
{
}

} // verus!
