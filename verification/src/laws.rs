//! What holds of the transitions in general, stated over the spec functions
//! that the contracts of [`crate::engine`] use.

use vstd::prelude::*;
use crate::score::{Game, GameResult, GameUpdate, Point};

verus! {

/// Exchanging the players twice gives the game back.
pub proof fn lemma_mirrored_twice(game: Game)
    ensures
        game.mirrored().mirrored() == game,
{
}

/// The rule table of player 2 says what that of player 1 says of the
/// mirrored game, mirrored back.
pub proof fn lemma_p2_scored_mirrors_p1_scored(game: Game)
    ensures
        game.p2_scored() == game.mirrored().p1_scored().mirrored(),
        game.p1_scored() == game.mirrored().p2_scored().mirrored(),
{
}

/// A decided game stays as it is under any scoring event.
pub proof fn lemma_decided_game_is_fixed(game: Game, update: GameUpdate)
    requires
        game.result != GameResult::OnGoing,
    ensures
        game.after(update) == game,
{
}

/// A decided game stays as it is under any run of scoring events.
pub proof fn lemma_decided_game_is_fixed_for_good(game: Game, updates: Seq<GameUpdate>)
    requires
        game.result != GameResult::OnGoing,
    ensures
        game.after_all(updates) == game,
    decreases updates.len(),
{
    if updates.len() > 0 {
        lemma_decided_game_is_fixed_for_good(game, updates.drop_last());
    }
}

/// The two players are treated alike: a point won by player 2 in the
/// mirrored game leads to the mirror image of what a point won by player 1
/// leads to in the game itself, and the other way round.
pub proof fn lemma_players_symmetric(game: Game)
    ensures
        game.mirrored().after(GameUpdate::P2Score) == game.after(GameUpdate::P1Score).mirrored(),
        game.mirrored().after(GameUpdate::P1Score) == game.after(GameUpdate::P2Score).mirrored(),
{
}

/// At forty against anything lower, the next point wins the game and moves
/// no point level.
pub proof fn lemma_forty_wins_against_lower(game: Game)
    requires
        game.result == GameResult::OnGoing,
        game.player_1 == Point::P40,
        game.player_2.level() < Point::P40.level(),
    ensures
        game.after(GameUpdate::P1Score) == (Game { result: GameResult::P1Win, ..game }),
{
}

/// At advantage, the next point wins the game and moves no point level,
/// whatever the opponent holds.
pub proof fn lemma_advantage_wins(game: Game)
    requires
        game.result == GameResult::OnGoing,
        game.player_1 == Point::PAdv,
    ensures
        game.after(GameUpdate::P1Score) == (Game { result: GameResult::P1Win, ..game }),
{
}

/// A scoring event leads from a well-formed game to a well-formed game.
pub proof fn lemma_after_keeps_well_formed(game: Game, update: GameUpdate)
    requires
        game.well_formed(),
    ensures
        game.after(update).well_formed(),
{
}

/// Whatever is played from the initial state, the game is well formed.
pub proof fn lemma_reachable_is_well_formed(updates: Seq<GameUpdate>)
    ensures
        Game::initial().after_all(updates).well_formed(),
    decreases updates.len(),
{
    if updates.len() > 0 {
        lemma_reachable_is_well_formed(updates.drop_last());
        lemma_after_keeps_well_formed(
            Game::initial().after_all(updates.drop_last()),
            updates.last(),
        );
    }
}

/// The level below `point`; love has none and stays.
spec fn level_below(point: Point) -> Point {
    match point {
        Point::P0 => Point::P0,
        Point::P15 => Point::P0,
        Point::P30 => Point::P15,
        Point::P40 => Point::P30,
        Point::PAdv => Point::P40,
    }
}

/// A game and an event that lead to `game` in one step, for a well-formed
/// `game` other than the initial one.
spec fn last_step(game: Game) -> (Game, GameUpdate) {
    match game.result {
        GameResult::P1Win => (Game { result: GameResult::OnGoing, ..game }, GameUpdate::P1Score),
        GameResult::P2Win => (Game { result: GameResult::OnGoing, ..game }, GameUpdate::P2Score),
        GameResult::OnGoing => {
            if game.player_2 == Point::PAdv || game.player_1 == Point::P0 {
                (Game { player_2: level_below(game.player_2), ..game }, GameUpdate::P2Score)
            } else {
                (Game { player_1: level_below(game.player_1), ..game }, GameUpdate::P1Score)
            }
        },
    }
}

/// How far `game` is from the initial state along `last_step`.
spec fn distance(game: Game) -> nat {
    let decided: nat = if game.result == GameResult::OnGoing { 0 } else { 1 };
    game.player_1.level() + game.player_2.level() + decided
}

/// Builds a run of scoring events that leads to `game`, one `last_step` at
/// a time.
proof fn lemma_play_up_to(game: Game) -> (updates: Seq<GameUpdate>)
    requires
        game.well_formed(),
    ensures
        Game::initial().after_all(updates) == game,
    decreases distance(game),
{
    if game == Game::initial() {
        Seq::empty()
    } else {
        let (before, update) = last_step(game);
        let earlier = lemma_play_up_to(before);
        let updates = earlier.push(update);
        assert(updates.drop_last() == earlier);
        updates
    }
}

/// Every well-formed game can be played: the run of scoring events that is
/// returned leads to it from the initial state.
pub proof fn lemma_well_formed_is_reachable(game: Game) -> (updates: Seq<GameUpdate>)
    requires
        game.well_formed(),
    ensures
        Game::initial().after_all(updates) == game,
{
    lemma_play_up_to(game)
}

} // verus!
