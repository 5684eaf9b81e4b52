//! The transitions of a game.
//!
//! What a point does is stated twice, as one rule table for each player.
//! The code holds only the table of player 1: a point won by player 2 is
//! played on the mirrored game and mirrored back, and that is proved to
//! give what the table of player 2 says.

use vstd::prelude::*;
use crate::laws::lemma_p2_scored_mirrors_p1_scored;
use crate::score::{Game, GameResult, GameUpdate, Point};

verus! {

impl GameResult {
    /// The same outcome seen from the other player's side.
    pub open spec fn mirrored(self) -> GameResult {
        match self {
            GameResult::P1Win => GameResult::P2Win,
            GameResult::P2Win => GameResult::P1Win,
            GameResult::OnGoing => GameResult::OnGoing,
        }
    }
}

impl Game {
    /// The game with the two players exchanged: their points change places
    /// and a win changes sides.
    pub open spec fn mirrored(self) -> Game {
        Game {
            player_1: self.player_2,
            player_2: self.player_1,
            result: self.result.mirrored(),
        }
    }

    /// The rule table for a point won by player 1. The first row that fits
    /// decides, and the new outcome depends on the two point levels alone:
    ///
    /// | player 1    | player 2    | player 1 then | player 2 then | outcome       |
    /// |-------------|-------------|---------------|---------------|---------------|
    /// | advantage   | any         | advantage     | unchanged     | player 1 wins |
    /// | forty       | advantage   | forty         | forty         | on going      |
    /// | forty       | forty       | advantage     | forty         | on going      |
    /// | forty       | below forty | forty         | unchanged     | player 1 wins |
    /// | below forty | any         | next level    | unchanged     | on going      |
    pub open spec fn p1_scored(self) -> Game {
        match (self.player_1, self.player_2) {
            (Point::PAdv, _) => Game { result: GameResult::P1Win, ..self },
            (Point::P40, Point::PAdv) => Game {
                player_2: Point::P40,
                result: GameResult::OnGoing,
                ..self
            },
            (Point::P40, Point::P40) => Game {
                player_1: Point::PAdv,
                result: GameResult::OnGoing,
                ..self
            },
            (Point::P40, _) => Game { result: GameResult::P1Win, ..self },
            (Point::P30, _) => Game {
                player_1: Point::P40,
                result: GameResult::OnGoing,
                ..self
            },
            (Point::P15, _) => Game {
                player_1: Point::P30,
                result: GameResult::OnGoing,
                ..self
            },
            (Point::P0, _) => Game {
                player_1: Point::P15,
                result: GameResult::OnGoing,
                ..self
            },
        }
    }

    /// The rule table for a point won by player 2: that of player 1 with the
    /// two players' parts exchanged.
    ///
    /// | player 2    | player 1    | player 2 then | player 1 then | outcome       |
    /// |-------------|-------------|---------------|---------------|---------------|
    /// | advantage   | any         | advantage     | unchanged     | player 2 wins |
    /// | forty       | advantage   | forty         | forty         | on going      |
    /// | forty       | forty       | advantage     | forty         | on going      |
    /// | forty       | below forty | forty         | unchanged     | player 2 wins |
    /// | below forty | any         | next level    | unchanged     | on going      |
    pub open spec fn p2_scored(self) -> Game {
        match (self.player_2, self.player_1) {
            (Point::PAdv, _) => Game { result: GameResult::P2Win, ..self },
            (Point::P40, Point::PAdv) => Game {
                player_1: Point::P40,
                result: GameResult::OnGoing,
                ..self
            },
            (Point::P40, Point::P40) => Game {
                player_2: Point::PAdv,
                result: GameResult::OnGoing,
                ..self
            },
            (Point::P40, _) => Game { result: GameResult::P2Win, ..self },
            (Point::P30, _) => Game {
                player_2: Point::P40,
                result: GameResult::OnGoing,
                ..self
            },
            (Point::P15, _) => Game {
                player_2: Point::P30,
                result: GameResult::OnGoing,
                ..self
            },
            (Point::P0, _) => Game {
                player_2: Point::P15,
                result: GameResult::OnGoing,
                ..self
            },
        }
    }

    /// The game after one scoring event. A decided game ignores the event;
    /// in any other the scorer's rule table applies.
    pub open spec fn after(self, update: GameUpdate) -> Game {
        if self.result != GameResult::OnGoing {
            self
        } else {
            match update {
                GameUpdate::P1Score => self.p1_scored(),
                GameUpdate::P2Score => self.p2_scored(),
            }
        }
    }

    /// The game after a run of scoring events, applied first to last.
    pub open spec fn after_all(self, updates: Seq<GameUpdate>) -> Game
        decreases updates.len(),
    {
        if updates.len() == 0 {
            self
        } else {
            self.after_all(updates.drop_last()).after(updates.last())
        }
    }
}

/// Player 1 wins a point: applies the rule table to `game`, whatever its
/// outcome was before.
pub fn adv_p1_score(game: &mut Game)
    ensures
        *final(game) == old(game).p1_scored(),
        old(game).well_formed() ==> final(game).well_formed(),
{
    match (game.player_1, game.player_2) {
        (Point::PAdv, _) => {
            game.result = GameResult::P1Win;
        },
        (Point::P40, Point::PAdv) => {
            game.player_2 = Point::P40;
            game.result = GameResult::OnGoing;
        },
        (Point::P40, Point::P40) => {
            game.player_1 = Point::PAdv;
            game.result = GameResult::OnGoing;
        },
        (Point::P40, _) => {
            game.result = GameResult::P1Win;
        },
        (Point::P30, _) => {
            game.player_1 = Point::P40;
            game.result = GameResult::OnGoing;
        },
        (Point::P15, _) => {
            game.player_1 = Point::P30;
            game.result = GameResult::OnGoing;
        },
        (Point::P0, _) => {
            game.player_1 = Point::P15;
            game.result = GameResult::OnGoing;
        },
    }
}

/// Exchanges the two players of `game`.
pub fn swap_score(game: &mut Game)
    ensures
        *final(game) == old(game).mirrored(),
        old(game).well_formed() ==> final(game).well_formed(),
{
    let temp = game.player_1;
    game.player_1 = game.player_2;
    game.player_2 = temp;
    game.result = match game.result {
        GameResult::P1Win => GameResult::P2Win,
        GameResult::P2Win => GameResult::P1Win,
        GameResult::OnGoing => GameResult::OnGoing,
    };
}

/// Applies one scoring event to `game`. Every game and every event is
/// accepted; a game that is already decided is left as it is.
pub fn update_game(game: &mut Game, update: &GameUpdate)
    ensures
        *final(game) == old(game).after(*update),
        old(game).result != GameResult::OnGoing ==> *final(game) == *old(game),
        old(game).well_formed() ==> final(game).well_formed(),
{
    if game.result != GameResult::OnGoing {
        return;
    }
    match update {
        GameUpdate::P1Score => {
            adv_p1_score(game);
        },
        GameUpdate::P2Score => {
            swap_score(game);
            adv_p1_score(game);
            swap_score(game);
            proof {
                lemma_p2_scored_mirrors_p1_scored(*old(game));
            }
        },
    }
}

} // verus!
