//! The values of a game: point levels, outcomes, scoring events and the
//! game itself. All of them are plain data, so each value is its own model.

use vstd::prelude::*;

verus! {

/// A player's point level within one game.
#[derive(PartialEq, Eq, Structural, Clone, Copy, Debug)]
pub enum Point {
    /// Love: no point won yet.
    P0,
    /// Fifteen.
    P15,
    /// Thirty.
    P30,
    /// Forty.
    P40,
    /// Advantage, reached from deuce.
    PAdv,
}

/// The outcome of a game so far.
#[derive(PartialEq, Eq, Structural, Clone, Copy, Debug)]
pub enum GameResult {
    /// Player 1 has won the game.
    P1Win,
    /// Player 2 has won the game.
    P2Win,
    /// Nobody has won yet.
    OnGoing,
}

/// One point won by one of the players.
#[derive(PartialEq, Eq, Structural, Clone, Copy, Debug)]
pub enum GameUpdate {
    /// Player 1 wins the point.
    P1Score,
    /// Player 2 wins the point.
    P2Score,
}

/// A game: both players' point levels and the outcome.
#[derive(PartialEq, Eq, Structural, Clone, Copy, Debug)]
pub struct Game {
    /// The point level of player 1.
    pub player_1: Point,
    /// The point level of player 2.
    pub player_2: Point,
    /// Who has won, if anybody has.
    pub result: GameResult,
}

impl Point {
    /// The position of a level in the progression from love to advantage.
    pub open spec fn level(self) -> nat {
        match self {
            Point::P0 => 0,
            Point::P15 => 1,
            Point::P30 => 2,
            Point::P40 => 3,
            Point::PAdv => 4,
        }
    }
}

impl Game {
    /// The state every game starts from: love all, nobody has won.
    pub open spec fn initial() -> Game {
        Game { player_1: Point::P0, player_2: Point::P0, result: GameResult::OnGoing }
    }

    /// The states that play can produce. Advantage is only ever held against
    /// forty, and a winner stands at forty or above and ahead of the loser.
    pub open spec fn well_formed(self) -> bool {
        &&& self.player_1 == Point::PAdv ==> self.player_2 == Point::P40
        &&& self.player_2 == Point::PAdv ==> self.player_1 == Point::P40
        &&& self.result == GameResult::P1Win ==> {
            &&& self.player_1.level() >= Point::P40.level()
            &&& self.player_1.level() > self.player_2.level()
        }
        &&& self.result == GameResult::P2Win ==> {
            &&& self.player_2.level() >= Point::P40.level()
            &&& self.player_2.level() > self.player_1.level()
        }
    }

    /// A fresh game.
    pub fn new() -> (game: Game)
        ensures
            game == Game::initial(),
            game.well_formed(),
    {
        Game { player_1: Point::P0, player_2: Point::P0, result: GameResult::OnGoing }
    }
}

} // verus!
