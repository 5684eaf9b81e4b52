//! Scoring of a single tennis game between two players.
//!
//! A [`Game`] holds each player's point level and the outcome so far.
//! [`update_game`] advances it by one point won; every transition is stated
//! over the spec functions of [`engine`] and proved against them.

pub mod engine;
pub mod laws;
pub mod score;

pub use engine::{adv_p1_score, swap_score, update_game};
pub use score::{Game, GameResult, GameUpdate, Point};
