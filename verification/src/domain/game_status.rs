//! Game status.

use vstd::prelude::*;

use super::player::Player;

verus! {

/// The current status of a game.
#[derive(Debug, Clone, Copy, PartialEq, Eq, Structural)]
pub enum GameStatus {
    /// The game is still being played.
    InProgress,
    /// The game ended with a winner.
    Won(Player),
    /// The game ended in a draw.
    Draw,
}

impl GameStatus {
    /// Returns `true` if the game has ended.
    pub fn is_finished(self) -> (r: bool)
        ensures
            r == !(self is InProgress),
    {
        match self {
            GameStatus::InProgress => false,
            _ => true,
        }
    }

    /// Returns the winner, if any.
    pub fn winner(self) -> (r: Option<Player>)
        ensures
            r == (match self {
                GameStatus::Won(p) => Some(p),
                _ => None,
            }),
    {
        match self {
            GameStatus::Won(player) => Some(player),
            _ => None,
        }
    }

    /// The name of the status, as `Debug` writes it.
    pub open spec fn spec_name(self) -> Seq<char> {
        match self {
            GameStatus::InProgress => "InProgress"@,
            GameStatus::Won(p) => "Won("@ + p.spec_name() + ")"@,
            GameStatus::Draw => "Draw"@,
        }
    }
}

} // verus!
