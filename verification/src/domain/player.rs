//! Player marks.

use vstd::prelude::*;

verus! {

/// A player's mark on the board.
#[derive(Debug, Clone, Copy, PartialEq, Eq, Hash, Structural)]
pub enum Player {
    /// The first player.
    X,
    /// The second player.
    O,
}

impl Player {
    /// The opposite mark.
    pub open spec fn opponent(self) -> Player {
        match self {
            Player::X => Player::O,
            Player::O => Player::X,
        }
    }

    /// Returns the opposite mark.
    pub fn other(self) -> (r: Player)
        ensures
            r == self.opponent(),
    {
        match self {
            Player::X => Player::O,
            Player::O => Player::X,
        }
    }

    /// The name of the mark, as `Debug` writes it.
    pub open spec fn spec_name(self) -> Seq<char> {
        match self {
            Player::X => "X"@,
            Player::O => "O"@,
        }
    }

    /// Returns the name of the mark, as `Debug` writes it.
    pub fn name(self) -> (r: &'static str)
        ensures
            r@ == self.spec_name(),
    {
        match self {
            Player::X => "X",
            Player::O => "O",
        }
    }
}

/// Taking the opposite mark twice gives the mark back, and a mark is never
/// its own opposite.
pub proof fn lemma_other_is_involutive(p: Player)
    ensures
        p.opponent().opponent() == p,
        p.opponent() != p,
{
}

} // verus!
