//! Board cells.

use vstd::prelude::*;

use super::player::Player;

verus! {

/// The state of a single cell on the board.
#[derive(Debug, Clone, Copy, PartialEq, Eq, Structural)]
pub enum Cell {
    /// The cell has not been played yet.
    Empty,
    /// The cell has been claimed by the given player.
    Occupied(Player),
}

impl Default for Cell {
    fn default() -> (r: Cell)
        ensures
            r == Cell::Empty,
    {
        Cell::Empty
    }
}

impl Cell {
    /// Returns `true` if the cell is empty.
    pub fn is_empty(self) -> (r: bool)
        ensures
            r == (self is Empty),
    {
        match self {
            Cell::Empty => true,
            Cell::Occupied(_) => false,
        }
    }

    /// Returns the owning player, or `None` if the cell is empty.
    pub fn owner(self) -> (r: Option<Player>)
        ensures
            r == (match self {
                Cell::Empty => None,
                Cell::Occupied(p) => Some(p),
            }),
    {
        match self {
            Cell::Empty => None,
            Cell::Occupied(player) => Some(player),
        }
    }
}

} // verus!
