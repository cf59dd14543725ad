//! Board positions.

use vstd::prelude::*;

use crate::error::DomainError;

verus! {

/// A validated position on the 3x3 board, indexed `0` through `8` in
/// row-major order:
///
/// ```text
///   0 | 1 | 2
///  ---+---+---
///   3 | 4 | 5
///  ---+---+---
///   6 | 7 | 8
/// ```
#[derive(Debug, Clone, Copy, PartialEq, Eq, Hash, Structural)]
pub struct Position(u8);

impl View for Position {
    type V = nat;

    closed spec fn view(&self) -> nat {
        self.0 as nat
    }
}

impl Position {
    /// The total number of positions on a classic board.
    pub const COUNT: u8 = 9;

    #[verifier::type_invariant]
    spec fn in_range(self) -> bool {
        self.0 < 9
    }

    /// Creates a new position, validating the range `0..=8`.
    pub fn new(value: u8) -> (r: Result<Position, DomainError>)
        ensures
            value < 9 ==> (r matches Ok(p) && p@ == value),
            value >= 9 ==> r == Err::<Position, DomainError>(DomainError::InvalidPosition { value }),
    {
        if value < Self::COUNT {
            Ok(Position(value))
        } else {
            Err(DomainError::InvalidPosition { value })
        }
    }

    /// Returns the zero-based index into the flat cell array.
    pub fn index(self) -> (r: usize)
        ensures
            r == self@,
            r < 9,
    {
        proof {
            use_type_invariant(&self);
        }
        self.0 as usize
    }

    /// Returns the row (`0`, `1`, or `2`) of the position.
    pub fn row(self) -> (r: u8)
        ensures
            r == self@ / 3,
            r < 3,
    {
        proof {
            use_type_invariant(&self);
        }
        self.0 / 3
    }

    /// Returns the column (`0`, `1`, or `2`) of the position.
    pub fn column(self) -> (r: u8)
        ensures
            r == self@ % 3,
            r < 3,
    {
        self.0 % 3
    }

    /// Returns the value of the position.
    pub fn value(self) -> (r: u8)
        ensures
            r == self@,
            r < 9,
    {
        proof {
            use_type_invariant(&self);
        }
        self.0
    }

    /// Returns every valid position, in increasing order.
    pub fn iter() -> (r: Vec<Position>)
        ensures
            r@.len() == 9,
            forall|i: int| 0 <= i < 9 ==> #[trigger] r@[i]@ == i,
    {
        let mut out: Vec<Position> = Vec::new();
        let mut v: u8 = 0;
        while v < Self::COUNT
            invariant
                v <= 9,
                out@.len() == v,
                forall|i: int| 0 <= i < v ==> #[trigger] out@[i]@ == i,
            decreases 9 - v,
        {
            out.push(Position(v));
            v = v + 1;
        }
        out
    }
}

/// A position's row and column give back its index: `3 * row + column`.
pub proof fn lemma_row_column_index(p: Position)
    ensures
        3 * (p@ / 3) + p@ % 3 == p@,
{
}

impl TryFrom<u8> for Position {
    type Error = DomainError;

    fn try_from(value: u8) -> (r: Result<Position, DomainError>) {
        Position::new(value)
    }
}

impl vstd::std_specs::convert::TryFromSpecImpl<u8> for Position {
    open spec fn obeys_try_from_spec() -> bool {
        true
    }

    closed spec fn try_from_spec(v: u8) -> Result<Position, DomainError> {
        if v < 9 {
            Ok(Position(v))
        } else {
            Err(DomainError::InvalidPosition { value: v })
        }
    }
}

impl From<Position> for u8 {
    fn from(value: Position) -> (r: u8) {
        value.0
    }
}

impl vstd::std_specs::convert::FromSpecImpl<Position> for u8 {
    open spec fn obeys_from_spec() -> bool {
        true
    }

    open spec fn from_spec(v: Position) -> u8 {
        v@ as u8
    }
}

} // verus!
