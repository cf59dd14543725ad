//! Errors raised by the domain layer.

use vstd::prelude::*;

use crate::domain::Position;
use crate::domain::username::UsernameError;
use crate::text::{decimal, push_decimal, text};

verus! {

/// Errors raised by the domain layer.
#[derive(Debug)]
#[allow(inconsistent_fields)]
pub enum DomainError {
    /// The requested position is outside the valid range.
    InvalidPosition {
        /// The offending value.
        value: u8,
    },
    /// The requested cell is already occupied.
    CellOccupied {
        /// The position that was already taken.
        position: Position,
    },
    /// The provided username fails validation.
    InvalidUsername {
        /// The offending value.
        value: String,
        /// Why the username was rejected.
        reason: UsernameError,
    },
    /// The provided age is outside the accepted range.
    InvalidAge {
        /// The offending value.
        value: u8,
    },
    /// A display name was required but was empty.
    EmptyName,
}

impl DomainError {
    /// The human-readable text of the error.
    pub open spec fn spec_text(&self) -> Seq<char> {
        match self {
            DomainError::InvalidPosition { value } => "position "@ + decimal(*value as nat)
                + " is out of range; valid values are 0..=8"@,
            DomainError::CellOccupied { position } => "cell at position Position("@ + decimal(
                position@,
            ) + ") is already occupied"@,
            DomainError::InvalidUsername { value, reason } => "invalid username `"@ + value@
                + "`: "@ + reason.spec_text(),
            DomainError::InvalidAge { value } => "age "@ + decimal(*value as nat)
                + " is out of range; valid values are 8..=90"@,
            DomainError::EmptyName => "display name must not be empty"@,
        }
    }

    /// Returns the human-readable text of the error.
    pub fn to_string(&self) -> (r: String)
        ensures
            r@ == self.spec_text(),
    {
        match self {
            DomainError::InvalidPosition { value } => {
                let mut s = text("position ");
                push_decimal(&mut s, *value as u64);
                s.append(" is out of range; valid values are 0..=8");
                s
            },
            DomainError::CellOccupied { position } => {
                let mut s = text("cell at position Position(");
                push_decimal(&mut s, position.value() as u64);
                s.append(") is already occupied");
                s
            },
            DomainError::InvalidUsername { value, reason } => {
                let mut s = text("invalid username `");
                s.append(value.as_str());
                s.append("`: ");
                s.append(reason.to_string().as_str());
                s
            },
            DomainError::InvalidAge { value } => {
                let mut s = text("age ");
                push_decimal(&mut s, *value as u64);
                s.append(" is out of range; valid values are 8..=90");
                s
            },
            DomainError::EmptyName => text("display name must not be empty"),
        }
    }
}

} // verus!
