//! Server-assigned identifiers.

use vstd::prelude::*;

use crate::text::{decimal, push_decimal, text};

verus! {

/// An opaque, server-assigned identifier for a connected client.
#[derive(Debug, Clone, Copy, PartialEq, Eq, Hash, PartialOrd, Ord, Structural)]
pub struct ClientId(u64);

impl View for ClientId {
    type V = u64;

    closed spec fn view(&self) -> u64 {
        self.0
    }
}

impl ClientId {
    /// Creates a new identifier.
    pub fn new(value: u64) -> (r: ClientId)
        ensures
            r@ == value,
    {
        ClientId(value)
    }

    /// Returns the underlying value.
    pub fn value(self) -> (r: u64)
        ensures
            r == self@,
    {
        self.0
    }

    /// The text of the identifier: `client-` followed by the value.
    pub open spec fn spec_text(self) -> Seq<char> {
        "client-"@ + decimal(self@ as nat)
    }

    /// Returns the text of the identifier, such as `client-7`.
    pub fn to_string(&self) -> (r: String)
        ensures
            r@ == self.spec_text(),
    {
        let mut s = text("client-");
        push_decimal(&mut s, self.0);
        s
    }
}

/// An opaque, server-assigned identifier for a match.
#[derive(Debug, Clone, Copy, PartialEq, Eq, Hash, PartialOrd, Ord, Structural)]
pub struct MatchId(u64);

impl View for MatchId {
    type V = u64;

    closed spec fn view(&self) -> u64 {
        self.0
    }
}

impl MatchId {
    /// Creates a new identifier.
    pub fn new(value: u64) -> (r: MatchId)
        ensures
            r@ == value,
    {
        MatchId(value)
    }

    /// Returns the underlying value.
    pub fn value(self) -> (r: u64)
        ensures
            r == self@,
    {
        self.0
    }

    /// The text of the identifier: `match-` followed by the value.
    pub open spec fn spec_text(self) -> Seq<char> {
        "match-"@ + decimal(self@ as nat)
    }

    /// Returns the text of the identifier, such as `match-3`.
    pub fn to_string(&self) -> (r: String)
        ensures
            r@ == self.spec_text(),
    {
        let mut s = text("match-");
        push_decimal(&mut s, self.0);
        s
    }
}

} // verus!
