//! Outcome of a scenario run.

use vstd::prelude::*;

verus! {

/// The result of running one scenario against the server.
#[derive(Debug, Clone, PartialEq, Eq)]
pub enum Outcome {
    /// The server defended against the probe.
    Defended {
        /// A human-readable explanation of what was observed.
        detail: String,
    },
    /// The server was successfully attacked.
    Compromised {
        /// A human-readable explanation of the failure.
        detail: String,
    },
}

impl Outcome {
    /// The explanation carried by the outcome.
    pub open spec fn spec_detail(&self) -> Seq<char> {
        match self {
            Outcome::Defended { detail } => detail@,
            Outcome::Compromised { detail } => detail@,
        }
    }

    /// Constructs a `Defended` outcome.
    pub fn defended(detail: &str) -> (r: Outcome)
        ensures
            r is Defended,
            r.spec_detail() == detail@,
    {
        Outcome::Defended { detail: String::from_str(detail) }
    }

    /// Constructs a `Compromised` outcome.
    pub fn compromised(detail: &str) -> (r: Outcome)
        ensures
            r is Compromised,
            r.spec_detail() == detail@,
    {
        Outcome::Compromised { detail: String::from_str(detail) }
    }

    /// Returns `true` when the server defended.
    pub fn is_defended(&self) -> (r: bool)
        ensures
            r == self is Defended,
    {
        match self {
            Outcome::Defended { .. } => true,
            Outcome::Compromised { .. } => false,
        }
    }

    /// Returns the uppercase label used in the report line.
    pub fn label(&self) -> (r: &'static str)
        ensures
            r@ == if self is Defended {
                "DEFENDED"@
            } else {
                "COMPROMISED"@
            },
    {
        match self {
            Outcome::Defended { .. } => "DEFENDED",
            Outcome::Compromised { .. } => "COMPROMISED",
        }
    }

    /// Returns the human-readable detail string.
    pub fn detail(&self) -> (r: &str)
        ensures
            r@ == self.spec_detail(),
    {
        match self {
            Outcome::Defended { detail } => detail.as_str(),
            Outcome::Compromised { detail } => detail.as_str(),
        }
    }
}

} // verus!
