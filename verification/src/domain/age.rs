//! Validated ages.

use vstd::prelude::*;

use crate::error::DomainError;

verus! {

/// A validated age, restricted to `8..=90`.
#[derive(Debug, Clone, Copy, PartialEq, Eq, PartialOrd, Ord, Hash, Structural)]
pub struct Age(u8);

impl View for Age {
    type V = u8;

    closed spec fn view(&self) -> u8 {
        self.0
    }
}

/// Whether `value` is an accepted age.
pub open spec fn valid_age(value: u8) -> bool {
    8 <= value <= 90
}

impl Age {
    /// The minimum accepted age.
    pub const MIN: u8 = 8;

    /// The maximum accepted age.
    pub const MAX: u8 = 90;

    #[verifier::type_invariant]
    spec fn in_range(self) -> bool {
        valid_age(self.0)
    }

    /// Creates a new age, validating it against the accepted range.
    pub fn new(value: u8) -> (r: Result<Age, DomainError>)
        ensures
            valid_age(value) ==> (r matches Ok(a) && a@ == value),
            !valid_age(value) ==> r == Err::<Age, DomainError>(DomainError::InvalidAge { value }),
    {
        if value >= Self::MIN && value <= Self::MAX {
            Ok(Age(value))
        } else {
            Err(DomainError::InvalidAge { value })
        }
    }

    /// Returns the age as a `u8`.
    pub fn value(self) -> (r: u8)
        ensures
            r == self@,
            valid_age(r),
    {
        proof {
            use_type_invariant(&self);
        }
        self.0
    }
}

impl TryFrom<u8> for Age {
    type Error = DomainError;

    fn try_from(value: u8) -> (r: Result<Age, DomainError>) {
        Age::new(value)
    }
}

impl vstd::std_specs::convert::TryFromSpecImpl<u8> for Age {
    open spec fn obeys_try_from_spec() -> bool {
        true
    }

    closed spec fn try_from_spec(v: u8) -> Result<Age, DomainError> {
        if valid_age(v) {
            Ok(Age(v))
        } else {
            Err(DomainError::InvalidAge { value: v })
        }
    }
}

impl From<Age> for u8 {
    fn from(value: Age) -> (r: u8) {
        value.0
    }
}

impl vstd::std_specs::convert::FromSpecImpl<Age> for u8 {
    open spec fn obeys_from_spec() -> bool {
        true
    }

    open spec fn from_spec(v: Age) -> u8 {
        v@
    }
}

} // verus!
