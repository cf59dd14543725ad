//! Reasons an authentication attempt can fail.

use vstd::prelude::*;

verus! {

/// A stable, machine-readable reason an authentication attempt failed.
#[derive(Debug, Clone, Copy, PartialEq, Eq, Structural)]
pub enum AuthFailureReason {
    /// The provided display name was empty.
    NameEmpty,
    /// The requested username is already taken.
    UsernameTaken,
    /// The provided username is not a valid username.
    UsernameInvalid,
    /// The provided age is outside the accepted range.
    AgeOutOfRange,
    /// The provided password is shorter than the minimum.
    PasswordTooShort,
    /// The username and password combination is not valid.
    InvalidCredentials,
    /// The client is already authenticated.
    AlreadyAuthenticated,
    /// The account is already signed in on another connection.
    AlreadyLoggedIn,
    /// The server failed to complete the operation for an infrastructure
    /// reason.
    InternalError,
}

impl AuthFailureReason {
    /// The name of the reason, as `Debug` writes it.
    pub open spec fn spec_name(self) -> Seq<char> {
        match self {
            AuthFailureReason::NameEmpty => "NameEmpty"@,
            AuthFailureReason::UsernameTaken => "UsernameTaken"@,
            AuthFailureReason::UsernameInvalid => "UsernameInvalid"@,
            AuthFailureReason::AgeOutOfRange => "AgeOutOfRange"@,
            AuthFailureReason::PasswordTooShort => "PasswordTooShort"@,
            AuthFailureReason::InvalidCredentials => "InvalidCredentials"@,
            AuthFailureReason::AlreadyAuthenticated => "AlreadyAuthenticated"@,
            AuthFailureReason::AlreadyLoggedIn => "AlreadyLoggedIn"@,
            AuthFailureReason::InternalError => "InternalError"@,
        }
    }

    /// Returns the name of the reason, as `Debug` writes it.
    pub fn name(self) -> (r: &'static str)
        ensures
            r@ == self.spec_name(),
    {
        match self {
            AuthFailureReason::NameEmpty => "NameEmpty",
            AuthFailureReason::UsernameTaken => "UsernameTaken",
            AuthFailureReason::UsernameInvalid => "UsernameInvalid",
            AuthFailureReason::AgeOutOfRange => "AgeOutOfRange",
            AuthFailureReason::PasswordTooShort => "PasswordTooShort",
            AuthFailureReason::InvalidCredentials => "InvalidCredentials",
            AuthFailureReason::AlreadyAuthenticated => "AlreadyAuthenticated",
            AuthFailureReason::AlreadyLoggedIn => "AlreadyLoggedIn",
            AuthFailureReason::InternalError => "InternalError",
        }
    }
}

} // verus!
