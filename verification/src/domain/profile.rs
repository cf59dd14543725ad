//! Public user profiles and ranking entries.

use vstd::prelude::*;

use super::age::Age;
use super::username::Username;

verus! {

/// The public profile of a registered user. It never holds the password.
#[derive(Debug, PartialEq, Eq)]
pub struct UserProfile {
    /// The user's display name.
    pub name: String,
    /// The user's unique username.
    pub username: Username,
    /// The user's age.
    pub age: Age,
}

impl Clone for UserProfile {
    fn clone(&self) -> (r: UserProfile)
        ensures
            r == *self,
    {
        UserProfile { name: self.name.clone(), username: self.username.clone(), age: self.age }
    }
}

/// A single entry in the top-players ranking.
#[derive(Debug, PartialEq, Eq)]
pub struct RankingEntry {
    /// The player's unique username.
    pub username: Username,
    /// The player's display name at the time of the last recorded win.
    pub name: String,
    /// The number of games the player has won.
    pub wins: u32,
}

impl Clone for RankingEntry {
    fn clone(&self) -> (r: RankingEntry)
        ensures
            r == *self,
    {
        RankingEntry { username: self.username.clone(), name: self.name.clone(), wins: self.wins }
    }
}

} // verus!
