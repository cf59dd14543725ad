//! Summary of a match shown in the lobby.

use vstd::prelude::*;

use super::ids::MatchId;

verus! {

/// A short description of a match, sent to clients browsing the lobby. The
/// server sends every match, full or not; the client decides what to show.
#[derive(Debug, PartialEq, Eq)]
pub struct MatchSummary {
    /// The match identifier.
    pub id: MatchId,
    /// The display name of the player who created the match.
    pub host: String,
    /// The number of spectators currently watching the match.
    pub spectator_count: u32,
    /// Whether both player slots are occupied.
    pub is_full: bool,
}

impl Clone for MatchSummary {
    fn clone(&self) -> (r: MatchSummary)
        ensures
            r == *self,
    {
        MatchSummary {
            id: self.id,
            host: self.host.clone(),
            spectator_count: self.spectator_count,
            is_full: self.is_full,
        }
    }
}

} // verus!
