//! Messages sent by a client to the server.

use vstd::prelude::*;

use super::ids::MatchId;
use crate::domain::Position;

verus! {

/// A message sent by a client to the server.
#[derive(Debug, Clone, PartialEq, Eq)]
pub enum ClientMessage {
    /// Announces the client's display name and enters the lobby as a guest.
    Hello {
        /// The display name chosen by the player.
        display_name: String,
    },
    /// Creates a new account and authenticates the client in the same step.
    Register {
        /// The user's display name.
        name: String,
        /// The desired username.
        username: String,
        /// The user's age.
        age: u8,
        /// The password, in plain text.
        password: String,
    },
    /// Authenticates an existing account.
    Login {
        /// The account's username.
        username: String,
        /// The account's password, in plain text.
        password: String,
    },
    /// Requests the current list of open matches.
    ListMatches,
    /// Requests the top-players ranking.
    ListRanking,
    /// Creates a new match hosted by the caller.
    CreateMatch,
    /// Joins an existing match.
    JoinMatch {
        /// The identifier of the match to join.
        match_id: MatchId,
    },
    /// Starts watching a match without playing it.
    Spectate {
        /// The identifier of the match to watch.
        match_id: MatchId,
    },
    /// Stops watching the match the caller is spectating.
    LeaveSpectate,
    /// Plays a move in the caller's current match.
    MakeMove {
        /// The position the player wants to claim.
        position: Position,
    },
    /// Abandons the caller's current match.
    LeaveMatch,
    /// Liveness probe.
    Ping,
}

} // verus!
