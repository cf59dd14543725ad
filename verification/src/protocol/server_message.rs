//! Messages sent by the server to a client.

use vstd::prelude::*;

use super::auth_failure::AuthFailureReason;
use super::ids::{ClientId, MatchId};
use super::match_summary::MatchSummary;
use crate::domain::{Board, GameStatus, Player, RankingEntry, UserProfile};

verus! {

/// A message sent by the server to a client.
#[derive(Debug, Clone, PartialEq, Eq)]
pub enum ServerMessage {
    /// Sent once after a successful `Hello`.
    Welcome {
        /// The identifier assigned to the client.
        client_id: ClientId,
        /// The display name echoed back.
        display_name: String,
    },
    /// Sent after a successful `Register`.
    Registered {
        /// The newly created profile.
        profile: UserProfile,
    },
    /// Sent after a successful `Login`.
    LoginSucceeded {
        /// The authenticated user's profile.
        profile: UserProfile,
    },
    /// Sent when an authentication attempt fails.
    AuthenticationFailed {
        /// A stable, machine-readable reason.
        reason: AuthFailureReason,
        /// A human-readable description.
        message: String,
    },
    /// The current list of matches.
    MatchList {
        /// The available matches.
        matches: Vec<MatchSummary>,
    },
    /// The current top-players ranking, ordered by wins descending.
    Ranking {
        /// The top entries, at most ten.
        entries: Vec<RankingEntry>,
    },
    /// Sent when a match has been created and is waiting for an opponent.
    MatchCreated {
        /// The identifier of the freshly created match.
        match_id: MatchId,
    },
    /// Sent when two players have been paired and the game is ready.
    MatchReady {
        /// The match identifier.
        match_id: MatchId,
        /// The opponent's display name.
        opponent: String,
        /// The mark assigned to the recipient.
        your_mark: Player,
        /// The initial board state.
        board: Board,
        /// The player who moves first.
        current_turn: Player,
    },
    /// Sent after every accepted move.
    BoardUpdate {
        /// The updated board.
        board: Board,
        /// The player who must move next.
        current_turn: Player,
        /// The current status.
        status: GameStatus,
    },
    /// Sent when the match has ended normally.
    MatchOver {
        /// The final board.
        board: Board,
        /// The final status.
        status: GameStatus,
        /// The display name of the winner, when `status` is `Won`.
        winner_name: Option<String>,
    },
    /// Sent when a match is dissolved before it ends.
    MatchAbandoned {
        /// The match identifier.
        match_id: MatchId,
    },
    /// Sent when the opponent has left the match.
    OpponentLeft {
        /// The match identifier.
        match_id: MatchId,
    },
    /// Sent when one of the two players has disconnected; the server waits
    /// `grace_seconds` before abandoning the match.
    OpponentDisconnected {
        /// The match identifier.
        match_id: MatchId,
        /// How many seconds the server will wait.
        grace_seconds: u32,
    },
    /// Sent when the disconnected player reconnects.
    OpponentReconnected {
        /// The match identifier.
        match_id: MatchId,
    },
    /// Sent to a client that has just started spectating a match.
    SpectateStarted {
        /// The match identifier.
        match_id: MatchId,
        /// The host's display name.
        host_name: String,
        /// The guest's display name, or an empty string.
        guest_name: String,
        /// The board at the moment the spectator joined.
        board: Board,
        /// The player whose turn it is.
        current_turn: Player,
        /// The current status.
        status: GameStatus,
        /// The number of spectators, including the recipient.
        spectator_count: u32,
    },
    /// Sent when a new spectator joins.
    SpectatorJoined {
        /// The display name of the spectator that joined.
        username: String,
        /// The total number of spectators after the join.
        spectator_count: u32,
    },
    /// Sent when a spectator leaves.
    SpectatorLeft {
        /// The display name of the spectator that left.
        username: String,
        /// The total number of spectators after the departure.
        spectator_count: u32,
    },
    /// A protocol-level error.
    Error {
        /// A stable, machine-readable error code.
        code: ErrorCode,
        /// A human-readable description.
        message: String,
    },
    /// Response to `Ping`.
    Pong,
}

/// A stable, machine-readable error code.
#[derive(Debug, Clone, Copy, PartialEq, Eq, Structural)]
pub enum ErrorCode {
    /// The client sent a message that is not valid in its current state.
    InvalidState,
    /// The client referenced a match that does not exist.
    MatchNotFound,
    /// The client referenced a match that is already full.
    MatchFull,
    /// The client attempted an illegal move.
    IllegalMove,
    /// The message could not be parsed.
    MalformedMessage,
    /// The client is not part of any match.
    NotInMatch,
    /// The client sent a display name that was rejected.
    InvalidDisplayName,
    /// The action requires an authenticated account.
    AuthenticationRequired,
    /// The client tried to join a match it already hosts.
    CannotJoinOwnMatch,
    /// The match already has the maximum number of spectators.
    SpectatorLimitReached,
    /// The client is already spectating a match.
    AlreadySpectating,
    /// The server did not provide a code.
    Unknown,
}

impl Default for ErrorCode {
    fn default() -> (r: ErrorCode)
        ensures
            r == ErrorCode::Unknown,
    {
        ErrorCode::Unknown
    }
}

impl ErrorCode {
    /// The name of the code, as `Debug` writes it.
    pub open spec fn spec_name(self) -> Seq<char> {
        match self {
            ErrorCode::InvalidState => "InvalidState"@,
            ErrorCode::MatchNotFound => "MatchNotFound"@,
            ErrorCode::MatchFull => "MatchFull"@,
            ErrorCode::IllegalMove => "IllegalMove"@,
            ErrorCode::MalformedMessage => "MalformedMessage"@,
            ErrorCode::NotInMatch => "NotInMatch"@,
            ErrorCode::InvalidDisplayName => "InvalidDisplayName"@,
            ErrorCode::AuthenticationRequired => "AuthenticationRequired"@,
            ErrorCode::CannotJoinOwnMatch => "CannotJoinOwnMatch"@,
            ErrorCode::SpectatorLimitReached => "SpectatorLimitReached"@,
            ErrorCode::AlreadySpectating => "AlreadySpectating"@,
            ErrorCode::Unknown => "Unknown"@,
        }
    }

    /// Returns the name of the code, as `Debug` writes it.
    pub fn name(self) -> (r: &'static str)
        ensures
            r@ == self.spec_name(),
    {
        match self {
            ErrorCode::InvalidState => "InvalidState",
            ErrorCode::MatchNotFound => "MatchNotFound",
            ErrorCode::MatchFull => "MatchFull",
            ErrorCode::IllegalMove => "IllegalMove",
            ErrorCode::MalformedMessage => "MalformedMessage",
            ErrorCode::NotInMatch => "NotInMatch",
            ErrorCode::InvalidDisplayName => "InvalidDisplayName",
            ErrorCode::AuthenticationRequired => "AuthenticationRequired",
            ErrorCode::CannotJoinOwnMatch => "CannotJoinOwnMatch",
            ErrorCode::SpectatorLimitReached => "SpectatorLimitReached",
            ErrorCode::AlreadySpectating => "AlreadySpectating",
            ErrorCode::Unknown => "Unknown",
        }
    }
}

} // verus!
