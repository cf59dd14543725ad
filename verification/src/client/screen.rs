//! The screen the client is currently showing.

use vstd::prelude::*;

use super::auth_form::AuthForm;
use crate::domain::{Board, GameStatus, Player, RankingEntry};
use crate::protocol::{MatchId, MatchSummary};

verus! {

/// A match the local user is playing.
#[derive(Debug, Clone, PartialEq, Eq)]
pub struct ActiveMatch {
    /// The match identifier.
    pub id: MatchId,
    /// The opponent's display name.
    pub opponent: String,
    /// The mark assigned to the local player.
    pub your_mark: Player,
    /// The current board.
    pub board: Board,
    /// Whose turn it is.
    pub current_turn: Player,
    /// The current status.
    pub status: GameStatus,
}

/// The match the local user is spectating.
#[derive(Debug, Clone, PartialEq, Eq)]
pub struct SpectatedMatch {
    /// The match identifier.
    pub id: MatchId,
    /// The host's display name.
    pub host_name: String,
    /// The guest's display name, or an empty string when no guest has joined.
    pub guest_name: String,
    /// The current board.
    pub board: Board,
    /// Whose turn it is.
    pub current_turn: Player,
    /// The current status.
    pub status: GameStatus,
    /// The number of spectators, including the local user.
    pub spectator_count: u32,
}

/// The screen currently shown to the user.
#[derive(Debug, Clone, PartialEq, Eq)]
pub enum Screen {
    /// The connection form, shown when the server or the guest name is not
    /// known from the command line.
    Connection,
    /// Waiting for the connection to be established.
    Connecting,
    /// Authenticating as a registered user.
    Auth(Box<AuthForm>),
    /// Browsing the list of matches.
    Lobby {
        /// The most recent snapshot of matches.
        matches: Vec<MatchSummary>,
        /// When `true`, digits select a match to spectate instead of a
        /// match to join.
        spectator_mode: bool,
    },
    /// Viewing the top-players ranking.
    Ranking {
        /// The most recent snapshot of the ranking.
        entries: Vec<RankingEntry>,
    },
    /// Playing a match.
    InGame(Box<ActiveMatch>),
    /// Watching a match without playing it.
    Spectating(Box<SpectatedMatch>),
    /// The match has ended.
    Finished {
        /// The final board.
        board: Board,
        /// The final status.
        status: GameStatus,
        /// The winner's display name, when the match ended with a victory.
        winner_name: Option<String>,
    },
    /// A fatal error occurred.
    Fatal(String),
}

/// The matches the lobby lists: in join mode only those with a free seat,
/// in spectator mode all of them, in list order. Other screens list none.
pub open spec fn listed_matches(screen: Screen) -> Seq<MatchSummary> {
    match screen {
        Screen::Lobby { matches, spectator_mode } => matches@.filter(
            |m: MatchSummary| spectator_mode || !m.is_full,
        ),
        _ => Seq::empty(),
    }
}

impl Screen {
    /// The short label shown in the header.
    pub open spec fn spec_title(&self) -> Seq<char> {
        match self {
            Screen::Connection => "Connection"@,
            Screen::Connecting => "Connecting"@,
            Screen::Auth(_) => "Auth"@,
            Screen::Lobby { .. } => "Lobby"@,
            Screen::Ranking { .. } => "Ranking"@,
            Screen::InGame(_) => "In game"@,
            Screen::Spectating(_) => "Spectating"@,
            Screen::Finished { .. } => "Result"@,
            Screen::Fatal(_) => "Error"@,
        }
    }

    /// Returns a short label suitable for the header.
    pub fn title(&self) -> (r: &'static str)
        ensures
            r@ == self.spec_title(),
    {
        match self {
            Screen::Connection => "Connection",
            Screen::Connecting => "Connecting",
            Screen::Auth(_) => "Auth",
            Screen::Lobby { .. } => "Lobby",
            Screen::Ranking { .. } => "Ranking",
            Screen::InGame(_) => "In game",
            Screen::Spectating(_) => "Spectating",
            Screen::Finished { .. } => "Result",
            Screen::Fatal(_) => "Error",
        }
    }

    /// Returns the matches the lobby shows in the current mode, in the
    /// order the UI lists them and the digit keys index them.
    pub fn visible_matches(&self) -> (r: Vec<&MatchSummary>)
        ensures
            r@.len() == listed_matches(*self).len(),
            forall|i: int| 0 <= i < r@.len() ==> *(#[trigger] r@[i]) == listed_matches(*self)[i],
    {
        match self {
            Screen::Lobby { matches, spectator_mode } => {
                let ghost keep = |m: MatchSummary| *spectator_mode || !m.is_full;
                let mut out: Vec<&MatchSummary> = Vec::new();
                let mut i: usize = 0;
                while i < matches.len()
                    invariant
                        i <= matches@.len(),
                        keep == (|m: MatchSummary| *spectator_mode || !m.is_full),
                        out@.len() == matches@.take(i as int).filter(keep).len(),
                        forall|j: int|
                            0 <= j < out@.len() ==> *(#[trigger] out@[j]) == matches@.take(
                                i as int,
                            ).filter(keep)[j],
                    decreases matches@.len() - i,
                {
                    proof {
                        reveal_with_fuel(Seq::<_>::filter, 1);
                        assert(matches@.take(i + 1).drop_last() =~= matches@.take(i as int));
                    }
                    if *spectator_mode || !matches[i].is_full {
                        out.push(&matches[i]);
                    }
                    i = i + 1;
                }
                assert(matches@.take(matches@.len() as int) =~= matches@);
                out
            },
            _ => Vec::new(),
        }
    }
}

} // verus!
