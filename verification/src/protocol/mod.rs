//! Messages exchanged between the client and the server, and the
//! identifiers they carry.

pub mod auth_failure;
pub mod client_message;
pub mod ids;
pub mod match_summary;
pub mod server_message;

pub use auth_failure::AuthFailureReason;
pub use client_message::ClientMessage;
pub use ids::{ClientId, MatchId};
pub use match_summary::MatchSummary;
pub use server_message::{ErrorCode, ServerMessage};

use vstd::prelude::*;

verus! {

/// Maximum number of spectators that may observe a single match. A match
/// always seats exactly two players and up to this many observers.
pub const MAX_SPECTATORS: u32 = 5;

} // verus!
