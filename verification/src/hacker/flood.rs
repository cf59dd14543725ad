//! Judging a server under load: once many sessions have come and gone,
//! a new session must still be welcomed.

use vstd::prelude::*;

use super::outcome::Outcome;
use super::scenario::{compromised_with, defended_with, outcome_with};
use crate::protocol::ServerMessage;
use crate::text::{decimal, push_decimal, text};

verus! {

/// How many sessions the flood opens at once.
pub const FLOOD_CONNECTIONS: u64 = 32;

/// The verdict after the flood: defended when the fresh session's first
/// reply is a welcome, reporting how many flood sessions failed locally.
pub open spec fn flood_verdict(failures: u64, reply: ServerMessage, reply_text: Seq<char>, o: Outcome) -> bool {
    if reply is Welcome {
        defended_with(
            o,
            "32 concurrent sessions opened and closed; server still accepts new sessions (local failures: "@
                + decimal(failures as nat) + ")"@,
        )
    } else {
        compromised_with(o, "post-flood handshake returned "@ + reply_text)
    }
}

/// Judges the first reply (shown as `reply_text`) of the session opened
/// after the flood; `failures` counts the flood sessions that failed.
pub fn judge_flood(failures: u64, reply: &ServerMessage, reply_text: &str) -> (r: Outcome)
    ensures
        flood_verdict(failures, *reply, reply_text@, r),
{
    match reply {
        ServerMessage::Welcome { .. } => {
            let mut s = text(
                "32 concurrent sessions opened and closed; server still accepts new sessions (local failures: ",
            );
            push_decimal(&mut s, failures);
            s.append(")");
            Outcome::Defended { detail: s }
        },
        _ => outcome_with(false, "post-flood handshake returned ", reply_text),
    }
}

} // verus!
