//! The spectator-isolation script: a host creates a match, a guest joins
//! it, and a third account starts watching it. The watcher must then be
//! refused both a move and a seat in the match.

use vstd::prelude::*;

use super::outcome::Outcome;
use super::scenario::{
    centre_move, compromised_with, defended_with, numbered, outcome_with, plays_centre,
    register_message, registers,
};
use crate::protocol::{ClientMessage, ErrorCode, MatchId, ServerMessage};

verus! {

/// The three connections the scenario opens.
#[derive(Debug, Clone, Copy, PartialEq, Eq, Structural)]
pub enum Role {
    /// The account that creates the match.
    Host,
    /// The account that joins it as the second player.
    Guest,
    /// The account that watches it.
    Spectator,
}

/// The steps of the scenario, in order; once the match exists, each step
/// carries its identifier.
#[derive(Debug, Clone, Copy, PartialEq, Eq, Structural)]
pub enum IsolationStage {
    /// The host registers.
    HostRegister,
    /// The host creates the match.
    HostCreate,
    /// The guest registers.
    GuestRegister(MatchId),
    /// The guest joins the match.
    GuestJoin(MatchId),
    /// The host is told that the guest joined.
    HostSeesGuest(MatchId),
    /// The spectator registers.
    SpectatorRegister(MatchId),
    /// The spectator starts watching the match.
    Spectate(MatchId),
    /// The host is told that a spectator arrived.
    HostSeesSpectator(MatchId),
    /// The guest is told that a spectator arrived.
    GuestSeesSpectator(MatchId),
    /// The spectator tries to play a move.
    SpectatorMove(MatchId),
    /// The spectator tries to join the match as a player.
    SpectatorJoin(MatchId),
}

/// What the hacker does next.
#[derive(Debug)]
pub enum IsolationAction {
    /// Send `message` on the connection of `role`, and hand the next reply
    /// it receives to [`isolation_step`] with `stage`.
    Exchange {
        /// The step the reply belongs to.
        stage: IsolationStage,
        /// The connection to use.
        role: Role,
        /// The message to send.
        message: ClientMessage,
    },
    /// Hand the next message the connection of `role` receives to
    /// [`isolation_step`] with `stage`.
    Await {
        /// The step the message belongs to.
        stage: IsolationStage,
        /// The connection to read.
        role: Role,
    },
    /// Stop with this outcome.
    Finish(Outcome),
    /// Stop: the scenario could not be set up, for the reason given.
    Fail(String),
}

/// Whether `a` sends a message that `m` accepts on the connection of
/// `role`, as the step `stage`.
pub open spec fn exchanges(
    a: IsolationAction,
    stage: IsolationStage,
    role: Role,
    m: spec_fn(ClientMessage) -> bool,
) -> bool {
    a matches IsolationAction::Exchange { stage: s, role: r, message } && s == stage && r == role
        && m(message)
}

/// The first action: the host registers as `spect_host_` and `suffix`.
pub open spec fn isolation_first(suffix: u64, a: IsolationAction) -> bool {
    exchanges(
        a,
        IsolationStage::HostRegister,
        Role::Host,
        |m: ClientMessage| registers(m, "Adversarial Observer"@, numbered("spect_host_"@, suffix)),
    )
}

/// The detail of a defended run.
pub open spec fn isolation_defended_text() -> Seq<char> {
    "non-players cannot interact with the board; already spectating a match is properly tracked"@
}

/// The script: what follows the message `reply` (shown as `reply_text`)
/// received at step `stage`. `suffix` numbers the username of a
/// registration sent next.
pub open spec fn isolation_next(
    stage: IsolationStage,
    reply: ServerMessage,
    reply_text: Seq<char>,
    suffix: u64,
    a: IsolationAction,
) -> bool {
    let give_up = |head: Seq<char>| a matches IsolationAction::Finish(o) && compromised_with(o, head + reply_text);
    let fail = a matches IsolationAction::Fail(m) && m@ == "expected Registered, got "@ + reply_text;
    let observer = "Adversarial Observer"@;
    match stage {
        IsolationStage::HostRegister => if reply is Registered {
            exchanges(
                a,
                IsolationStage::HostCreate,
                Role::Host,
                |m: ClientMessage| m == ClientMessage::CreateMatch,
            )
        } else {
            fail
        },
        IsolationStage::HostCreate => match reply {
            ServerMessage::MatchCreated { match_id } => exchanges(
                a,
                IsolationStage::GuestRegister(match_id),
                Role::Guest,
                |m: ClientMessage| registers(m, observer, numbered("spect_guest_"@, suffix)),
            ),
            _ => give_up("host CreateMatch returned "@),
        },
        IsolationStage::GuestRegister(id) => if reply is Registered {
            exchanges(
                a,
                IsolationStage::GuestJoin(id),
                Role::Guest,
                |m: ClientMessage| m == ClientMessage::JoinMatch { match_id: id },
            )
        } else {
            fail
        },
        IsolationStage::GuestJoin(id) => if reply is MatchReady {
            a == IsolationAction::Await { stage: IsolationStage::HostSeesGuest(id), role: Role::Host }
        } else {
            give_up("guest JoinMatch returned "@)
        },
        IsolationStage::HostSeesGuest(id) => exchanges(
            a,
            IsolationStage::SpectatorRegister(id),
            Role::Spectator,
            |m: ClientMessage| registers(m, observer, numbered("spect_watch_"@, suffix)),
        ),
        IsolationStage::SpectatorRegister(id) => if reply is Registered {
            exchanges(
                a,
                IsolationStage::Spectate(id),
                Role::Spectator,
                |m: ClientMessage| m == ClientMessage::Spectate { match_id: id },
            )
        } else {
            fail
        },
        IsolationStage::Spectate(id) => if reply is SpectateStarted {
            a == IsolationAction::Await {
                stage: IsolationStage::HostSeesSpectator(id),
                role: Role::Host,
            }
        } else {
            give_up("spectator Spectate returned "@)
        },
        IsolationStage::HostSeesSpectator(id) => a == IsolationAction::Await {
            stage: IsolationStage::GuestSeesSpectator(id),
            role: Role::Guest,
        },
        IsolationStage::GuestSeesSpectator(id) => exchanges(
            a,
            IsolationStage::SpectatorMove(id),
            Role::Spectator,
            |m: ClientMessage| plays_centre(m),
        ),
        IsolationStage::SpectatorMove(id) => if reply matches ServerMessage::Error { code, .. }
            && code == ErrorCode::NotInMatch {
            exchanges(
                a,
                IsolationStage::SpectatorJoin(id),
                Role::Spectator,
                |m: ClientMessage| m == ClientMessage::JoinMatch { match_id: id },
            )
        } else {
            give_up("spectator MakeMove was not rejected with NotInMatch: "@)
        },
        IsolationStage::SpectatorJoin(_) => if reply matches ServerMessage::Error { code, .. }
            && code == ErrorCode::AlreadySpectating {
            a matches IsolationAction::Finish(o) && defended_with(o, isolation_defended_text())
        } else {
            give_up("spectator JoinMatch was not rejected with AlreadySpectating: "@)
        },
    }
}

/// Returns the first action of the scenario.
pub fn isolation_start(suffix: u64) -> (r: IsolationAction)
    ensures
        isolation_first(suffix, r),
{
    IsolationAction::Exchange {
        stage: IsolationStage::HostRegister,
        role: Role::Host,
        message: register_message("Adversarial Observer", "spect_host_", suffix),
    }
}

fn give_up(head: &str, reply_text: &str) -> (r: IsolationAction)
    ensures
        r matches IsolationAction::Finish(o) && compromised_with(o, head@ + reply_text@),
{
    IsolationAction::Finish(outcome_with(false, head, reply_text))
}

fn fail(reply_text: &str) -> (r: IsolationAction)
    ensures
        r matches IsolationAction::Fail(m) && m@ == "expected Registered, got "@ + reply_text@,
{
    let mut m = String::from_str("expected Registered, got ");
    m.append(reply_text);
    IsolationAction::Fail(m)
}

/// Decides what follows the message `reply` (shown as `reply_text`)
/// received at step `stage`; `suffix` numbers the username of a
/// registration sent next.
pub fn isolation_step(stage: IsolationStage, reply: &ServerMessage, reply_text: &str, suffix: u64) -> (r:
    IsolationAction)
    ensures
        isolation_next(stage, *reply, reply_text@, suffix, r),
{
    let registered = matches!(reply, ServerMessage::Registered { .. });
    match stage {
        IsolationStage::HostRegister => if registered {
            IsolationAction::Exchange {
                stage: IsolationStage::HostCreate,
                role: Role::Host,
                message: ClientMessage::CreateMatch,
            }
        } else {
            fail(reply_text)
        },
        IsolationStage::HostCreate => match reply {
            ServerMessage::MatchCreated { match_id } => IsolationAction::Exchange {
                stage: IsolationStage::GuestRegister(*match_id),
                role: Role::Guest,
                message: register_message("Adversarial Observer", "spect_guest_", suffix),
            },
            _ => give_up("host CreateMatch returned ", reply_text),
        },
        IsolationStage::GuestRegister(id) => if registered {
            IsolationAction::Exchange {
                stage: IsolationStage::GuestJoin(id),
                role: Role::Guest,
                message: ClientMessage::JoinMatch { match_id: id },
            }
        } else {
            fail(reply_text)
        },
        IsolationStage::GuestJoin(id) => if matches!(reply, ServerMessage::MatchReady { .. }) {
            IsolationAction::Await { stage: IsolationStage::HostSeesGuest(id), role: Role::Host }
        } else {
            give_up("guest JoinMatch returned ", reply_text)
        },
        IsolationStage::HostSeesGuest(id) => IsolationAction::Exchange {
            stage: IsolationStage::SpectatorRegister(id),
            role: Role::Spectator,
            message: register_message("Adversarial Observer", "spect_watch_", suffix),
        },
        IsolationStage::SpectatorRegister(id) => if registered {
            IsolationAction::Exchange {
                stage: IsolationStage::Spectate(id),
                role: Role::Spectator,
                message: ClientMessage::Spectate { match_id: id },
            }
        } else {
            fail(reply_text)
        },
        IsolationStage::Spectate(id) => if matches!(reply, ServerMessage::SpectateStarted { .. }) {
            IsolationAction::Await { stage: IsolationStage::HostSeesSpectator(id), role: Role::Host }
        } else {
            give_up("spectator Spectate returned ", reply_text)
        },
        IsolationStage::HostSeesSpectator(id) => IsolationAction::Await {
            stage: IsolationStage::GuestSeesSpectator(id),
            role: Role::Guest,
        },
        IsolationStage::GuestSeesSpectator(id) => IsolationAction::Exchange {
            stage: IsolationStage::SpectatorMove(id),
            role: Role::Spectator,
            message: centre_move(),
        },
        IsolationStage::SpectatorMove(id) => match reply {
            ServerMessage::Error { code: ErrorCode::NotInMatch, .. } => IsolationAction::Exchange {
                stage: IsolationStage::SpectatorJoin(id),
                role: Role::Spectator,
                message: ClientMessage::JoinMatch { match_id: id },
            },
            _ => give_up("spectator MakeMove was not rejected with NotInMatch: ", reply_text),
        },
        IsolationStage::SpectatorJoin(_) => match reply {
            ServerMessage::Error { code: ErrorCode::AlreadySpectating, .. } => IsolationAction::Finish(
                Outcome::defended(
                    "non-players cannot interact with the board; already spectating a match is properly tracked",
                ),
            ),
            _ => give_up("spectator JoinMatch was not rejected with AlreadySpectating: ", reply_text),
        },
    }
}

/// A run is judged defended only at its end: when the spectator's attempt
/// to join the match as a player is refused with `AlreadySpectating`.
pub proof fn lemma_isolation_defended_only_at_the_end(
    stage: IsolationStage,
    reply: ServerMessage,
    reply_text: Seq<char>,
    suffix: u64,
    a: IsolationAction,
)
    requires
        isolation_next(stage, reply, reply_text, suffix, a),
        a matches IsolationAction::Finish(o) && o is Defended,
    ensures
        stage is SpectatorJoin,
        reply matches ServerMessage::Error { code, .. } && code == ErrorCode::AlreadySpectating,
{
}

/// The script moves on only after the reply a defended server gives: at
/// every step that checks a reply, unless the run stops, the reply is the
/// one expected there.
pub proof fn lemma_isolation_needs_expected_replies(
    stage: IsolationStage,
    reply: ServerMessage,
    reply_text: Seq<char>,
    suffix: u64,
    a: IsolationAction,
)
    requires
        isolation_next(stage, reply, reply_text, suffix, a),
        !(a is Fail),
        !(a matches IsolationAction::Finish(o) && o is Compromised),
    ensures
        match stage {
            IsolationStage::HostRegister => reply is Registered,
            IsolationStage::HostCreate => reply is MatchCreated,
            IsolationStage::GuestRegister(_) => reply is Registered,
            IsolationStage::GuestJoin(_) => reply is MatchReady,
            IsolationStage::SpectatorRegister(_) => reply is Registered,
            IsolationStage::Spectate(_) => reply is SpectateStarted,
            IsolationStage::SpectatorMove(_) => reply matches ServerMessage::Error { code, .. }
                && code == ErrorCode::NotInMatch,
            IsolationStage::SpectatorJoin(_) => reply matches ServerMessage::Error { code, .. }
                && code == ErrorCode::AlreadySpectating,
            _ => true,
        },
{
}

} // verus!
