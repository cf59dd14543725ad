//! The session-hijack script: a guest tries to create a match; then, as a
//! freshly registered account, the hacker moves outside any match, joins a
//! match that does not exist, registers a second time and sends a payload
//! that is not JSON. Each probe must be refused, and the connection must
//! survive the payload.

use vstd::prelude::*;

use super::outcome::Outcome;
use super::scenario::{
    centre_move, compromised_with, defended_with, numbered, outcome_with, plays_centre,
    register_message, registers, reply_matches, Expected, judge_reply,
};
use crate::protocol::{AuthFailureReason, ClientMessage, ErrorCode, MatchId, ServerMessage};

verus! {

/// The probes of the scenario, in the order they run.
#[derive(Debug, Clone, Copy, PartialEq, Eq, Structural)]
pub enum HijackStage {
    /// A guest asks to create a match.
    GuestCreate,
    /// The hacker registers a fresh account.
    Register,
    /// The account plays a move outside any match.
    MoveOutsideMatch,
    /// The account joins a match that does not exist.
    JoinUnknownMatch,
    /// The account registers a second time on the same connection.
    RegisterAgain,
    /// After a payload that is not JSON, the account pings the server.
    PingAfterGarbage,
}

/// What the hacker does next.
#[derive(Debug)]
pub enum HijackAction {
    /// Send `message` and hand the reply to [`hijack_step`] with `stage`;
    /// a defended server answers as `expected` says.
    Probe {
        /// The probe the reply belongs to.
        stage: HijackStage,
        /// The message to send.
        message: ClientMessage,
        /// The reply of a defended server.
        expected: Expected,
    },
    /// Send a text frame that is not JSON, then proceed as for `Probe`.
    GarbageThenProbe {
        /// The probe the reply belongs to.
        stage: HijackStage,
        /// The message to send after the garbage.
        message: ClientMessage,
        /// The reply of a defended server.
        expected: Expected,
    },
    /// Stop with this outcome.
    Finish(Outcome),
}

/// The reply a defended server gives at each stage.
pub open spec fn hijack_expected(stage: HijackStage) -> Expected {
    match stage {
        HijackStage::GuestCreate => Expected::Error(ErrorCode::AuthenticationRequired),
        HijackStage::Register => Expected::Registered,
        HijackStage::MoveOutsideMatch => Expected::Error(ErrorCode::NotInMatch),
        HijackStage::JoinUnknownMatch => Expected::Error(ErrorCode::MatchNotFound),
        HijackStage::RegisterAgain => Expected::AuthFailed(AuthFailureReason::AlreadyAuthenticated),
        HijackStage::PingAfterGarbage => Expected::Pong,
    }
}

/// The first action: a guest asks to create a match.
pub open spec fn hijack_first() -> HijackAction {
    HijackAction::Probe {
        stage: HijackStage::GuestCreate,
        message: ClientMessage::CreateMatch,
        expected: Expected::Error(ErrorCode::AuthenticationRequired),
    }
}

/// Whether `a` sends a message that `m` accepts, as the probe `stage`.
pub open spec fn probes(a: HijackAction, stage: HijackStage, m: spec_fn(ClientMessage) -> bool) -> bool {
    a matches HijackAction::Probe { stage: s, message, expected } && s == stage && expected
        == hijack_expected(stage) && m(message)
}

/// The username a registration sent, if `sent` is one.
pub open spec fn sent_username(sent: ClientMessage) -> Seq<char> {
    match sent {
        ClientMessage::Register { username, .. } => username@,
        _ => Seq::empty(),
    }
}

/// The detail of a defended run.
pub open spec fn hijack_defended_text() -> Seq<char> {
    "all probes rejected; malformed payload ignored without closing the connection"@
}

/// The script: what follows the reply `reply` (shown as `reply_text`) to
/// the probe `stage`, which sent `sent`. `suffix` numbers the username of
/// a registration sent next.
pub open spec fn hijack_next(
    stage: HijackStage,
    sent: ClientMessage,
    reply: ServerMessage,
    reply_text: Seq<char>,
    suffix: u64,
    a: HijackAction,
) -> bool {
    let ok = reply_matches(hijack_expected(stage), reply);
    let give_up = |head: Seq<char>| a matches HijackAction::Finish(o) && compromised_with(o, head + reply_text);
    match stage {
        HijackStage::GuestCreate => if ok {
            probes(
                a,
                HijackStage::Register,
                |m: ClientMessage| registers(m, "Adversarial Actor"@, numbered("hacker_"@, suffix)),
            )
        } else {
            give_up("guest CreateMatch was not rejected with AuthenticationRequired: "@)
        },
        HijackStage::Register => match reply {
            ServerMessage::Registered { profile } => if profile.username.shown() == sent_username(
                sent,
            ) {
                probes(a, HijackStage::MoveOutsideMatch, |m: ClientMessage| plays_centre(m))
            } else {
                a matches HijackAction::Finish(o) && compromised_with(
                    o,
                    "Registered echoed a different username: "@ + profile.username.shown(),
                )
            },
            _ => give_up("expected Registered, got "@),
        },
        HijackStage::MoveOutsideMatch => if ok {
            probes(
                a,
                HijackStage::JoinUnknownMatch,
                |m: ClientMessage|
                    m matches ClientMessage::JoinMatch { match_id } && match_id@ == u64::MAX,
            )
        } else {
            give_up("MakeMove outside a match was not rejected with NotInMatch: "@)
        },
        HijackStage::JoinUnknownMatch => if ok {
            probes(
                a,
                HijackStage::RegisterAgain,
                |m: ClientMessage| registers(m, "Hacker Again"@, numbered("hacker_"@, suffix)),
            )
        } else {
            give_up("JoinMatch on a bogus id was not rejected with MatchNotFound: "@)
        },
        HijackStage::RegisterAgain => if ok {
            a == HijackAction::GarbageThenProbe {
                stage: HijackStage::PingAfterGarbage,
                message: ClientMessage::Ping,
                expected: Expected::Pong,
            }
        } else {
            give_up("double Register was not rejected with AlreadyAuthenticated: "@)
        },
        HijackStage::PingAfterGarbage => if ok {
            a matches HijackAction::Finish(o) && defended_with(o, hijack_defended_text())
        } else {
            give_up("malformed payload disrupted the connection: "@)
        },
    }
}

/// Returns the first action of the scenario.
pub fn hijack_start() -> (r: HijackAction)
    ensures
        r == hijack_first(),
{
    HijackAction::Probe {
        stage: HijackStage::GuestCreate,
        message: ClientMessage::CreateMatch,
        expected: Expected::Error(ErrorCode::AuthenticationRequired),
    }
}

fn give_up(head: &str, reply_text: &str) -> (r: HijackAction)
    ensures
        r matches HijackAction::Finish(o) && compromised_with(o, head@ + reply_text@),
{
    HijackAction::Finish(outcome_with(false, head, reply_text))
}

fn probe(stage: HijackStage, message: ClientMessage) -> (r: HijackAction)
    ensures
        r == (HijackAction::Probe { stage, message, expected: hijack_expected(stage) }),
{
    let expected = match stage {
        HijackStage::GuestCreate => Expected::Error(ErrorCode::AuthenticationRequired),
        HijackStage::Register => Expected::Registered,
        HijackStage::MoveOutsideMatch => Expected::Error(ErrorCode::NotInMatch),
        HijackStage::JoinUnknownMatch => Expected::Error(ErrorCode::MatchNotFound),
        HijackStage::RegisterAgain => Expected::AuthFailed(AuthFailureReason::AlreadyAuthenticated),
        HijackStage::PingAfterGarbage => Expected::Pong,
    };
    HijackAction::Probe { stage, message, expected }
}

fn sent_name(sent: &ClientMessage) -> (r: &str)
    ensures
        r@ == sent_username(*sent),
{
    match sent {
        ClientMessage::Register { username, .. } => username.as_str(),
        _ => {
            proof {
                reveal_strlit("");
            }
            ""
        },
    }
}

/// Decides what follows the reply `reply` (shown as `reply_text`) to the
/// probe `stage`, which sent `sent`; `suffix` numbers the username of a
/// registration sent next.
pub fn hijack_step(
    stage: HijackStage,
    sent: &ClientMessage,
    reply: &ServerMessage,
    reply_text: &str,
    suffix: u64,
) -> (r: HijackAction)
    ensures
        hijack_next(stage, *sent, *reply, reply_text@, suffix, r),
{
    let ok = match stage {
        HijackStage::GuestCreate => judge_reply(
            Expected::Error(ErrorCode::AuthenticationRequired),
            reply,
        ),
        HijackStage::Register => judge_reply(Expected::Registered, reply),
        HijackStage::MoveOutsideMatch => judge_reply(Expected::Error(ErrorCode::NotInMatch), reply),
        HijackStage::JoinUnknownMatch => judge_reply(
            Expected::Error(ErrorCode::MatchNotFound),
            reply,
        ),
        HijackStage::RegisterAgain => judge_reply(
            Expected::AuthFailed(AuthFailureReason::AlreadyAuthenticated),
            reply,
        ),
        HijackStage::PingAfterGarbage => judge_reply(Expected::Pong, reply),
    };
    match stage {
        HijackStage::GuestCreate => if ok {
            probe(
                HijackStage::Register,
                register_message("Adversarial Actor", "hacker_", suffix),
            )
        } else {
            give_up("guest CreateMatch was not rejected with AuthenticationRequired: ", reply_text)
        },
        HijackStage::Register => match reply {
            ServerMessage::Registered { profile } => {
                let echoed = profile.username.as_str();
                if crate::text::same_text(echoed, sent_name(sent)) {
                    probe(HijackStage::MoveOutsideMatch, centre_move())
                } else {
                    HijackAction::Finish(
                        outcome_with(false, "Registered echoed a different username: ", echoed),
                    )
                }
            },
            _ => give_up("expected Registered, got ", reply_text),
        },
        HijackStage::MoveOutsideMatch => if ok {
            probe(
                HijackStage::JoinUnknownMatch,
                ClientMessage::JoinMatch { match_id: MatchId::new(u64::MAX) },
            )
        } else {
            give_up("MakeMove outside a match was not rejected with NotInMatch: ", reply_text)
        },
        HijackStage::JoinUnknownMatch => if ok {
            probe(HijackStage::RegisterAgain, register_message("Hacker Again", "hacker_", suffix))
        } else {
            give_up("JoinMatch on a bogus id was not rejected with MatchNotFound: ", reply_text)
        },
        HijackStage::RegisterAgain => if ok {
            HijackAction::GarbageThenProbe {
                stage: HijackStage::PingAfterGarbage,
                message: ClientMessage::Ping,
                expected: Expected::Pong,
            }
        } else {
            give_up("double Register was not rejected with AlreadyAuthenticated: ", reply_text)
        },
        HijackStage::PingAfterGarbage => if ok {
            HijackAction::Finish(
                Outcome::defended(
                    "all probes rejected; malformed payload ignored without closing the connection",
                ),
            )
        } else {
            give_up("malformed payload disrupted the connection: ", reply_text)
        },
    }
}

/// A run is judged defended only at its end: when the ping sent after the
/// garbage payload is answered with `Pong`. Every earlier stage either sends
/// the next probe or gives up with a compromised verdict.
pub proof fn lemma_hijack_defended_only_at_the_end(
    stage: HijackStage,
    sent: ClientMessage,
    reply: ServerMessage,
    reply_text: Seq<char>,
    suffix: u64,
    a: HijackAction,
)
    requires
        hijack_next(stage, sent, reply, reply_text, suffix, a),
        a matches HijackAction::Finish(o) && o is Defended,
    ensures
        stage == HijackStage::PingAfterGarbage,
        reply is Pong,
{
}

/// The script moves on only after the reply a defended server gives: at
/// every stage, unless the run ends compromised, the reply is the expected
/// refusal, the registration echoing the username that was sent, or the
/// `Pong` after the garbage payload.
pub proof fn lemma_hijack_needs_expected_replies(
    stage: HijackStage,
    sent: ClientMessage,
    reply: ServerMessage,
    reply_text: Seq<char>,
    suffix: u64,
    a: HijackAction,
)
    requires
        hijack_next(stage, sent, reply, reply_text, suffix, a),
        !(a matches HijackAction::Finish(o) && o is Compromised),
    ensures
        stage == HijackStage::GuestCreate ==> (reply matches ServerMessage::Error { code, .. }
            && code == ErrorCode::AuthenticationRequired),
        stage == HijackStage::Register ==> (reply matches ServerMessage::Registered { profile }
            && (sent matches ClientMessage::Register { username, .. } ==> profile.username.shown()
            == username@)),
        stage == HijackStage::MoveOutsideMatch ==> (reply matches ServerMessage::Error { code, .. }
            && code == ErrorCode::NotInMatch),
        stage == HijackStage::JoinUnknownMatch ==> (reply matches ServerMessage::Error { code, .. }
            && code == ErrorCode::MatchNotFound),
        stage == HijackStage::RegisterAgain ==> (reply matches ServerMessage::AuthenticationFailed {
            reason,
            ..
        } && reason == AuthFailureReason::AlreadyAuthenticated),
        stage == HijackStage::PingAfterGarbage ==> reply is Pong,
{
    if stage != HijackStage::Register {
        assert(reply_matches(hijack_expected(stage), reply));
    }
}

} // verus!
