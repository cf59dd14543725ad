//! The scenarios the hacker can run, and the replies each probe expects.

use vstd::prelude::*;

use super::outcome::Outcome;
use crate::domain::Position;
use crate::protocol::{AuthFailureReason, ClientMessage, ErrorCode, ServerMessage};
use crate::text::{decimal, push_decimal, same_text, text};

verus! {

/// The scenarios the hacker can run, as chosen on the command line.
#[derive(Debug, Clone, Copy, PartialEq, Eq, Structural)]
pub enum ScenarioChoice {
    /// Tries to act on a match without being a legitimate participant.
    SessionHijack,
    /// Tries to bind the server's port and probes ephemeral-port release.
    PortReuse,
    /// Opens many concurrent connections and verifies recovery.
    Flood,
    /// Probes that a spectator cannot interfere with a match.
    SpectatorIsolation,
    /// Runs every scenario in sequence.
    All,
}

/// A single scenario.
#[derive(Debug, Clone, Copy, PartialEq, Eq, Structural)]
pub enum Scenario {
    /// Acts on a match without being a participant.
    SessionHijack,
    /// Binds the server's port and probes port release.
    PortReuse,
    /// Opens and drops many connections.
    Flood,
    /// Has a spectator act on a match.
    SpectatorIsolation,
}

/// The name of a scenario, as reports and the scenario dispatcher use it.
pub open spec fn scenario_name(s: Scenario) -> Seq<char> {
    match s {
        Scenario::SessionHijack => "session_hijack"@,
        Scenario::PortReuse => "port_reuse"@,
        Scenario::Flood => "flood"@,
        Scenario::SpectatorIsolation => "spectator_isolation"@,
    }
}

/// The scenarios a choice runs, in order: `All` runs every one.
pub open spec fn chosen(choice: ScenarioChoice) -> Seq<Scenario> {
    match choice {
        ScenarioChoice::All => seq![
            Scenario::SessionHijack,
            Scenario::PortReuse,
            Scenario::Flood,
            Scenario::SpectatorIsolation,
        ],
        ScenarioChoice::SessionHijack => seq![Scenario::SessionHijack],
        ScenarioChoice::PortReuse => seq![Scenario::PortReuse],
        ScenarioChoice::Flood => seq![Scenario::Flood],
        ScenarioChoice::SpectatorIsolation => seq![Scenario::SpectatorIsolation],
    }
}

impl Scenario {
    /// Returns the name of the scenario.
    pub fn name(self) -> (r: &'static str)
        ensures
            r@ == scenario_name(self),
    {
        match self {
            Scenario::SessionHijack => "session_hijack",
            Scenario::PortReuse => "port_reuse",
            Scenario::Flood => "flood",
            Scenario::SpectatorIsolation => "spectator_isolation",
        }
    }

    /// Finds the scenario with the given name, or says that there is none.
    pub fn by_name(name: &str) -> (r: Result<Scenario, String>)
        ensures
            match r {
                Ok(s) => scenario_name(s) == name@,
                Err(m) => m@ == "unknown scenario `"@ + name@ + "`"@ && forall|s: Scenario|
                    scenario_name(s) != name@,
            },
    {
        if same_text(name, "session_hijack") {
            Ok(Scenario::SessionHijack)
        } else if same_text(name, "port_reuse") {
            Ok(Scenario::PortReuse)
        } else if same_text(name, "flood") {
            Ok(Scenario::Flood)
        } else if same_text(name, "spectator_isolation") {
            Ok(Scenario::SpectatorIsolation)
        } else {
            let mut m = text("unknown scenario `");
            m.append(name);
            m.append("`");
            Err(m)
        }
    }
}

/// Returns the scenarios a choice runs, in order.
pub fn scenarios_for(choice: ScenarioChoice) -> (r: Vec<Scenario>)
    ensures
        r@ == chosen(choice),
{
    match choice {
        ScenarioChoice::All => vec![
            Scenario::SessionHijack,
            Scenario::PortReuse,
            Scenario::Flood,
            Scenario::SpectatorIsolation,
        ],
        ScenarioChoice::SessionHijack => vec![Scenario::SessionHijack],
        ScenarioChoice::PortReuse => vec![Scenario::PortReuse],
        ScenarioChoice::Flood => vec![Scenario::Flood],
        ScenarioChoice::SpectatorIsolation => vec![Scenario::SpectatorIsolation],
    }
}

/// The suffix that keeps the hacker's usernames apart between runs: the
/// sub-second part of the clock, in nanoseconds, modulo one million.
pub fn username_suffix(subsec_nanos: u32) -> (r: u64)
    ensures
        r == subsec_nanos % 1_000_000,
        r < 1_000_000,
{
    (subsec_nanos as u64) % 1_000_000
}

/// The reply a probe expects from a server that defends itself.
#[derive(Debug, Clone, Copy, PartialEq, Eq, Structural)]
pub enum Expected {
    /// A protocol error with this code.
    Error(ErrorCode),
    /// A failed authentication for this reason.
    AuthFailed(AuthFailureReason),
    /// A successful registration.
    Registered,
    /// A freshly created match.
    MatchCreated,
    /// A match ready to play.
    MatchReady,
    /// The start of a spectating session.
    SpectateStarted,
    /// The answer to a ping.
    Pong,
    /// The welcome after a `Hello`.
    Welcome,
}

/// Whether `reply` is the reply `expected` describes.
pub open spec fn reply_matches(expected: Expected, reply: ServerMessage) -> bool {
    match expected {
        Expected::Error(code) => reply matches ServerMessage::Error { code: c, .. } && c == code,
        Expected::AuthFailed(reason) => reply matches ServerMessage::AuthenticationFailed {
            reason: r,
            ..
        } && r == reason,
        Expected::Registered => reply is Registered,
        Expected::MatchCreated => reply is MatchCreated,
        Expected::MatchReady => reply is MatchReady,
        Expected::SpectateStarted => reply is SpectateStarted,
        Expected::Pong => reply is Pong,
        Expected::Welcome => reply is Welcome,
    }
}

/// Judges a reply: `true` when it is the one a defended server sends.
pub fn judge_reply(expected: Expected, reply: &ServerMessage) -> (r: bool)
    ensures
        r == reply_matches(expected, *reply),
{
    match expected {
        Expected::Error(code) => match reply {
            ServerMessage::Error { code: c, .. } => *c == code,
            _ => false,
        },
        Expected::AuthFailed(reason) => match reply {
            ServerMessage::AuthenticationFailed { reason: r, .. } => *r == reason,
            _ => false,
        },
        Expected::Registered => matches!(reply, ServerMessage::Registered { .. }),
        Expected::MatchCreated => matches!(reply, ServerMessage::MatchCreated { .. }),
        Expected::MatchReady => matches!(reply, ServerMessage::MatchReady { .. }),
        Expected::SpectateStarted => matches!(reply, ServerMessage::SpectateStarted { .. }),
        Expected::Pong => matches!(reply, ServerMessage::Pong),
        Expected::Welcome => matches!(reply, ServerMessage::Welcome { .. }),
    }
}

/// The password of every account the hacker registers.
pub open spec fn hacker_password() -> Seq<char> {
    "hacker-can-haz-password"@
}

/// Whether `m` registers an account with display name `name` and username
/// `username`, aged 30, with the hacker's password.
pub open spec fn registers(m: ClientMessage, name: Seq<char>, username: Seq<char>) -> bool {
    m matches ClientMessage::Register { name: n, username: u, age, password } && n@ == name && u@
        == username && age == 30 && password@ == hacker_password()
}

/// The username made of `prefix` followed by the decimal `suffix`.
pub open spec fn numbered(prefix: Seq<char>, suffix: u64) -> Seq<char> {
    prefix + decimal(suffix as nat)
}

/// Builds the registration of an account named `name` whose username is
/// `prefix` followed by `suffix`.
pub fn register_message(name: &str, prefix: &str, suffix: u64) -> (r: ClientMessage)
    ensures
        registers(r, name@, numbered(prefix@, suffix)),
{
    let mut username = String::from_str(prefix);
    push_decimal(&mut username, suffix);
    ClientMessage::Register {
        name: String::from_str(name),
        username,
        age: 30,
        password: text("hacker-can-haz-password"),
    }
}

/// Whether `m` plays the centre cell.
pub open spec fn plays_centre(m: ClientMessage) -> bool {
    m matches ClientMessage::MakeMove { position } && position@ == 4
}

/// Builds a move on the centre cell.
pub fn centre_move() -> (r: ClientMessage)
    ensures
        plays_centre(r),
{
    let positions = Position::iter();
    ClientMessage::MakeMove { position: positions[4] }
}

/// Builds an outcome whose detail is `head` followed by `tail`.
pub fn outcome_with(defended: bool, head: &str, tail: &str) -> (r: Outcome)
    ensures
        r is Defended <==> defended,
        r.spec_detail() == head@ + tail@,
{
    let mut detail = String::from_str(head);
    detail.append(tail);
    if defended {
        Outcome::Defended { detail }
    } else {
        Outcome::Compromised { detail }
    }
}

/// Whether `o` is a `Compromised` outcome with detail `detail`.
pub open spec fn compromised_with(o: Outcome, detail: Seq<char>) -> bool {
    o is Compromised && o.spec_detail() == detail
}

/// Whether `o` is a `Defended` outcome with detail `detail`.
pub open spec fn defended_with(o: Outcome, detail: Seq<char>) -> bool {
    o is Defended && o.spec_detail() == detail
}

} // verus!
