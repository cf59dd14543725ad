//! The port-reuse verdict. Binding the server's port may succeed (the
//! hacker has a network namespace of its own), fail with `EADDRINUSE` (the
//! server holds the port in a shared namespace) or fail with `EACCES` (the
//! port is privileged); each is reported. Then the ephemeral port of a
//! dropped listener must be bindable again at once.

use vstd::prelude::*;

use super::outcome::Outcome;
use super::scenario::compromised_with;
use crate::client::address::UrlParts;
use crate::text::{decimal, push_decimal, text};

verus! {

/// What an attempt to bind a port gave; a failure carries the error's text.
#[derive(Debug)]
pub enum BindResult {
    /// The port was bound.
    Bound,
    /// The port is in use (`EADDRINUSE`).
    AddrInUse(String),
    /// Binding the port is not permitted (`EACCES`).
    PermissionDenied(String),
    /// Any other failure.
    Failed(String),
}

/// The address `host:port` to reach the server at, from the target URL:
/// its host and its port, or the scheme's default port.
pub open spec fn server_address_of(url: UrlParts) -> Result<(Seq<char>, u16), Seq<char>> {
    match url.host {
        None => Err("target URL has no host"@),
        Some(h) => match url.known_port {
            None => Err("target URL has no port"@),
            Some(p) => Ok((h@ + ":"@ + decimal(p as nat), p)),
        },
    }
}

/// Returns the address to reach the server at, and its port.
pub fn server_address(url: &UrlParts) -> (r: Result<(String, u16), String>)
    ensures
        match server_address_of(*url) {
            Ok((a, p)) => r matches Ok((s, q)) && s@ == a && q == p,
            Err(m) => r matches Err(s) && s@ == m,
        },
{
    match &url.host {
        None => Err(text("target URL has no host")),
        Some(h) => match url.known_port {
            None => Err(text("target URL has no port")),
            Some(p) => {
                let mut a = h.clone();
                a.append(":");
                push_decimal(&mut a, p as u64);
                Ok((a, p))
            },
        },
    }
}

/// What binding `0.0.0.0:port` showed: the observation to report, or, for
/// an unexpected failure, the detail of a compromised verdict.
pub open spec fn bind_observation_of(port: u16, first: BindResult) -> Result<Seq<char>, Seq<char>> {
    let at = "0.0.0.0:"@ + decimal(port as nat);
    match first {
        BindResult::Bound => Ok(
            "isolated network namespace: "@ + at
                + " is bindable from this process because each namespace owns its own port space"@,
        ),
        BindResult::AddrInUse(_) => Ok(
            "EADDRINUSE on "@ + at + ": the server holds the port in the shared namespace"@,
        ),
        BindResult::PermissionDenied(_) => Ok(
            "EACCES on "@ + at
                + ": the port is privileged and this process cannot bind it; the property is unobservable from here"@,
        ),
        BindResult::Failed(e) => Err("unexpected bind outcome on "@ + at + ": "@ + e@),
    }
}

/// The verdict of the scenario: whether the server defended, and the
/// detail. `first` is what binding the server's port gave, `second` what
/// binding the released ephemeral address `ephemeral` again gave.
pub open spec fn bind_verdict(
    server_addr: Seq<char>,
    port: u16,
    first: BindResult,
    ephemeral: Seq<char>,
    second: BindResult,
) -> (bool, Seq<char>) {
    match bind_observation_of(port, first) {
        Err(detail) => (false, detail),
        Ok(seen) => match second {
            BindResult::Bound => (
                true,
                "server reachable at "@ + server_addr + "; "@ + seen + "; ephemeral "@ + ephemeral
                    + " released synchronously on drop and immediately rebindable"@,
            ),
            BindResult::AddrInUse(e) => (false, rebind_failure(ephemeral, e@)),
            BindResult::PermissionDenied(e) => (false, rebind_failure(ephemeral, e@)),
            BindResult::Failed(e) => (false, rebind_failure(ephemeral, e@)),
        },
    }
}

/// The detail of a failed rebind.
pub open spec fn rebind_failure(ephemeral: Seq<char>, error: Seq<char>) -> Seq<char> {
    "failed to rebind dropped ephemeral port "@ + ephemeral + ": "@ + error
}

/// Reports what binding the server's port showed; an unexpected failure
/// ends the scenario with a compromised verdict.
pub fn bind_observation(port: u16, first: &BindResult) -> (r: Result<String, Outcome>)
    ensures
        match bind_observation_of(port, *first) {
            Ok(t) => r matches Ok(s) && s@ == t,
            Err(t) => r matches Err(o) && compromised_with(o, t),
        },
{
    let mut at = text("0.0.0.0:");
    push_decimal(&mut at, port as u64);
    match first {
        BindResult::Bound => {
            let mut s = text("isolated network namespace: ");
            s.append(at.as_str());
            s.append(" is bindable from this process because each namespace owns its own port space");
            Ok(s)
        },
        BindResult::AddrInUse(_) => {
            let mut s = text("EADDRINUSE on ");
            s.append(at.as_str());
            s.append(": the server holds the port in the shared namespace");
            Ok(s)
        },
        BindResult::PermissionDenied(_) => {
            let mut s = text("EACCES on ");
            s.append(at.as_str());
            s.append(
                ": the port is privileged and this process cannot bind it; the property is unobservable from here",
            );
            Ok(s)
        },
        BindResult::Failed(e) => {
            let mut s = text("unexpected bind outcome on ");
            s.append(at.as_str());
            s.append(": ");
            s.append(e.as_str());
            Err(Outcome::Compromised { detail: s })
        },
    }
}

/// Judges the scenario from what the two binds gave.
pub fn judge_bind(
    server_addr: &str,
    port: u16,
    first: &BindResult,
    ephemeral: &str,
    second: &BindResult,
) -> (r: Outcome)
    ensures
        (r is Defended) == bind_verdict(server_addr@, port, *first, ephemeral@, *second).0,
        r.spec_detail() == bind_verdict(server_addr@, port, *first, ephemeral@, *second).1,
{
    match bind_observation(port, first) {
        Err(o) => o,
        Ok(seen) => match second {
            BindResult::Bound => {
                let mut s = text("server reachable at ");
                s.append(server_addr);
                s.append("; ");
                s.append(seen.as_str());
                s.append("; ephemeral ");
                s.append(ephemeral);
                s.append(" released synchronously on drop and immediately rebindable");
                Outcome::Defended { detail: s }
            },
            BindResult::AddrInUse(e) => rebind_failed(ephemeral, e.as_str()),
            BindResult::PermissionDenied(e) => rebind_failed(ephemeral, e.as_str()),
            BindResult::Failed(e) => rebind_failed(ephemeral, e.as_str()),
        },
    }
}

fn rebind_failed(ephemeral: &str, error: &str) -> (r: Outcome)
    ensures
        compromised_with(r, rebind_failure(ephemeral@, error@)),
{
    let mut s = text("failed to rebind dropped ephemeral port ");
    s.append(ephemeral);
    s.append(": ");
    s.append(error);
    Outcome::Compromised { detail: s }
}

} // verus!
