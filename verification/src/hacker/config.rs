//! Command-line configuration of the hacker: which scenarios to run and
//! against which server.

use vstd::prelude::*;

use super::scenario::ScenarioChoice;
use crate::client::address::{parse_url, url_parse, UrlParts, UrlView};
use crate::text::text;

verus! {

/// Command-line arguments.
#[derive(Debug, Clone, PartialEq, Eq)]
pub struct Cli {
    /// Which scenario (or set of scenarios) to run.
    pub scenario: ScenarioChoice,
    /// WebSocket URL of the target server.
    pub target: String,
}

/// What becomes of a target URL, given what parsing it gave: the parsed URL,
/// or a message that names the target and the parse error.
pub open spec fn target_outcome(target: Seq<char>, parsed: Result<UrlView, Seq<char>>) -> Result<
    UrlView,
    Seq<char>,
> {
    match parsed {
        Ok(u) => Ok(u),
        Err(e) => Err("invalid target URL `"@ + target + "`: "@ + e),
    }
}

/// Decides on a target URL from what parsing it gave.
pub fn target_from(target: &str, parsed: Result<UrlParts, String>) -> (r: Result<UrlParts, String>)
    ensures
        target_outcome(
            target@,
            match parsed {
                Ok(p) => Ok::<UrlView, Seq<char>>(p@),
                Err(e) => Err::<UrlView, Seq<char>>(e@),
            },
        ) == match r {
            Ok(p) => Ok::<UrlView, Seq<char>>(p@),
            Err(m) => Err::<UrlView, Seq<char>>(m@),
        },
{
    match parsed {
        Ok(p) => Ok(p),
        Err(e) => {
            let mut m = text("invalid target URL `");
            m.append(target);
            m.append("`: ");
            m.append(e.as_str());
            Err(m)
        },
    }
}

/// Parses and validates the WebSocket URL of the target server.
pub fn parse_target(target: &str) -> (r: Result<UrlParts, String>)
    ensures
        target_outcome(target@, url_parse(target@)) == match r {
            Ok(p) => Ok::<UrlView, Seq<char>>(p@),
            Err(m) => Err::<UrlView, Seq<char>>(m@),
        },
{
    let parsed = parse_url(target);
    target_from(target, parsed)
}

} // verus!
