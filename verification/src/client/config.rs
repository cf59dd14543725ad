//! Client configuration: command-line settings and the persisted
//! preferences.

use vstd::prelude::*;

use super::address::{parse_url, url_parse, websocket_scheme, UrlParts, UrlView};
use crate::text::{same_text, text};

verus! {

/// Command-line arguments of the terminal client.
#[derive(Debug, Clone)]
pub struct Cli {
    /// WebSocket URL of the server. Accepts `ws://` and `wss://`.
    pub server: Option<String>,
    /// Display name announced to the server.
    pub name: Option<String>,
    /// Disable TLS certificate verification.
    pub insecure: bool,
}

/// Validated configuration for the terminal client.
#[derive(Debug, Clone)]
pub struct ArgsConfig {
    /// The WebSocket URL of the server.
    pub server_url: Option<String>,
    /// The display name to announce via `Hello`.
    pub display_name: Option<String>,
    /// Whether TLS certificate verification should be disabled.
    pub insecure: bool,
}

/// Persisted user configuration for the client.
#[derive(Debug, PartialEq, Eq)]
pub struct ClientConfig {
    /// Server WebSocket URL, e.g. `ws://127.0.0.1:8080/ws`.
    pub server_url: Option<String>,
    /// Preferred guest display name. Falls back to the OS username when
    /// absent.
    pub guest_name: Option<String>,
    /// Whether TLS was requested the last time the user connected.
    pub use_tls: Option<bool>,
}

impl Default for ClientConfig {
    fn default() -> (r: ClientConfig)
        ensures
            r.server_url is None,
            r.guest_name is None,
            r.use_tls is None,
    {
        ClientConfig { server_url: None, guest_name: None, use_tls: None }
    }
}

fn clone_opt(s: &Option<String>) -> (r: Option<String>)
    ensures
        r == *s,
{
    match s {
        Some(v) => Some(v.clone()),
        None => None,
    }
}

impl Clone for ClientConfig {
    fn clone(&self) -> (r: ClientConfig)
        ensures
            r == *self,
    {
        ClientConfig {
            server_url: clone_opt(&self.server_url),
            guest_name: clone_opt(&self.guest_name),
            use_tls: self.use_tls,
        }
    }
}

/// The verdict on a server URL given on the command line, from what parsing
/// it gave: accepted when it parses with scheme `ws` or `wss`; a URL that
/// does not parse is refused with the parse error as the cause.
pub open spec fn server_url_verdict(url: Seq<char>, parsed: Result<UrlView, Seq<char>>) -> Result<
    (),
    Seq<char>,
> {
    match parsed {
        Ok(u) => if websocket_scheme(u.0) {
            Ok(())
        } else {
            Err("unsupported URL scheme `"@ + u.0 + "`; expected `ws` or `wss`"@)
        },
        Err(e) => Err("invalid server URL `"@ + url + "`: "@ + e),
    }
}

/// Decides on a server URL given on the command line from what parsing it
/// gave.
pub fn judge_server_url(url: &str, parsed: Result<UrlParts, String>) -> (r: Result<(), String>)
    ensures
        match server_url_verdict(
            url@,
            match parsed {
                Ok(p) => Ok::<UrlView, Seq<char>>(p@),
                Err(e) => Err::<UrlView, Seq<char>>(e@),
            },
        ) {
            Ok(()) => r is Ok,
            Err(m) => r matches Err(e) && e@ == m,
        },
{
    match parsed {
        Ok(parts) => {
            if same_text(parts.scheme.as_str(), "ws") || same_text(parts.scheme.as_str(), "wss") {
                Ok(())
            } else {
                let mut m = text("unsupported URL scheme `");
                m.append(parts.scheme.as_str());
                m.append("`; expected `ws` or `wss`");
                Err(m)
            }
        },
        Err(e) => {
            let mut m = text("invalid server URL `");
            m.append(url);
            m.append("`: ");
            m.append(e.as_str());
            Err(m)
        },
    }
}

/// Checks a server URL given on the command line.
pub fn validate_server_url(url: &str) -> (r: Result<(), String>)
    ensures
        match server_url_verdict(url@, url_parse(url@)) {
            Ok(()) => r is Ok,
            Err(m) => r matches Err(e) && e@ == m,
        },
{
    let parsed = parse_url(url);
    judge_server_url(url, parsed)
}

impl ArgsConfig {
    /// Builds the configuration from the parsed command line, rejecting a
    /// server URL that is not a `ws` or `wss` URL.
    pub fn from_cli(cli: Cli) -> (r: Result<ArgsConfig, String>)
        ensures
            match cli.server {
                Some(s) => match server_url_verdict(s@, url_parse(s@)) {
                    Ok(()) => r == Ok::<ArgsConfig, String>(
                        ArgsConfig {
                            server_url: cli.server,
                            display_name: cli.name,
                            insecure: cli.insecure,
                        },
                    ),
                    Err(m) => r matches Err(e) && e@ == m,
                },
                None => r == Ok::<ArgsConfig, String>(
                    ArgsConfig { server_url: None, display_name: cli.name, insecure: cli.insecure },
                ),
            },
    {
        if let Some(s) = &cli.server {
            match validate_server_url(s.as_str()) {
                Ok(()) => {},
                Err(e) => {
                    return Err(e);
                },
            }
        }
        Ok(ArgsConfig { server_url: cli.server, display_name: cli.name, insecure: cli.insecure })
    }
}

} // verus!
