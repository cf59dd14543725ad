//! Server addresses: parsing a WebSocket URL into the parts the client
//! shows and checks.

use vstd::prelude::*;

use crate::text::{decimal, push_decimal, same_text, text};

verus! {

/// The parts of a parsed URL that the client reads.
#[derive(Debug, PartialEq, Eq)]
pub struct UrlParts {
    /// The scheme, lowercase, without the `:`.
    pub scheme: String,
    /// The host, if the URL has one.
    pub host: Option<String>,
    /// The port, if the URL names one other than the scheme's default.
    pub port: Option<u16>,
    /// The path.
    pub path: String,
    /// The port, or the scheme's default port when the URL names none and
    /// the scheme has a known default.
    pub known_port: Option<u16>,
}

/// The parts of a parsed URL, as plain values: scheme, host, port, path,
/// and the port with the scheme's default filled in.
pub type UrlView = (Seq<char>, Option<Seq<char>>, Option<u16>, Seq<char>, Option<u16>);

impl View for UrlParts {
    type V = UrlView;

    open spec fn view(&self) -> UrlView {
        (
            self.scheme@,
            match self.host {
                Some(h) => Some(h@),
                None => None,
            },
            self.port,
            self.path@,
            self.known_port,
        )
    }
}

/// Names what `url::Url::parse` makes of `input`: the scheme, host, port,
/// path and port-or-default of the URL, or the text of the parse error.
pub uninterp spec fn url_parse(input: Seq<char>) -> Result<UrlView, Seq<char>>;

/// `url::Url::parse`, reduced to the parts the client reads. The result is
/// whatever the `url` crate makes of the text, named [`url_parse`]; nothing
/// more is claimed of it.
#[verifier::external_body]
pub(crate) fn parse_url(input: &str) -> (r: Result<UrlParts, String>)
    ensures
        match r {
            Ok(parts) => url_parse(input@) == Ok::<UrlView, Seq<char>>(parts@),
            Err(e) => url_parse(input@) == Err::<UrlView, Seq<char>>(e@),
        },
{
    match url::Url::parse(input) {
        Ok(u) => Ok(
            UrlParts {
                scheme: u.scheme().to_string(),
                host: match u.host_str() {
                    Some(h) => Some(h.to_string()),
                    None => None,
                },
                port: u.port(),
                path: u.path().to_string(),
                known_port: u.port_or_known_default(),
            },
        ),
        Err(e) => Err(e.to_string()),
    }
}

/// The host field shown for a parsed URL: the host, then `:port` when a
/// port is given, then the path unless it is just `/`.
pub open spec fn host_text_of(u: UrlView) -> Seq<char> {
    (match u.1 {
        Some(h) => h,
        None => Seq::empty(),
    }) + (match u.2 {
        Some(p) => ":"@ + decimal(p as nat),
        None => Seq::empty(),
    }) + (if u.3 == "/"@ {
        Seq::empty()
    } else {
        u.3
    })
}

/// Returns the host field shown for a parsed URL, such as
/// `localhost:8080/ws`.
pub fn host_text(parts: &UrlParts) -> (r: String)
    ensures
        r@ == host_text_of(parts@),
{
    let mut s = String::new();
    match &parts.host {
        Some(h) => s.append(h.as_str()),
        None => {},
    }
    match parts.port {
        Some(p) => {
            s.append(":");
            push_decimal(&mut s, p as u64);
        },
        None => {},
    }
    if !same_text(parts.path.as_str(), "/") {
        s.append(parts.path.as_str());
    }
    s
}

/// Whether a parsed URL uses TLS: its scheme is `wss` or `https`.
pub open spec fn uses_tls(u: UrlView) -> bool {
    u.0 == "wss"@ || u.0 == "https"@
}

/// Returns whether a parsed URL asks for TLS.
pub fn scheme_uses_tls(parts: &UrlParts) -> (r: bool)
    ensures
        r == uses_tls(parts@),
{
    same_text(parts.scheme.as_str(), "wss") || same_text(parts.scheme.as_str(), "https")
}

/// Whether a scheme is one the client speaks: `ws` or `wss`.
pub open spec fn websocket_scheme(scheme: Seq<char>) -> bool {
    scheme == "ws"@ || scheme == "wss"@
}

/// The verdict on a URL the client built, given what parsing it gave: the
/// URL itself when it parsed with a WebSocket scheme, otherwise a message.
pub open spec fn checked_url(url: Seq<char>, parsed: Result<UrlView, Seq<char>>) -> Result<
    Seq<char>,
    Seq<char>,
> {
    match parsed {
        Ok(u) => if websocket_scheme(u.0) {
            Ok(url)
        } else {
            Err("unsupported URL scheme `"@ + u.0 + "`; expected `ws` or `wss`"@)
        },
        Err(e) => Err("Invalid URL: "@ + e),
    }
}

/// Decides on a URL the client built from what parsing it gave.
pub fn check_url(url: String, parsed: Result<UrlParts, String>) -> (r: Result<String, String>)
    ensures
        checked_url(
            url@,
            match parsed {
                Ok(p) => Ok::<UrlView, Seq<char>>(p@),
                Err(e) => Err::<UrlView, Seq<char>>(e@),
            },
        ) == match r {
            Ok(s) => Ok::<Seq<char>, Seq<char>>(s@),
            Err(s) => Err::<Seq<char>, Seq<char>>(s@),
        },
{
    match parsed {
        Ok(parts) => {
            if same_text(parts.scheme.as_str(), "ws") || same_text(parts.scheme.as_str(), "wss") {
                Ok(url)
            } else {
                let mut m = text("unsupported URL scheme `");
                m.append(parts.scheme.as_str());
                m.append("`; expected `ws` or `wss`");
                Err(m)
            }
        },
        Err(e) => {
            let mut m = text("Invalid URL: ");
            m.append(e.as_str());
            Err(m)
        },
    }
}

/// `whoami::username`: the name of the user running the process. What it
/// returns depends on the machine; nothing is claimed of it.
#[verifier::external_body]
pub(crate) fn os_username() -> (r: String) {
    whoami::username()
}

} // verus!
