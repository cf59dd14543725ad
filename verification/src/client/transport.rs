//! The transport the client talks to the server through.

use vstd::prelude::*;

use crate::text::text;

verus! {

/// Errors that can surface from a transport.
#[derive(Debug)]
pub enum TransportError {
    /// The underlying WebSocket reported an error.
    WebSocket(String),
    /// The transport is not connected.
    Disconnected,
}

impl TransportError {
    /// The human-readable text of the error.
    pub open spec fn spec_text(&self) -> Seq<char> {
        match self {
            TransportError::WebSocket(m) => "websocket error: "@ + m@,
            TransportError::Disconnected => "transport is not connected"@,
        }
    }

    /// Returns the human-readable text of the error.
    pub fn to_string(&self) -> (r: String)
        ensures
            r@ == self.spec_text(),
    {
        match self {
            TransportError::WebSocket(m) => {
                let mut s = text("websocket error: ");
                s.append(m.as_str());
                s
            },
            TransportError::Disconnected => text("transport is not connected"),
        }
    }
}

/// A WebSocket transport that connects to a `ws://` or `wss://` URL when it
/// is started.
#[derive(Debug)]
pub struct WsTransport {
    url: String,
    insecure: bool,
}

impl WsTransport {
    /// The URL the transport connects to.
    pub closed spec fn target(&self) -> Seq<char> {
        self.url@
    }

    /// Whether certificate verification is disabled.
    pub closed spec fn skips_verification(&self) -> bool {
        self.insecure
    }

    /// Creates a transport that will connect to `url` when started. When
    /// `insecure` is `true`, TLS certificate verification is disabled.
    pub fn new(url: String, insecure: bool) -> (r: WsTransport)
        ensures
            r.target() == url@,
            r.skips_verification() == insecure,
    {
        WsTransport { url, insecure }
    }

    /// Returns the URL the transport connects to.
    pub fn url(&self) -> (r: &str)
        ensures
            r@ == self.target(),
    {
        self.url.as_str()
    }

    /// Returns whether certificate verification is disabled.
    pub fn insecure(&self) -> (r: bool)
        ensures
            r == self.skips_verification(),
    {
        self.insecure
    }
}

} // verus!
