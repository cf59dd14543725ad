//! The connection form shown before the client knows which server to use.

use vstd::prelude::*;

use super::address::{
    check_url, checked_url, host_text, host_text_of, os_username, parse_url, url_parse,
};
use super::config::ClientConfig;
use crate::text::{contains_char, text, trim, trimmed};

verus! {

/// Which field of the connection form currently has focus.
#[derive(Debug, Clone, Copy, PartialEq, Eq, Structural)]
pub enum ConnectionField {
    /// The server address.
    Server,
    /// The guest display name.
    GuestName,
    /// The TLS switch.
    Tls,
}

/// Pure model of the connection form.
#[derive(Debug, PartialEq, Eq)]
pub struct ConnectionForm {
    /// The server address, without the scheme.
    pub host: String,
    /// The display name announced as a guest.
    pub guest_name: String,
    /// Whether to connect with `wss`.
    pub use_tls: bool,
    /// The focused field.
    pub focus: ConnectionField,
    /// The last validation or connection error.
    pub error: Option<String>,
}

impl Clone for ConnectionForm {
    fn clone(&self) -> (r: ConnectionForm)
        ensures
            r == *self,
    {
        ConnectionForm {
            host: self.host.clone(),
            guest_name: self.guest_name.clone(),
            use_tls: self.use_tls,
            focus: self.focus,
            error: match &self.error {
                Some(e) => Some(e.clone()),
                None => None,
            },
        }
    }
}

/// The host field a configuration pre-fills: the host part of the saved
/// URL when it parses, the saved text as is when it does not, and nothing
/// when no URL is saved.
pub open spec fn saved_host(server_url: Option<String>) -> Seq<char> {
    match server_url {
        Some(u) => match url_parse(u@) {
            Ok(v) => host_text_of(v),
            Err(_) => u@,
        },
        None => Seq::empty(),
    }
}

/// The guest name to use when no name is configured: the account name of
/// the operating system, or `guest` when that is empty.
pub fn guest_name_or_default(os_name: String) -> (r: String)
    ensures
        os_name@.len() == 0 ==> r@ == "guest"@,
        os_name@.len() > 0 ==> r == os_name,
        r@.len() > 0,
{
    proof {
        reveal_strlit("guest");
    }
    if os_name.as_str().unicode_len() == 0 {
        text("guest")
    } else {
        os_name
    }
}

/// The field after `f` in focus order (Tab), wrapping around.
pub open spec fn field_after(f: ConnectionField) -> ConnectionField {
    match f {
        ConnectionField::Server => ConnectionField::GuestName,
        ConnectionField::GuestName => ConnectionField::Tls,
        ConnectionField::Tls => ConnectionField::Server,
    }
}

/// The field before `f` in focus order (Shift-Tab), wrapping around.
pub open spec fn field_before(f: ConnectionField) -> ConnectionField {
    match f {
        ConnectionField::Server => ConnectionField::Tls,
        ConnectionField::GuestName => ConnectionField::Server,
        ConnectionField::Tls => ConnectionField::GuestName,
    }
}

/// Whether `g` is `f` with `c` typed into the focused text field; the TLS
/// field ignores characters. Typing clears the error.
pub open spec fn conn_typed(f: ConnectionForm, c: char, g: ConnectionForm) -> bool {
    match f.focus {
        ConnectionField::Server => g == ConnectionForm { host: g.host, error: None, ..f }
            && g.host@ == f.host@.push(c),
        ConnectionField::GuestName => g == ConnectionForm {
            guest_name: g.guest_name,
            error: None,
            ..f
        } && g.guest_name@ == f.guest_name@.push(c),
        ConnectionField::Tls => g == ConnectionForm { error: None, ..f },
    }
}

/// `s` without its last character, if it has one.
pub open spec fn drop_last_char(s: Seq<char>) -> Seq<char> {
    if s.len() > 0 {
        s.drop_last()
    } else {
        s
    }
}

/// Whether `g` is `f` with the last character of the focused text field
/// removed; the TLS field is left alone. Erasing clears the error.
pub open spec fn conn_erased(f: ConnectionForm, g: ConnectionForm) -> bool {
    match f.focus {
        ConnectionField::Server => g == ConnectionForm { host: g.host, error: None, ..f }
            && g.host@ == drop_last_char(f.host@),
        ConnectionField::GuestName => g == ConnectionForm {
            guest_name: g.guest_name,
            error: None,
            ..f
        } && g.guest_name@ == drop_last_char(f.guest_name@),
        ConnectionField::Tls => g == ConnectionForm { error: None, ..f },
    }
}

/// The URL text the form asks to connect to, before it is checked.
pub open spec fn url_text(f: ConnectionForm) -> Seq<char> {
    (if f.use_tls {
        "wss"@
    } else {
        "ws"@
    }) + "://"@ + trim(f.host@)
}

/// What submitting the form gives: the URL to connect to, or the reason it
/// is refused. The host must not be blank nor hold a space, the guest name
/// must not be blank, and the URL must parse with scheme `ws` or `wss`.
pub open spec fn url_outcome(f: ConnectionForm) -> Result<Seq<char>, Seq<char>> {
    if trim(f.host@).len() == 0 {
        Err("Host cannot be empty"@)
    } else if trim(f.host@).contains(' ') {
        Err("Host cannot contain spaces"@)
    } else if trim(f.guest_name@).len() == 0 {
        Err("Guest name cannot be empty"@)
    } else {
        checked_url(url_text(f), url_parse(url_text(f)))
    }
}

impl ConnectionForm {
    /// Builds a new form from the saved configuration. The host comes from
    /// the saved URL, the guest name from the saved name or else from the
    /// operating system's account name (`guest` when that is empty), and
    /// TLS from the saved choice (off when none is saved).
    pub fn new(config: &ClientConfig) -> (r: ConnectionForm)
        ensures
            r.host@ == saved_host(config.server_url),
            config.guest_name matches Some(g) ==> r.guest_name == g,
            config.guest_name is None ==> r.guest_name@.len() > 0,
            r.use_tls == match config.use_tls {
                Some(b) => b,
                None => false,
            },
            r.focus == ConnectionField::Server,
            r.error is None,
    {
        let host = match &config.server_url {
            Some(url) => match parse_url(url.as_str()) {
                Ok(parts) => host_text(&parts),
                Err(_) => url.clone(),
            },
            None => String::new(),
        };
        let guest_name = match &config.guest_name {
            Some(name) => name.clone(),
            None => guest_name_or_default(os_username()),
        };
        let use_tls = match config.use_tls {
            Some(b) => b,
            None => false,
        };
        ConnectionForm { host, guest_name, use_tls, focus: ConnectionField::Server, error: None }
    }

    /// Appends a character to the focused text field. The TLS field ignores
    /// characters.
    pub fn push_char(&mut self, c: char)
        ensures
            conn_typed(*old(self), c, *final(self)),
    {
        self.error = None;
        match self.focus {
            ConnectionField::Server => {
                self.host.push(c);
            },
            ConnectionField::GuestName => {
                self.guest_name.push(c);
            },
            ConnectionField::Tls => {},
        }
    }

    /// Removes the last character of the focused text field.
    pub fn pop_char(&mut self)
        ensures
            conn_erased(*old(self), *final(self)),
    {
        self.error = None;
        match self.focus {
            ConnectionField::Server => {
                self.host.pop();
            },
            ConnectionField::GuestName => {
                self.guest_name.pop();
            },
            ConnectionField::Tls => {},
        }
    }

    /// Cycles focus forwards (Tab).
    pub fn tab(&mut self)
        ensures
            *final(self) == (ConnectionForm {
                focus: field_after(old(self).focus),
                error: None,
                ..*old(self)
            }),
    {
        self.error = None;
        self.focus =
        match self.focus {
            ConnectionField::Server => ConnectionField::GuestName,
            ConnectionField::GuestName => ConnectionField::Tls,
            ConnectionField::Tls => ConnectionField::Server,
        };
    }

    /// Cycles focus backwards (Shift+Tab).
    pub fn shift_tab(&mut self)
        ensures
            *final(self) == (ConnectionForm {
                focus: field_before(old(self).focus),
                error: None,
                ..*old(self)
            }),
    {
        self.error = None;
        self.focus =
        match self.focus {
            ConnectionField::Server => ConnectionField::Tls,
            ConnectionField::GuestName => ConnectionField::Server,
            ConnectionField::Tls => ConnectionField::GuestName,
        };
    }

    /// Toggles the TLS field.
    pub fn toggle_tls(&mut self)
        ensures
            *final(self) == (ConnectionForm {
                use_tls: !old(self).use_tls,
                error: None,
                ..*old(self)
            }),
    {
        self.error = None;
        self.use_tls = !self.use_tls;
    }

    /// Validates the form and produces a fully-qualified WebSocket URL, or
    /// a human-readable reason it cannot.
    pub fn build_url(&self) -> (r: Result<String, String>)
        ensures
            url_outcome(*self) == match r {
                Ok(s) => Ok::<Seq<char>, Seq<char>>(s@),
                Err(s) => Err::<Seq<char>, Seq<char>>(s@),
            },
    {
        let trimmed_host = trimmed(self.host.as_str());
        let trimmed_name = trimmed(self.guest_name.as_str());
        if trimmed_host.as_str().unicode_len() == 0 {
            return Err(text("Host cannot be empty"));
        }
        if contains_char(trimmed_host.as_str(), ' ') {
            return Err(text("Host cannot contain spaces"));
        }
        if trimmed_name.as_str().unicode_len() == 0 {
            return Err(text("Guest name cannot be empty"));
        }
        let mut url_str = if self.use_tls {
            text("wss")
        } else {
            text("ws")
        };
        url_str.append("://");
        url_str.append(trimmed_host.as_str());
        assert(url_str@ == url_text(*self));
        let parsed = parse_url(url_str.as_str());
        check_url(url_str, parsed)
    }
}

/// Shift-Tab undoes Tab, and three presses of Tab come back to the start.
pub proof fn lemma_tab_cycle(f: ConnectionField)
    ensures
        field_before(field_after(f)) == f,
        field_after(field_before(f)) == f,
        field_after(field_after(field_after(f))) == f,
{
}

} // verus!
