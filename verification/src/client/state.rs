//! Application state and events.

use vstd::prelude::*;

use super::address::{host_text, host_text_of, parse_url, scheme_uses_tls, url_parse, uses_tls};
use super::auth_form::{AuthMode, PendingAction};
use super::config::ClientConfig;
use super::connection_form::{saved_host, url_outcome, ConnectionField, ConnectionForm};
use super::screen::Screen;
use crate::domain::Username;
use crate::protocol::{ClientMessage, ServerMessage};
use crate::text::text;

verus! {

/// Everything the client knows at any point in time.
#[derive(Debug)]
pub struct AppState {
    /// The current screen.
    pub screen: Screen,
    /// The display name shown in the header.
    pub display_name: String,
    /// The username of the authenticated account, if any.
    pub authenticated_as: Option<Username>,
    /// A transient status line shown at the bottom of the UI.
    pub status: String,
    /// Set to `true` when the main loop should exit.
    pub should_quit: bool,
    /// The pure model of the connection form.
    pub connection_form: ConnectionForm,
    /// Whether the client started via the connection form.
    pub uses_connection_form: bool,
}

/// The server address field after the command line has had its say: the
/// host part of the given URL when one is given and parses, otherwise what
/// the saved configuration pre-fills.
pub open spec fn start_host(server_url: Option<&str>, config: ClientConfig) -> Seq<char> {
    match server_url {
        Some(u) => match url_parse(u@) {
            Ok(v) => host_text_of(v),
            Err(_) => saved_host(config.server_url),
        },
        None => saved_host(config.server_url),
    }
}

/// The TLS switch after the command line has had its say: on when a given
/// URL parses with scheme `wss` or `https`, off when it parses with another
/// scheme, otherwise the saved choice (off when none is saved).
pub open spec fn start_tls(server_url: Option<&str>, config: ClientConfig) -> bool {
    let saved = match config.use_tls {
        Some(b) => b,
        None => false,
    };
    match server_url {
        Some(u) => match url_parse(u@) {
            Ok(v) => uses_tls(v),
            Err(_) => saved,
        },
        None => saved,
    }
}

/// Whether `r` is the configuration `s` saves after the server's welcome:
/// nothing for a client set up from the command line; otherwise the URL the
/// connection form builds (the local default server when it builds none),
/// the guest name and the TLS choice.
pub open spec fn remembered(s: AppState, r: Option<ClientConfig>) -> bool {
    &&& !s.uses_connection_form ==> r is None
    &&& s.uses_connection_form ==> (r matches Some(c) && c.server_url matches Some(u) && u@
        == match url_outcome(s.connection_form) {
        Ok(built) => built,
        Err(_) => "ws://127.0.0.1:8080/ws"@,
    } && c.guest_name == Some(s.connection_form.guest_name) && c.use_tls == Some(
        s.connection_form.use_tls,
    ))
}

/// The configuration to save when `event` arrives: after the server's
/// welcome, what [`AppState::config_to_remember`] gives; after any other
/// event, nothing.
pub fn config_on(state: &AppState, event: &AppEvent) -> (r: Option<ClientConfig>)
    ensures
        (event matches AppEvent::Server(m) && m is Welcome) ==> remembered(*state, r),
        !(event matches AppEvent::Server(m) && m is Welcome) ==> r is None,
{
    match event {
        AppEvent::Server(ServerMessage::Welcome { .. }) => state.config_to_remember(),
        _ => None,
    }
}

impl AppState {
    /// Creates the initial state. When both the server URL and the guest
    /// name are given, the client starts on `Screen::Connecting`; otherwise
    /// it starts on the connection form, pre-filled from the arguments and
    /// the saved configuration.
    pub fn with_config(server_url: Option<&str>, guest_name: Option<&str>, config: &ClientConfig) -> (r: AppState)
        ensures
            r.screen == (if server_url is Some && guest_name is Some {
                Screen::Connecting
            } else {
                Screen::Connection
            }),
            r.uses_connection_form == !(server_url is Some && guest_name is Some),
            r.connection_form.host@ == start_host(server_url, *config),
            r.connection_form.use_tls == start_tls(server_url, *config),
            guest_name matches Some(g) ==> r.connection_form.guest_name@ == g@,
            guest_name is None && config.guest_name is Some ==> r.connection_form.guest_name
                == config.guest_name.unwrap(),
            guest_name is None && config.guest_name is None ==> r.connection_form.guest_name@.len()
                > 0,
            r.connection_form.focus == ConnectionField::Server,
            r.connection_form.error is None,
            r.display_name@ == r.connection_form.guest_name@,
            r.authenticated_as is None,
            r.status@ == "connecting..."@,
            !r.should_quit,
    {
        let mut form = ConnectionForm::new(config);
        if let Some(url) = server_url {
            if let Ok(parts) = parse_url(url) {
                form.host = host_text(&parts);
                form.use_tls = scheme_uses_tls(&parts);
            }
        }
        if let Some(name) = guest_name {
            form.guest_name = String::from_str(name);
        }
        let is_fully_resolved = server_url.is_some() && guest_name.is_some();
        let display_name = match guest_name {
            Some(name) => String::from_str(name),
            None => form.guest_name.clone(),
        };
        let screen = if is_fully_resolved {
            Screen::Connecting
        } else {
            Screen::Connection
        };
        AppState {
            screen,
            display_name,
            authenticated_as: None,
            status: text("connecting..."),
            should_quit: false,
            connection_form: form,
            uses_connection_form: !is_fully_resolved,
        }
    }

    /// Returns `true` when the session is authenticated.
    pub fn is_authenticated(&self) -> (r: bool)
        ensures
            r == self.authenticated_as is Some,
    {
        self.authenticated_as.is_some()
    }

    /// The configuration to save once the server has welcomed a client that
    /// was set up through the connection form: the URL the form builds (the
    /// local default server when it builds none), the guest name and the TLS
    /// choice. A client set up from the command line saves nothing.
    pub fn config_to_remember(&self) -> (r: Option<ClientConfig>)
        ensures
            remembered(*self, r),
    {
        if !self.uses_connection_form {
            return None;
        }
        let url = match self.connection_form.build_url() {
            Ok(u) => u,
            Err(_) => text("ws://127.0.0.1:8080/ws"),
        };
        Some(
            ClientConfig {
                server_url: Some(url),
                guest_name: Some(self.connection_form.guest_name.clone()),
                use_tls: Some(self.connection_form.use_tls),
            },
        )
    }

    /// Creates the state of a client that was given a display name and no
    /// server URL, so the connection form is shown.
    pub fn new(display_name: &str) -> (r: AppState)
        ensures
            r.screen == Screen::Connection,
            r.uses_connection_form,
            r.display_name@ == display_name@,
            r.connection_form.guest_name@ == display_name@,
            r.connection_form.host@.len() == 0,
            !r.connection_form.use_tls,
            r.connection_form.focus == ConnectionField::Server,
            r.connection_form.error is None,
            r.authenticated_as is None,
            r.status@ == "connecting..."@,
            !r.should_quit,
    {
        let config = ClientConfig::default();
        Self::with_config(None, Some(display_name), &config)
    }
}

/// An event the state machine reacts to.
#[derive(Debug, Clone)]
pub enum AppEvent {
    /// A message arrived from the server.
    Server(ServerMessage),
    /// The server closed the connection.
    Disconnected,
    /// Connection failed with a specific reason.
    ConnectionFailed {
        /// Why the connection failed.
        reason: String,
    },
    /// The user pressed `q` or `Esc` outside of the auth/connection screens.
    Quit,
    /// The user asked to refresh the lobby list.
    RefreshLobby,
    /// The user asked to open the ranking screen.
    ShowRanking,
    /// The user asked to return to the lobby from a secondary screen.
    BackToLobby,
    /// The user asked to create a new match.
    CreateMatch,
    /// The user asked to join the match at the given 0-based index in the
    /// current lobby list.
    JoinMatchAt(usize),
    /// The user asked to enter or leave the lobby's spectator mode.
    ToggleSpectatorMode,
    /// The user asked to spectate the match at the given 0-based index in
    /// the current lobby list.
    SpectateAt(usize),
    /// The user asked to stop spectating the current match.
    LeaveSpectate,
    /// The user played a move at the given 1-based cell index.
    PlayMove(u8),
    /// The user asked to leave the current match.
    LeaveMatch,
    /// The user asked to see the auth screen.
    ShowAuth {
        /// Whether to start in login or register mode.
        mode: AuthMode,
        /// An action to retry after authentication succeeds.
        pending: Option<PendingAction>,
    },
    /// A character typed on the auth screen.
    AuthInput(char),
    /// Backspace on the auth screen.
    AuthBackspace,
    /// Tab on the auth screen.
    AuthNextField,
    /// Shift-Tab on the auth screen.
    AuthPreviousField,
    /// Enter on the auth screen.
    AuthSubmit,
    /// F2 on the auth screen: toggles between login and register.
    AuthToggleMode,
    /// F3 on the auth screen: toggles password visibility.
    AuthToggleReveal,
    /// Esc on the auth screen: returns to the lobby as a guest.
    AuthCancel,
    /// A character typed on the connection screen.
    Input(char),
    /// Backspace on the connection screen.
    PopChar,
    /// Tab on the connection screen.
    Tab,
    /// Shift-Tab on the connection screen.
    ShiftTab,
    /// Enter on the connection screen.
    Submit,
    /// F3 on the connection screen.
    ToggleTls,
    /// Esc on the connection screen.
    Cancel,
    /// The terminal was resized; the main loop should redraw.
    Redraw,
    /// A request to send an arbitrary message.
    Send(ClientMessage),
}

/// The event a connection attempt ends with: the server's first reply when
/// one came; otherwise a `ConnectionFailed` whose reason says whether the
/// greeting could not be sent, the connection closed before any reply
/// (`first` is `Some(None)`), or no reply came in time (`first` is `None`).
pub open spec fn connect_event(greeted: bool, first: Option<Option<ServerMessage>>, e: AppEvent) -> bool {
    if !greeted {
        e matches AppEvent::ConnectionFailed { reason } && reason@ == "Failed to send Hello"@
    } else {
        match first {
            Some(Some(m)) => e == AppEvent::Server(m),
            Some(None) => e matches AppEvent::ConnectionFailed { reason } && reason@
                == "Connection refused or unreachable"@,
            None => e matches AppEvent::ConnectionFailed { reason } && reason@
                == "Connection timed out"@,
        }
    }
}

/// Returns the event a connection attempt ends with; `greeted` tells
/// whether the greeting was sent, `first` what waiting for the first reply
/// gave.
pub fn connect_outcome(greeted: bool, first: Option<Option<ServerMessage>>) -> (r: AppEvent)
    ensures
        connect_event(greeted, first, r),
{
    if !greeted {
        return AppEvent::ConnectionFailed { reason: text("Failed to send Hello") };
    }
    match first {
        Some(Some(m)) => AppEvent::Server(m),
        Some(None) => AppEvent::ConnectionFailed {
            reason: text("Connection refused or unreachable"),
        },
        None => AppEvent::ConnectionFailed { reason: text("Connection timed out") },
    }
}

} // verus!
