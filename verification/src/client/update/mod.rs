//! The update function: applies an event to the state and lists the side
//! effects the main loop must perform, as values.

pub mod auth;
pub mod laws;
pub mod server;

use vstd::prelude::*;

use super::auth_form::{fields_of, AuthForm, AuthMode, PendingAction};
use super::connection_form::{
    conn_erased, conn_typed, field_after, field_before, url_outcome, ConnectionForm,
};
use super::screen::{listed_matches, Screen};
use super::state::{AppEvent, AppState};
use crate::domain::Position;
use crate::protocol::ClientMessage;
use crate::text::text;
use auth::{apply_auth_event, auth_step, is_auth_event};
use server::{apply_server, server_step, status_now};

verus! {

/// A side effect the main loop must perform after applying an event.
#[derive(Debug, Clone, PartialEq, Eq)]
pub enum SideEffect {
    /// Send a message to the server.
    Send(ClientMessage),
    /// Connect to a new server.
    Connect {
        /// The WebSocket URL to connect to.
        url: String,
        /// The display name to announce.
        name: String,
        /// Whether the URL uses TLS.
        use_tls: bool,
    },
    /// Quit the process.
    Quit,
}

/// Whether `after` is `before` with more effects appended.
pub open spec fn extends(before: Seq<SideEffect>, after: Seq<SideEffect>) -> bool {
    after.len() >= before.len() && after == before + after.skip(before.len() as int)
}

/// The effects appended to `before` to give `after`.
pub open spec fn emitted(before: Seq<SideEffect>, after: Seq<SideEffect>) -> Seq<SideEffect> {
    after.skip(before.len() as int)
}

/// Appending `out` extends the list and emits exactly `out`.
proof fn lemma_appended(before: Seq<SideEffect>, out: Seq<SideEffect>)
    ensures
        extends(before, before + out),
        emitted(before, before + out) == out,
{
    assert((before + out).skip(before.len() as int) =~= out);
}

/// The standard lobby status line.
pub open spec fn lobby_status_text() -> Seq<char> {
    "press a number to join, c to create, t for ranking, s to spectate"@
}

/// The status line of the lobby in spectator mode.
pub open spec fn spectator_mode_text() -> Seq<char> {
    "spectator mode: press 1-9 to watch a match, Esc to cancel"@
}

/// Whether `screen` is an empty lobby in the given mode, as shown before
/// the next match list arrives.
pub open spec fn empty_lobby(screen: Screen, spectator: bool) -> bool {
    screen matches Screen::Lobby { matches, spectator_mode } && matches@.len() == 0
        && spectator_mode == spectator
}

/// Whether `f` is a blank form in `mode` that will retry `pending`.
pub open spec fn fresh_form(f: AuthForm, mode: AuthMode, pending: Option<PendingAction>) -> bool {
    &&& f.mode == mode
    &&& f.name@.len() == 0
    &&& f.username@.len() == 0
    &&& f.age@.len() == 0
    &&& f.password@.len() == 0
    &&& f.focused == fields_of(mode)[0]
    &&& !f.reveal_password
    &&& f.error is None
    &&& f.pending_action == pending
}

/// Whether `t` is `s` switched to a blank auth form in `mode` that will
/// retry `pending`.
pub open spec fn shows_auth(
    s: AppState,
    t: AppState,
    mode: AuthMode,
    pending: Option<PendingAction>,
) -> bool {
    &&& t == AppState { screen: t.screen, ..s }
    &&& t.screen matches Screen::Auth(f) && fresh_form(*f, mode, pending)
}

/// Switches the client to a blank auth form.
pub fn show_auth(state: &mut AppState, mode: AuthMode, pending: Option<PendingAction>)
    ensures
        shows_auth(*old(state), *final(state), mode, pending),
{
    state.screen = Screen::Auth(Box::new(AuthForm::new(mode, pending)));
}

/// Returns the standard lobby status line.
pub fn lobby_status() -> (r: String)
    ensures
        r@ == lobby_status_text(),
{
    crate::text::text("press a number to join, c to create, t for ranking, s to spectate")
}

/// Returns an empty lobby in join mode.
pub fn empty_lobby_screen() -> (r: Screen)
    ensures
        empty_lobby(r, false),
{
    Screen::Lobby { matches: Vec::new(), spectator_mode: false }
}

/// What the lobby events do. Joining and spectating pick the match at the
/// given index among the matches the lobby lists in its current mode;
/// creating or joining a match requires an account, and a guest is shown
/// the login form instead, which retries the action afterwards.
pub open spec fn lobby_step(s: AppState, e: AppEvent, t: AppState, out: Seq<SideEffect>) -> bool {
    let listed = listed_matches(s.screen);
    match e {
        AppEvent::RefreshLobby => t == s && out == seq![SideEffect::Send(ClientMessage::ListMatches)],
        AppEvent::ShowRanking => {
            &&& out == seq![SideEffect::Send(ClientMessage::ListRanking)]
            &&& t == AppState { screen: t.screen, status: t.status, ..s }
            &&& t.screen matches Screen::Ranking { entries } && entries@.len() == 0
            &&& t.status@ == "loading ranking..."@
        },
        AppEvent::BackToLobby => {
            &&& out == seq![SideEffect::Send(ClientMessage::ListMatches)]
            &&& t == AppState { screen: t.screen, status: t.status, ..s }
            &&& empty_lobby(t.screen, false)
            &&& t.status@ == lobby_status_text()
        },
        AppEvent::CreateMatch => if s.authenticated_as is Some {
            t == s && out == seq![SideEffect::Send(ClientMessage::CreateMatch)]
        } else {
            out.len() == 0 && shows_auth(s, t, AuthMode::Login, Some(PendingAction::CreateMatch))
        },
        AppEvent::JoinMatchAt(i) => if i < listed.len() {
            if s.authenticated_as is Some {
                t == s && out == seq![
                    SideEffect::Send(ClientMessage::JoinMatch { match_id: listed[i as int].id }),
                ]
            } else {
                out.len() == 0 && shows_auth(
                    s,
                    t,
                    AuthMode::Login,
                    Some(PendingAction::JoinMatch(listed[i as int].id)),
                )
            }
        } else {
            t == s && out.len() == 0
        },
        AppEvent::ToggleSpectatorMode => out.len() == 0 && match s.screen {
            Screen::Lobby { matches, spectator_mode } => {
                &&& t == AppState {
                    screen: Screen::Lobby { matches, spectator_mode: !spectator_mode },
                    status: t.status,
                    ..s
                }
                &&& t.status@ == if !spectator_mode {
                    spectator_mode_text()
                } else {
                    lobby_status_text()
                }
            },
            _ => t == s,
        },
        AppEvent::SpectateAt(i) => if i < listed.len() {
            &&& out == seq![
                SideEffect::Send(ClientMessage::Spectate { match_id: listed[i as int].id }),
            ]
            &&& status_now(s, t, "connecting to the match..."@)
        } else {
            t == s && out.len() == 0
        },
        _ => false,
    }
}

/// What the connection-screen events do. They act on the connection form
/// only while it is shown. Submitting asks the main loop to connect to the
/// URL the form builds, or shows on the form why it cannot.
pub open spec fn connection_step(s: AppState, e: AppEvent, t: AppState, out: Seq<SideEffect>) -> bool {
    let f = s.connection_form;
    if !(s.screen is Connection) {
        t == s && out.len() == 0
    } else {
        match e {
            AppEvent::Input(c) => {
                &&& out.len() == 0
                &&& t == AppState { connection_form: t.connection_form, ..s }
                &&& conn_typed(f, c, t.connection_form)
            },
            AppEvent::PopChar => {
                &&& out.len() == 0
                &&& t == AppState { connection_form: t.connection_form, ..s }
                &&& conn_erased(f, t.connection_form)
            },
            AppEvent::Tab => out.len() == 0 && t == AppState {
                connection_form: ConnectionForm { focus: field_after(f.focus), error: None, ..f },
                ..s
            },
            AppEvent::ShiftTab => out.len() == 0 && t == AppState {
                connection_form: ConnectionForm { focus: field_before(f.focus), error: None, ..f },
                ..s
            },
            AppEvent::ToggleTls => out.len() == 0 && t == AppState {
                connection_form: ConnectionForm { use_tls: !f.use_tls, error: None, ..f },
                ..s
            },
            AppEvent::Submit => match url_outcome(f) {
                Ok(u) => {
                    &&& out.len() == 1
                    &&& out[0] matches SideEffect::Connect { url, name, use_tls } && (url@ == u
                        && name == f.guest_name && use_tls == f.use_tls)
                    &&& t == AppState { screen: Screen::Connecting, status: t.status, ..s }
                    &&& t.status@ == "connecting..."@
                },
                Err(reason) => {
                    &&& out.len() == 0
                    &&& t == AppState { connection_form: t.connection_form, ..s }
                    &&& t.connection_form == ConnectionForm { error: t.connection_form.error, ..f }
                    &&& t.connection_form.error matches Some(msg) && msg@ == reason
                },
            },
            AppEvent::Cancel => out.len() == 0 && t == AppState { should_quit: true, ..s },
            _ => false,
        }
    }
}

/// Whether `e` is one of the connection-screen events.
pub open spec fn is_connection_event(e: AppEvent) -> bool {
    e is Input || e is PopChar || e is Tab || e is ShiftTab || e is ToggleTls || e is Submit
        || e is Cancel
}

/// Whether `e` is one of the lobby events.
pub open spec fn is_lobby_event(e: AppEvent) -> bool {
    e is RefreshLobby || e is ShowRanking || e is BackToLobby || e is CreateMatch || e is JoinMatchAt
        || e is ToggleSpectatorMode || e is SpectateAt
}

/// What an event does to the client: the state it leaves and the side
/// effects it asks for, in order.
pub open spec fn step(s: AppState, e: AppEvent, t: AppState, out: Seq<SideEffect>) -> bool {
    if is_auth_event(e) {
        auth_step(s, e, t, out)
    } else if is_lobby_event(e) {
        lobby_step(s, e, t, out)
    } else if is_connection_event(e) {
        connection_step(s, e, t, out)
    } else {
        match e {
            AppEvent::Server(m) => server_step(s, m, t, out),
            AppEvent::Disconnected => {
                &&& out.len() == 0
                &&& t == AppState { screen: t.screen, should_quit: true, ..s }
                &&& t.screen matches Screen::Fatal(msg) && msg@ == "server closed the connection"@
            },
            AppEvent::ConnectionFailed { reason } => out.len() == 0 && t == AppState {
                screen: Screen::Connection,
                connection_form: ConnectionForm { error: Some(reason), ..s.connection_form },
                ..s
            },
            AppEvent::Quit => out.len() == 0 && t == AppState { should_quit: true, ..s },
            AppEvent::LeaveSpectate => t == s && out == seq![
                SideEffect::Send(ClientMessage::LeaveSpectate),
            ],
            AppEvent::PlayMove(cell) => t == s && if 1 <= cell <= 9 {
                out.len() == 1 && (out[0] matches SideEffect::Send(ClientMessage::MakeMove { position })
                    && position@ == cell - 1)
            } else {
                out.len() == 0
            },
            AppEvent::LeaveMatch => t == s && out == seq![
                SideEffect::Send(ClientMessage::LeaveMatch),
            ],
            AppEvent::ShowAuth { mode, pending } => out.len() == 0 && shows_auth(s, t, mode, pending),
            AppEvent::Send(m) => t == s && out == seq![SideEffect::Send(m)],
            _ => t == s && out.len() == 0,
        }
    }
}

fn push_effect(effects: &mut Vec<SideEffect>, e: SideEffect)
    ensures
        extends(old(effects)@, final(effects)@),
        emitted(old(effects)@, final(effects)@) == seq![e],
{
    let ghost start = effects@;
    effects.push(e);
    proof {
        assert(effects@ =~= start + seq![e]);
        lemma_appended(start, seq![e]);
    }
}

proof fn lemma_none_emitted(effects: Seq<SideEffect>)
    ensures
        extends(effects, effects),
        emitted(effects, effects) == Seq::<SideEffect>::empty(),
{
    lemma_appended(effects, Seq::empty());
    assert(effects + Seq::<SideEffect>::empty() =~= effects);
}

fn apply_lobby_event(state: &mut AppState, event: AppEvent, effects: &mut Vec<SideEffect>)
    requires
        is_lobby_event(event),
    ensures
        extends(old(effects)@, final(effects)@),
        lobby_step(*old(state), event, *final(state), emitted(old(effects)@, final(effects)@)),
{
    match event {
        AppEvent::RefreshLobby => {
            push_effect(effects, SideEffect::Send(ClientMessage::ListMatches));
        },
        AppEvent::ShowRanking => {
            state.screen = Screen::Ranking { entries: Vec::new() };
            state.status = text("loading ranking...");
            push_effect(effects, SideEffect::Send(ClientMessage::ListRanking));
        },
        AppEvent::BackToLobby => {
            state.screen = empty_lobby_screen();
            state.status = lobby_status();
            push_effect(effects, SideEffect::Send(ClientMessage::ListMatches));
        },
        AppEvent::CreateMatch => {
            if state.is_authenticated() {
                push_effect(effects, SideEffect::Send(ClientMessage::CreateMatch));
            } else {
                show_auth(state, AuthMode::Login, Some(PendingAction::CreateMatch));
                proof {
                    lemma_none_emitted(effects@);
                }
            }
        },
        AppEvent::JoinMatchAt(index) => {
            let picked = {
                let visible = state.screen.visible_matches();
                if index < visible.len() {
                    Some(visible[index].id)
                } else {
                    None
                }
            };
            proof {
                lemma_none_emitted(effects@);
            }
            if let Some(match_id) = picked {
                if state.is_authenticated() {
                    push_effect(effects, SideEffect::Send(ClientMessage::JoinMatch { match_id }));
                } else {
                    show_auth(state, AuthMode::Login, Some(PendingAction::JoinMatch(match_id)));
                }
            }
        },
        AppEvent::ToggleSpectatorMode => {
            proof {
                lemma_none_emitted(effects@);
            }
            if let Screen::Lobby { spectator_mode, .. } = &mut state.screen {
                *spectator_mode = !*spectator_mode;
                let line = if *spectator_mode {
                    text("spectator mode: press 1-9 to watch a match, Esc to cancel")
                } else {
                    lobby_status()
                };
                state.status = line;
            }
        },
        _ => {
            let index = match event {
                AppEvent::SpectateAt(index) => index,
                _ => 0,
            };
            let picked = {
                let visible = state.screen.visible_matches();
                if index < visible.len() {
                    Some(visible[index].id)
                } else {
                    None
                }
            };
            proof {
                lemma_none_emitted(effects@);
            }
            if let Some(match_id) = picked {
                state.status = text("connecting to the match...");
                push_effect(effects, SideEffect::Send(ClientMessage::Spectate { match_id }));
            }
        },
    }
}

fn apply_connection_event(state: &mut AppState, event: AppEvent, effects: &mut Vec<SideEffect>)
    requires
        is_connection_event(event),
    ensures
        extends(old(effects)@, final(effects)@),
        connection_step(*old(state), event, *final(state), emitted(old(effects)@, final(effects)@)),
{
    proof {
        lemma_none_emitted(effects@);
    }
    if let Screen::Connection = state.screen {
        match event {
            AppEvent::Input(c) => state.connection_form.push_char(c),
            AppEvent::PopChar => state.connection_form.pop_char(),
            AppEvent::Tab => state.connection_form.tab(),
            AppEvent::ShiftTab => state.connection_form.shift_tab(),
            AppEvent::ToggleTls => state.connection_form.toggle_tls(),
            AppEvent::Submit => {
                match state.connection_form.build_url() {
                    Ok(url) => {
                        let name = state.connection_form.guest_name.clone();
                        let use_tls = state.connection_form.use_tls;
                        push_effect(effects, SideEffect::Connect { url, name, use_tls });
                        state.screen = Screen::Connecting;
                        state.status = text("connecting...");
                    },
                    Err(msg) => {
                        state.connection_form.error = Some(msg);
                    },
                }
            },
            _ => {
                state.should_quit = true;
            },
        }
    }
}

/// Applies `event` to `state`, appending the resulting side effects to
/// `effects`.
pub fn apply_event(state: &mut AppState, event: AppEvent, effects: &mut Vec<SideEffect>)
    ensures
        extends(old(effects)@, final(effects)@),
        step(*old(state), event, *final(state), emitted(old(effects)@, final(effects)@)),
{
    if apply_auth_event(state, &event, effects) {
        return;
    }
    if is_lobby(&event) {
        apply_lobby_event(state, event, effects);
        return;
    }
    if is_connection(&event) {
        apply_connection_event(state, event, effects);
        return;
    }
    proof {
        lemma_none_emitted(effects@);
    }
    match event {
        AppEvent::Server(message) => apply_server(state, message, effects),
        AppEvent::Disconnected => {
            state.screen = Screen::Fatal(text("server closed the connection"));
            state.should_quit = true;
        },
        AppEvent::ConnectionFailed { reason } => {
            state.screen = Screen::Connection;
            state.connection_form.error = Some(reason);
        },
        AppEvent::Quit => {
            state.should_quit = true;
        },
        AppEvent::LeaveSpectate => {
            push_effect(effects, SideEffect::Send(ClientMessage::LeaveSpectate));
        },
        AppEvent::PlayMove(cell) => {
            if cell >= 1 {
                if let Ok(position) = Position::new(cell - 1) {
                    push_effect(effects, SideEffect::Send(ClientMessage::MakeMove { position }));
                }
            }
        },
        AppEvent::LeaveMatch => {
            push_effect(effects, SideEffect::Send(ClientMessage::LeaveMatch));
        },
        AppEvent::ShowAuth { mode, pending } => {
            show_auth(state, mode, pending);
        },
        AppEvent::Send(message) => {
            push_effect(effects, SideEffect::Send(message));
        },
        _ => {},
    }
}

fn is_lobby(e: &AppEvent) -> (r: bool)
    ensures
        r == is_lobby_event(*e),
{
    match e {
        AppEvent::RefreshLobby | AppEvent::ShowRanking | AppEvent::BackToLobby
        | AppEvent::CreateMatch | AppEvent::JoinMatchAt(_) | AppEvent::ToggleSpectatorMode
        | AppEvent::SpectateAt(_) => true,
        _ => false,
    }
}

fn is_connection(e: &AppEvent) -> (r: bool)
    ensures
        r == is_connection_event(*e),
{
    match e {
        AppEvent::Input(_) | AppEvent::PopChar | AppEvent::Tab | AppEvent::ShiftTab
        | AppEvent::ToggleTls | AppEvent::Submit | AppEvent::Cancel => true,
        _ => false,
    }
}

} // verus!
