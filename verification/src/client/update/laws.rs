//! Properties that hold of every step of the client state machine.

use vstd::prelude::*;

use super::{step, SideEffect};
use crate::client::auth_form::{
    fields_of, lemma_focus_stays_visible, lemma_toggle_mode_twice, AuthMode,
};
use crate::client::input::{digit_value, key_action, Key, KeyAction};
use crate::client::screen::{listed_matches, Screen};
use crate::client::state::{AppEvent, AppState};
use crate::protocol::{ClientMessage, MatchSummary, ServerMessage};

verus! {

/// Whether the auth form, when one is shown, has focus on a field that is
/// visible in its mode.
pub open spec fn focus_visible(screen: Screen) -> bool {
    match screen {
        Screen::Auth(f) => fields_of(f.mode).contains(f.focused),
        _ => true,
    }
}

/// Once the client has decided to quit, no event makes it change its mind.
pub proof fn lemma_quit_is_final(s: AppState, e: AppEvent, t: AppState, out: Seq<SideEffect>)
    requires
        step(s, e, t, out),
        s.should_quit,
    ensures
        t.should_quit,
{
}

/// A session never loses its authentication: once signed in, every event
/// leaves the client signed in (a new login only replaces the account).
pub proof fn lemma_authentication_is_kept(
    s: AppState,
    e: AppEvent,
    t: AppState,
    out: Seq<SideEffect>,
)
    requires
        step(s, e, t, out),
        s.authenticated_as is Some,
    ensures
        t.authenticated_as is Some,
{
}

/// The auth form's focus is always on a visible field: no event moves it to
/// a field hidden in the form's mode.
pub proof fn lemma_focus_stays_on_visible_field(
    s: AppState,
    e: AppEvent,
    t: AppState,
    out: Seq<SideEffect>,
)
    requires
        step(s, e, t, out),
        focus_visible(s.screen),
    ensures
        focus_visible(t.screen),
{
    assert(fields_of(AuthMode::Login).contains(fields_of(AuthMode::Login)[0]));
    assert(fields_of(AuthMode::Register).contains(fields_of(AuthMode::Register)[0]));
    if let Screen::Auth(f) = s.screen {
        lemma_focus_stays_visible(f.mode, f.focused);
        lemma_toggle_mode_twice(*f);
    }
}

/// In join mode, joining never targets a full match: the match a join
/// request names is one of the lobby's matches with a free seat.
pub proof fn lemma_join_targets_open_match(
    s: AppState,
    i: usize,
    t: AppState,
    out: Seq<SideEffect>,
)
    requires
        step(s, AppEvent::JoinMatchAt(i), t, out),
        s.screen matches Screen::Lobby { spectator_mode, .. } && !spectator_mode,
        out.len() > 0,
    ensures
        exists|m: MatchSummary|
            #![trigger (m.id)]
            (s.screen->Lobby_matches)@.contains(m) && !m.is_full && out == seq![
                SideEffect::Send(ClientMessage::JoinMatch { match_id: m.id }),
            ],
{
    broadcast use {vstd::seq_lib::group_filter_ensures, vstd::seq::Seq::lemma_filter_contains_rev};

    let listed = listed_matches(s.screen);
    assert(i < listed.len());
    let m = listed[i as int];
    assert(listed.contains(m));
    assert((s.screen->Lobby_matches)@.contains(m));
    assert(!m.is_full);
    assert(out == seq![SideEffect::Send(ClientMessage::JoinMatch { match_id: m.id })]);
}

/// The digit keys `1` to `9` select the numbered entry: in the lobby's join
/// mode, digit `d` asks to join the `d`-th listed match (a signed-in client
/// sends the join request for it); in a game, digit `d` plays cell `d`,
/// counted in row-major order from 1, which is position `d - 1`.
pub proof fn lemma_digit_keys(s: AppState, d: char, t: AppState, out: Seq<SideEffect>)
    requires
        '1' <= d <= '9',
    ensures
        s.screen matches Screen::Lobby { spectator_mode, .. } && !spectator_mode ==> key_action(
            Key::Char(d),
            s.screen,
        ) == KeyAction::Event(AppEvent::JoinMatchAt((digit_value(d) - 1) as usize)),
        s.screen is InGame ==> key_action(Key::Char(d), s.screen) == KeyAction::Event(
            AppEvent::PlayMove(digit_value(d)),
        ),
        s.screen matches Screen::Lobby { spectator_mode, .. } && !spectator_mode
            && s.authenticated_as is Some && digit_value(d) - 1 < listed_matches(s.screen).len()
            && step(s, AppEvent::JoinMatchAt((digit_value(d) - 1) as usize), t, out) ==> out
            == seq![
            SideEffect::Send(
                ClientMessage::JoinMatch {
                    match_id: listed_matches(s.screen)[digit_value(d) - 1].id,
                },
            ),
        ],
        step(s, AppEvent::PlayMove(digit_value(d)), t, out) ==> out.len() == 1 && (
        out[0] matches SideEffect::Send(ClientMessage::MakeMove { position }) && position@
            == digit_value(d) - 1),
{
    assert(1 <= digit_value(d) <= 9);
}

/// After a successful sign-in the client retries what it was doing when it
/// was asked to authenticate: the lobby list is requested first, then the
/// pending match creation or join, if any.
pub proof fn lemma_sign_in_retries_pending(
    s: AppState,
    m: ServerMessage,
    t: AppState,
    out: Seq<SideEffect>,
)
    requires
        step(s, AppEvent::Server(m), t, out),
        m is Registered || m is LoginSucceeded,
        s.screen matches Screen::Auth(f) && f.pending_action is Some,
    ensures
        out.len() == 2,
        out[0] == SideEffect::Send(ClientMessage::ListMatches),
        (s.screen->Auth_0).pending_action matches Some(crate::client::auth_form::PendingAction::CreateMatch)
            ==> out[1] == SideEffect::Send(ClientMessage::CreateMatch),
        (s.screen->Auth_0).pending_action matches Some(crate::client::auth_form::PendingAction::JoinMatch(id))
            ==> out[1] == SideEffect::Send(ClientMessage::JoinMatch { match_id: id }),
        t.authenticated_as is Some,
{
}

/// A failed connection attempt returns to the connection form, which shows
/// why and keeps what the user typed; nothing is sent.
pub proof fn lemma_failed_connection_returns_to_form(
    s: AppState,
    reason: String,
    t: AppState,
    out: Seq<SideEffect>,
)
    requires
        step(s, AppEvent::ConnectionFailed { reason }, t, out),
    ensures
        t.screen == Screen::Connection,
        t.connection_form.error == Some(reason),
        t.connection_form.host == s.connection_form.host,
        t.connection_form.guest_name == s.connection_form.guest_name,
        t.connection_form.use_tls == s.connection_form.use_tls,
        out.len() == 0,
{
}

/// The keys the game documents: outside the auth form, the connection form
/// and a watched match, `q` quits, `r` refreshes the lobby and `c` creates
/// a match; `q` also quits while watching a match.
pub proof fn lemma_documented_keys(screen: Screen)
    ensures
        !(screen is Auth || screen is Connection || screen is Spectating) ==> {
            &&& key_action(Key::Char('q'), screen) == KeyAction::Event(AppEvent::Quit)
            &&& key_action(Key::Char('r'), screen) == KeyAction::Event(AppEvent::RefreshLobby)
            &&& key_action(Key::Char('c'), screen) == KeyAction::Event(AppEvent::CreateMatch)
        },
        screen is Spectating ==> key_action(Key::Char('q'), screen) == KeyAction::Event(
            AppEvent::Quit,
        ),
{
}

/// When the server reports that the opponent left, or that the match was
/// abandoned, the client goes back to an empty lobby in join mode, keeps
/// its account, name and connection form, and asks exactly once for the
/// list of matches.
pub proof fn lemma_match_gone_returns_to_lobby(
    s: AppState,
    m: ServerMessage,
    t: AppState,
    out: Seq<SideEffect>,
)
    requires
        step(s, AppEvent::Server(m), t, out),
        m is OpponentLeft || m is MatchAbandoned,
    ensures
        t.screen matches Screen::Lobby { matches, spectator_mode } && matches@.len() == 0
            && !spectator_mode,
        out == seq![SideEffect::Send(ClientMessage::ListMatches)],
        t.authenticated_as == s.authenticated_as,
        t.display_name == s.display_name,
        t.connection_form == s.connection_form,
        t.should_quit == s.should_quit,
        m is OpponentLeft ==> t.status@ == "opponent left the match"@,
{
}

} // verus!
