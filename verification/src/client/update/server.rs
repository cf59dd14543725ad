//! Server-message handling.

use vstd::prelude::*;

use super::{
    emitted, empty_lobby, empty_lobby_screen, extends, fresh_form, lemma_appended,
    lemma_none_emitted, lobby_status, lobby_status_text, show_auth, spectator_mode_text, SideEffect,
};
use crate::client::auth_form::{AuthForm, AuthMode, PendingAction};
use crate::client::screen::{ActiveMatch, Screen, SpectatedMatch};
use crate::client::state::AppState;
use crate::domain::{Board, GameStatus, Player, RankingEntry, UserProfile};
use crate::protocol::{
    AuthFailureReason, ClientMessage, ErrorCode, MatchId, MatchSummary, ServerMessage,
};
use crate::text::{decimal, push_decimal, text};

verus! {

/// The requests that retry the action a user was attempting when they were
/// asked to authenticate.
pub open spec fn retry_effects(pending: Option<PendingAction>) -> Seq<SideEffect> {
    match pending {
        Some(PendingAction::CreateMatch) => seq![SideEffect::Send(ClientMessage::CreateMatch)],
        Some(PendingAction::JoinMatch(id)) => seq![
            SideEffect::Send(ClientMessage::JoinMatch { match_id: id }),
        ],
        None => Seq::empty(),
    }
}

/// The action the auth screen was going to retry, if the client is on it.
pub open spec fn pending_of(screen: Screen) -> Option<PendingAction> {
    match screen {
        Screen::Auth(f) => f.pending_action,
        _ => None,
    }
}

/// What a successful registration or login does: the client is signed in
/// as the profile's username under the profile's name, the status line
/// says so after `prefix`, the lobby is shown and refreshed, and the action
/// the auth screen was waiting to retry is retried.
pub open spec fn signed_in(
    s: AppState,
    profile: UserProfile,
    prefix: Seq<char>,
    t: AppState,
    out: Seq<SideEffect>,
) -> bool {
    &&& t == AppState {
        screen: t.screen,
        status: t.status,
        authenticated_as: Some(profile.username),
        display_name: profile.name,
        ..s
    }
    &&& empty_lobby(t.screen, false)
    &&& t.status@ == prefix + profile.username.shown()
    &&& out == seq![SideEffect::Send(ClientMessage::ListMatches)] + retry_effects(pending_of(s.screen))
}

/// The text that reports a failed authentication.
pub open spec fn auth_failure_text(reason: AuthFailureReason, message: Seq<char>) -> Seq<char> {
    reason.spec_name() + ": "@ + message
}

/// The text that reports a protocol error.
pub open spec fn error_text(code: ErrorCode, message: Seq<char>) -> Seq<char> {
    code.spec_name() + ": "@ + message
}

/// Whether `t` is `s` with only the status line changed, to `line`.
pub open spec fn status_now(s: AppState, t: AppState, line: Seq<char>) -> bool {
    t == AppState { status: t.status, ..s } && t.status@ == line
}

/// What a message from the server does to the client.
pub open spec fn server_step(s: AppState, m: ServerMessage, t: AppState, out: Seq<SideEffect>) -> bool {
    match m {
        ServerMessage::Welcome { client_id: _, display_name } => {
            &&& t == AppState { display_name, screen: t.screen, status: t.status, ..s }
            &&& empty_lobby(t.screen, false)
            &&& t.status@ == "connected as guest"@
            &&& out == seq![SideEffect::Send(ClientMessage::ListMatches)]
        },
        ServerMessage::Registered { profile } => signed_in(s, profile, "registered as "@, t, out),
        ServerMessage::LoginSucceeded { profile } => signed_in(
            s,
            profile,
            "logged in as "@,
            t,
            out,
        ),
        ServerMessage::AuthenticationFailed { reason, message } => out.len() == 0 && match s.screen {
            Screen::Auth(f) => {
                &&& t == AppState { screen: t.screen, ..s }
                &&& t.screen matches Screen::Auth(g) && (*g == AuthForm { error: g.error, ..*f } && (
                g.error matches Some(e) && e@ == auth_failure_text(reason, message@)))
            },
            _ => status_now(s, t, auth_failure_text(reason, message@)),
        },
        ServerMessage::MatchList { matches } => {
            let spectating = s.screen matches Screen::Lobby { spectator_mode: true, .. };
            &&& out.len() == 0
            &&& t == AppState {
                screen: Screen::Lobby { matches, spectator_mode: spectating },
                status: t.status,
                ..s
            }
            &&& t.status@ == if spectating {
                spectator_mode_text()
            } else {
                lobby_status_text()
            }
        },
        ServerMessage::Ranking { entries } => out.len() == 0 && if s.screen is Ranking {
            &&& t == AppState { screen: Screen::Ranking { entries }, status: t.status, ..s }
            &&& t.status@ == decimal(entries@.len()) + " entries; press Esc to return"@
        } else {
            t == s
        },
        ServerMessage::MatchCreated { .. } => out.len() == 0 && status_now(
            s,
            t,
            "waiting for an opponent..."@,
        ),
        ServerMessage::MatchReady { match_id, opponent, your_mark, board, current_turn } => {
            &&& out.len() == 0
            &&& t == AppState {
                screen: Screen::InGame(
                    Box::new(
                        ActiveMatch {
                            id: match_id,
                            opponent,
                            your_mark,
                            board,
                            current_turn,
                            status: GameStatus::InProgress,
                        },
                    ),
                ),
                status: t.status,
                ..s
            }
            &&& t.status@ == "1-9 to play, q to leave"@
        },
        ServerMessage::BoardUpdate { board, current_turn, status } => out.len() == 0 && match s.screen {
            Screen::Spectating(a) => t == AppState {
                screen: Screen::Spectating(
                    Box::new(SpectatedMatch { board, current_turn, status, ..*a }),
                ),
                ..s
            },
            Screen::InGame(a) => t == AppState {
                screen: Screen::InGame(Box::new(ActiveMatch { board, current_turn, status, ..*a })),
                ..s
            },
            _ => t == s,
        },
        ServerMessage::MatchOver { board, status, winner_name } => {
            &&& out.len() == 0
            &&& t == AppState {
                screen: Screen::Finished { board, status, winner_name },
                status: t.status,
                ..s
            }
            &&& t.status@ == "press Esc to return to the lobby"@
        },
        ServerMessage::MatchAbandoned { .. } => {
            &&& out == seq![SideEffect::Send(ClientMessage::ListMatches)]
            &&& t == AppState { screen: t.screen, status: t.status, ..s }
            &&& empty_lobby(t.screen, false)
            &&& t.status@ == if s.screen is Spectating {
                "the match was abandoned by both players"@
            } else {
                "the match was abandoned"@
            }
        },
        ServerMessage::OpponentLeft { .. } => {
            &&& out == seq![SideEffect::Send(ClientMessage::ListMatches)]
            &&& t == AppState { screen: t.screen, status: t.status, ..s }
            &&& empty_lobby(t.screen, false)
            &&& t.status@ == "opponent left the match"@
        },
        ServerMessage::OpponentDisconnected { match_id, grace_seconds } => out.len() == 0
            && match s.screen {
            Screen::Spectating(a) => if a.id == match_id {
                status_now(
                    s,
                    t,
                    "a player disconnected; waiting up to "@ + decimal(grace_seconds as nat)
                        + "s for reconnection"@,
                )
            } else {
                t == s
            },
            Screen::InGame(a) => if a.id == match_id {
                status_now(
                    s,
                    t,
                    "opponent disconnected; waiting up to "@ + decimal(grace_seconds as nat)
                        + "s for reconnection"@,
                )
            } else {
                t == s
            },
            _ => t == s,
        },
        ServerMessage::OpponentReconnected { match_id } => out.len() == 0 && match s.screen {
            Screen::Spectating(a) => if a.id == match_id {
                status_now(s, t, "the player reconnected; the match continues"@)
            } else {
                t == s
            },
            Screen::InGame(a) => if a.id == match_id {
                status_now(s, t, "opponent reconnected; game resumed"@)
            } else {
                t == s
            },
            _ => t == s,
        },
        ServerMessage::SpectateStarted {
            match_id,
            host_name,
            guest_name,
            board,
            current_turn,
            status,
            spectator_count,
        } => {
            &&& out.len() == 0
            &&& t == AppState {
                screen: Screen::Spectating(
                    Box::new(
                        SpectatedMatch {
                            id: match_id,
                            host_name,
                            guest_name,
                            board,
                            current_turn,
                            status,
                            spectator_count,
                        },
                    ),
                ),
                status: t.status,
                ..s
            }
            &&& t.status@ == "observing "@ + match_id.spec_text() + "; "@ + decimal(
                spectator_count as nat,
            ) + " spectator(s); Esc to leave"@
        },
        ServerMessage::SpectatorJoined { username, spectator_count } => out.len() == 0
            && match s.screen {
            Screen::Spectating(a) => {
                &&& t == AppState {
                    screen: Screen::Spectating(Box::new(SpectatedMatch { spectator_count, ..*a })),
                    status: t.status,
                    ..s
                }
                &&& t.status@ == username@ + " joined as spectator; "@ + decimal(
                    spectator_count as nat,
                ) + " watching"@
            },
            _ => t == s,
        },
        ServerMessage::SpectatorLeft { username, spectator_count } => out.len() == 0
            && match s.screen {
            Screen::Spectating(a) => {
                &&& t == AppState {
                    screen: Screen::Spectating(Box::new(SpectatedMatch { spectator_count, ..*a })),
                    status: t.status,
                    ..s
                }
                &&& t.status@ == username@ + " left the audience; "@ + decimal(
                    spectator_count as nat,
                ) + " watching"@
            },
            _ => t == s,
        },
        ServerMessage::Error { code, message } => out.len() == 0 && if code
            == ErrorCode::AuthenticationRequired && s.authenticated_as is None {
            &&& t == AppState { screen: t.screen, ..s }
            &&& t.screen matches Screen::Auth(f) && (fresh_form(
                AuthForm { error: None, ..*f },
                AuthMode::Login,
                None,
            ) && f.error == Some(message))
        } else {
            status_now(s, t, error_text(code, message@))
        },
        ServerMessage::Pong => out.len() == 0 && t == s,
    }
}

fn send(effects: &mut Vec<SideEffect>, m: ClientMessage)
    ensures
        final(effects)@ == old(effects)@ + seq![SideEffect::Send(m)],
        extends(old(effects)@, final(effects)@),
        emitted(old(effects)@, final(effects)@) == seq![SideEffect::Send(m)],
{
    let ghost start = effects@;
    effects.push(SideEffect::Send(m));
    proof {
        assert(effects@ =~= start + seq![SideEffect::Send(m)]);
        lemma_appended(start, seq![SideEffect::Send(m)]);
    }
}

fn on_welcome(state: &mut AppState, client_id: crate::protocol::ClientId, display_name: String, effects: &mut Vec<SideEffect>)
    ensures
        extends(old(effects)@, final(effects)@),
        server_step(
            *old(state),
            ServerMessage::Welcome { client_id, display_name },
            *final(state),
            emitted(old(effects)@, final(effects)@),
        ),
{
    state.display_name = display_name;
    state.screen = empty_lobby_screen();
    state.status = text("connected as guest");
    send(effects, ClientMessage::ListMatches);
}

/// Returns to the lobby and retries the action the user was attempting
/// when authentication was requested.
fn retry_pending(state: &mut AppState, effects: &mut Vec<SideEffect>)
    ensures
        empty_lobby(final(state).screen, false),
        *final(state) == (AppState { screen: final(state).screen, ..*old(state) }),
        extends(old(effects)@, final(effects)@),
        emitted(old(effects)@, final(effects)@) == seq![
            SideEffect::Send(ClientMessage::ListMatches),
        ] + retry_effects(pending_of(old(state).screen)),
{
    let ghost start = effects@;
    let pending = match &state.screen {
        Screen::Auth(form) => form.pending_action,
        _ => None,
    };
    state.screen = empty_lobby_screen();
    effects.push(SideEffect::Send(ClientMessage::ListMatches));
    match pending {
        Some(PendingAction::CreateMatch) => {
            effects.push(SideEffect::Send(ClientMessage::CreateMatch));
        },
        Some(PendingAction::JoinMatch(match_id)) => {
            effects.push(SideEffect::Send(ClientMessage::JoinMatch { match_id }));
        },
        None => {},
    }
    proof {
        let out = seq![SideEffect::Send(ClientMessage::ListMatches)] + retry_effects(
            pending_of(old(state).screen),
        );
        assert(effects@ =~= start + out);
        lemma_appended(start, out);
    }
}

fn on_signed_in(state: &mut AppState, profile: UserProfile, registered: bool, effects: &mut Vec<SideEffect>)
    ensures
        extends(old(effects)@, final(effects)@),
        signed_in(
            *old(state),
            profile,
            if registered {
                "registered as "@
            } else {
                "logged in as "@
            },
            *final(state),
            emitted(old(effects)@, final(effects)@),
        ),
{
    let mut status = if registered {
        text("registered as ")
    } else {
        text("logged in as ")
    };
    status.append(profile.username.as_str());
    state.authenticated_as = Some(profile.username.clone());
    state.display_name = profile.name.clone();
    state.status = status;
    retry_pending(state, effects);
}

fn on_auth_failed(state: &mut AppState, reason: AuthFailureReason, message: String)
    ensures
        server_step(
            *old(state),
            ServerMessage::AuthenticationFailed { reason, message },
            *final(state),
            Seq::empty(),
        ),
{
    let mut line = text(reason.name());
    line.append(": ");
    line.append(message.as_str());
    if let Screen::Auth(form) = &mut state.screen {
        form.error = Some(line);
    } else {
        state.status = line;
    }
}

fn on_match_list(state: &mut AppState, matches: Vec<MatchSummary>)
    ensures
        server_step(*old(state), ServerMessage::MatchList { matches }, *final(state), Seq::empty()),
{
    let spectator_mode = match &state.screen {
        Screen::Lobby { spectator_mode, .. } => *spectator_mode,
        _ => false,
    };
    state.screen = Screen::Lobby { matches, spectator_mode };
    state.status = if spectator_mode {
        text("spectator mode: press 1-9 to watch a match, Esc to cancel")
    } else {
        lobby_status()
    };
}

fn on_ranking(state: &mut AppState, entries: Vec<RankingEntry>)
    ensures
        server_step(*old(state), ServerMessage::Ranking { entries }, *final(state), Seq::empty()),
{
    if let Screen::Ranking { .. } = &state.screen {
        let count = entries.len();
        let mut line = String::new();
        push_decimal(&mut line, count as u64);
        line.append(" entries; press Esc to return");
        state.screen = Screen::Ranking { entries };
        state.status = line;
    }
}

fn on_match_ready(
    state: &mut AppState,
    match_id: MatchId,
    opponent: String,
    your_mark: Player,
    board: Board,
    current_turn: Player,
)
    ensures
        server_step(
            *old(state),
            ServerMessage::MatchReady { match_id, opponent, your_mark, board, current_turn },
            *final(state),
            Seq::empty(),
        ),
{
    state.screen = Screen::InGame(
        Box::new(
            ActiveMatch {
                id: match_id,
                opponent,
                your_mark,
                board,
                current_turn,
                status: GameStatus::InProgress,
            },
        ),
    );
    state.status = text("1-9 to play, q to leave");
}

fn on_board_update(state: &mut AppState, board: Board, current_turn: Player, status: GameStatus)
    ensures
        server_step(
            *old(state),
            ServerMessage::BoardUpdate { board, current_turn, status },
            *final(state),
            Seq::empty(),
        ),
{
    match &mut state.screen {
        Screen::Spectating(active) => {
            let a = &mut **active;
            a.board = board;
            a.current_turn = current_turn;
            a.status = status;
        },
        Screen::InGame(active) => {
            let a = &mut **active;
            a.board = board;
            a.current_turn = current_turn;
            a.status = status;
        },
        _ => {},
    }
}

fn on_match_over(state: &mut AppState, board: Board, status: GameStatus, winner_name: Option<String>)
    ensures
        server_step(
            *old(state),
            ServerMessage::MatchOver { board, status, winner_name },
            *final(state),
            Seq::empty(),
        ),
{
    state.screen = Screen::Finished { board, status, winner_name };
    state.status = text("press Esc to return to the lobby");
}

fn on_match_gone(state: &mut AppState, message: &ServerMessage, effects: &mut Vec<SideEffect>)
    requires
        message is MatchAbandoned || message is OpponentLeft,
    ensures
        extends(old(effects)@, final(effects)@),
        server_step(*old(state), *message, *final(state), emitted(old(effects)@, final(effects)@)),
{
    let line = match message {
        ServerMessage::MatchAbandoned { .. } => match &state.screen {
            Screen::Spectating(_) => text("the match was abandoned by both players"),
            _ => text("the match was abandoned"),
        },
        _ => text("opponent left the match"),
    };
    state.screen = empty_lobby_screen();
    state.status = line;
    send(effects, ClientMessage::ListMatches);
}

fn on_opponent_disconnected(state: &mut AppState, match_id: MatchId, grace_seconds: u32)
    ensures
        server_step(
            *old(state),
            ServerMessage::OpponentDisconnected { match_id, grace_seconds },
            *final(state),
            Seq::empty(),
        ),
{
    let line = match &state.screen {
        Screen::Spectating(active) => if active.id == match_id {
            Some(text("a player disconnected; waiting up to "))
        } else {
            None
        },
        Screen::InGame(active) => if active.id == match_id {
            Some(text("opponent disconnected; waiting up to "))
        } else {
            None
        },
        _ => None,
    };
    if let Some(mut line) = line {
        push_decimal(&mut line, grace_seconds as u64);
        line.append("s for reconnection");
        state.status = line;
    }
}

fn on_opponent_reconnected(state: &mut AppState, match_id: MatchId)
    ensures
        server_step(
            *old(state),
            ServerMessage::OpponentReconnected { match_id },
            *final(state),
            Seq::empty(),
        ),
{
    let line = match &state.screen {
        Screen::Spectating(active) => if active.id == match_id {
            Some(text("the player reconnected; the match continues"))
        } else {
            None
        },
        Screen::InGame(active) => if active.id == match_id {
            Some(text("opponent reconnected; game resumed"))
        } else {
            None
        },
        _ => None,
    };
    if let Some(line) = line {
        state.status = line;
    }
}

fn on_spectate_started(
    state: &mut AppState,
    match_id: MatchId,
    host_name: String,
    guest_name: String,
    board: Board,
    current_turn: Player,
    status: GameStatus,
    spectator_count: u32,
)
    ensures
        server_step(
            *old(state),
            ServerMessage::SpectateStarted {
                match_id,
                host_name,
                guest_name,
                board,
                current_turn,
                status,
                spectator_count,
            },
            *final(state),
            Seq::empty(),
        ),
{
    let mut line = text("observing ");
    line.append(match_id.to_string().as_str());
    line.append("; ");
    push_decimal(&mut line, spectator_count as u64);
    line.append(" spectator(s); Esc to leave");
    state.screen = Screen::Spectating(
        Box::new(
            SpectatedMatch {
                id: match_id,
                host_name,
                guest_name,
                board,
                current_turn,
                status,
                spectator_count,
            },
        ),
    );
    state.status = line;
}

fn on_spectator_count(state: &mut AppState, message: &ServerMessage)
    requires
        message is SpectatorJoined || message is SpectatorLeft,
    ensures
        server_step(*old(state), *message, *final(state), Seq::empty()),
{
    let (username, spectator_count, joined) = match message {
        ServerMessage::SpectatorJoined { username, spectator_count } => (
            username,
            *spectator_count,
            true,
        ),
        ServerMessage::SpectatorLeft { username, spectator_count } => (
            username,
            *spectator_count,
            false,
        ),
        _ => {
            return;
        },
    };
    if let Screen::Spectating(active) = &mut state.screen {
        (&mut **active).spectator_count = spectator_count;
        let mut line = String::from_str(username.as_str());
        if joined {
            line.append(" joined as spectator; ");
        } else {
            line.append(" left the audience; ");
        }
        push_decimal(&mut line, spectator_count as u64);
        line.append(" watching");
        state.status = line;
    }
}

fn on_error(state: &mut AppState, code: ErrorCode, message: String)
    ensures
        server_step(*old(state), ServerMessage::Error { code, message }, *final(state), Seq::empty()),
{
    if code == ErrorCode::AuthenticationRequired && !state.is_authenticated() {
        show_auth(state, AuthMode::Login, None);
        if let Screen::Auth(form) = &mut state.screen {
            form.error = Some(message);
        }
    } else {
        let mut line = text(code.name());
        line.append(": ");
        line.append(message.as_str());
        state.status = line;
    }
}

/// Applies a message received from the server.
pub fn apply_server(state: &mut AppState, message: ServerMessage, effects: &mut Vec<SideEffect>)
    ensures
        extends(old(effects)@, final(effects)@),
        server_step(*old(state), message, *final(state), emitted(old(effects)@, final(effects)@)),
{
    match message {
        ServerMessage::Welcome { client_id, display_name } => {
            on_welcome(state, client_id, display_name, effects);
        },
        ServerMessage::Registered { profile } => {
            on_signed_in(state, profile, true, effects);
        },
        ServerMessage::LoginSucceeded { profile } => {
            on_signed_in(state, profile, false, effects);
        },
        ServerMessage::MatchAbandoned { match_id } => {
            on_match_gone(state, &ServerMessage::MatchAbandoned { match_id }, effects);
        },
        ServerMessage::OpponentLeft { match_id } => {
            on_match_gone(state, &ServerMessage::OpponentLeft { match_id }, effects);
        },
        _ => {
            proof {
                lemma_none_emitted(effects@);
            }
            apply_quiet(state, message);
        },
    }
}

/// Applies a message that sends nothing back.
fn apply_quiet(state: &mut AppState, message: ServerMessage)
    requires
        !(message is Welcome || message is Registered || message is LoginSucceeded
            || message is MatchAbandoned || message is OpponentLeft),
    ensures
        server_step(*old(state), message, *final(state), Seq::empty()),
{
    match message {
        ServerMessage::AuthenticationFailed { reason, message } => {
            on_auth_failed(state, reason, message);
        },
        ServerMessage::MatchList { matches } => on_match_list(state, matches),
        ServerMessage::Ranking { entries } => on_ranking(state, entries),
        ServerMessage::MatchCreated { .. } => {
            state.status = text("waiting for an opponent...");
        },
        ServerMessage::MatchReady { match_id, opponent, your_mark, board, current_turn } => {
            on_match_ready(state, match_id, opponent, your_mark, board, current_turn);
        },
        ServerMessage::BoardUpdate { board, current_turn, status } => {
            on_board_update(state, board, current_turn, status);
        },
        ServerMessage::MatchOver { board, status, winner_name } => {
            on_match_over(state, board, status, winner_name);
        },
        ServerMessage::OpponentDisconnected { match_id, grace_seconds } => {
            on_opponent_disconnected(state, match_id, grace_seconds);
        },
        ServerMessage::OpponentReconnected { match_id } => {
            on_opponent_reconnected(state, match_id);
        },
        ServerMessage::SpectateStarted {
            match_id,
            host_name,
            guest_name,
            board,
            current_turn,
            status,
            spectator_count,
        } => {
            on_spectate_started(
                state,
                match_id,
                host_name,
                guest_name,
                board,
                current_turn,
                status,
                spectator_count,
            );
        },
        ServerMessage::SpectatorJoined { username, spectator_count } => {
            on_spectator_count(state, &ServerMessage::SpectatorJoined { username, spectator_count });
        },
        ServerMessage::SpectatorLeft { username, spectator_count } => {
            on_spectator_count(state, &ServerMessage::SpectatorLeft { username, spectator_count });
        },
        ServerMessage::Error { code, message } => on_error(state, code, message),
        _ => {},
    }
}

} // verus!
