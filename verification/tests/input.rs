use tictactoe::client::auth_form::{AuthForm, AuthMode};
use tictactoe::client::input::{translate_key, Key, KeyAction};
use tictactoe::client::screen::{ActiveMatch, Screen, SpectatedMatch};
use tictactoe::client::state::AppEvent;
use tictactoe::domain::{Board, GameStatus, Player};
use tictactoe::protocol::{MatchId, MatchSummary};

fn lobby() -> Screen {
    Screen::Lobby {
        matches: vec![MatchSummary {
            id: MatchId::new(0),
            host: String::from("alice"),
            spectator_count: 0,
            is_full: false,
        }],
        spectator_mode: false,
    }
}

fn lobby_spectator_mode() -> Screen {
    Screen::Lobby {
        matches: vec![MatchSummary {
            id: MatchId::new(0),
            host: String::from("alice"),
            spectator_count: 0,
            is_full: false,
        }],
        spectator_mode: true,
    }
}

fn ranking() -> Screen {
    Screen::Ranking { entries: vec![] }
}

fn in_game() -> Screen {
    Screen::InGame(Box::new(ActiveMatch {
        id: MatchId::new(0),
        opponent: String::from("bob"),
        your_mark: Player::X,
        board: Board::new(),
        current_turn: Player::X,
        status: GameStatus::InProgress,
    }))
}

fn spectating() -> Screen {
    Screen::Spectating(Box::new(SpectatedMatch {
        id: MatchId::new(0),
        host_name: String::from("alice"),
        guest_name: String::from("bob"),
        board: Board::new(),
        current_turn: Player::X,
        status: GameStatus::InProgress,
        spectator_count: 1,
    }))
}

fn auth() -> Screen {
    Screen::Auth(Box::new(AuthForm::new(AuthMode::Login, None)))
}

#[test]
fn digit_one_in_the_lobby_joins_the_first_match() {
    let action = translate_key(Key::Char('1'), &lobby());
    assert!(matches!(action, KeyAction::Event(AppEvent::JoinMatchAt(0))));
}

#[test]
fn digit_nine_in_the_lobby_joins_the_ninth_match() {
    let action = translate_key(Key::Char('9'), &lobby());
    assert!(matches!(action, KeyAction::Event(AppEvent::JoinMatchAt(8))));
}

#[test]
fn digit_in_spectator_mode_selects_a_match_to_spectate() {
    let action = translate_key(Key::Char('1'), &lobby_spectator_mode());
    assert!(matches!(action, KeyAction::Event(AppEvent::SpectateAt(0))));
}

#[test]
fn digit_one_in_a_game_plays_a_move() {
    let action = translate_key(Key::Char('1'), &in_game());
    assert!(matches!(action, KeyAction::Event(AppEvent::PlayMove(1))));
}

#[test]
fn digit_in_connecting_screen_is_ignored() {
    let action = translate_key(Key::Char('1'), &Screen::Connecting);
    assert!(matches!(action, KeyAction::Ignored));
}

#[test]
fn q_quits_from_anywhere_outside_auth() {
    let action = translate_key(Key::Char('q'), &lobby());
    assert!(matches!(action, KeyAction::Event(AppEvent::Quit)));
}

#[test]
fn unknown_key_is_ignored() {
    let action = translate_key(Key::Char('z'), &lobby());
    assert!(matches!(action, KeyAction::Ignored));
}

#[test]
fn printable_char_in_auth_is_forwarded_as_input() {
    let action = translate_key(Key::Char('a'), &auth());
    assert!(matches!(action, KeyAction::Event(AppEvent::AuthInput('a'))));
}

#[test]
fn tab_in_auth_moves_focus_forward() {
    let action = translate_key(Key::Tab, &auth());
    assert!(matches!(action, KeyAction::Event(AppEvent::AuthNextField)));
}

#[test]
fn back_tab_in_auth_moves_focus_backwards() {
    let action = translate_key(Key::BackTab, &auth());
    assert!(matches!(
        action,
        KeyAction::Event(AppEvent::AuthPreviousField)
    ));
}

#[test]
fn esc_in_auth_cancels_the_screen() {
    let action = translate_key(Key::Esc, &auth());
    assert!(matches!(action, KeyAction::Event(AppEvent::AuthCancel)));
}

#[test]
fn f2_in_auth_toggles_the_mode() {
    let action = translate_key(Key::F(2), &auth());
    assert!(matches!(action, KeyAction::Event(AppEvent::AuthToggleMode)));
}

#[test]
fn f3_in_auth_toggles_password_reveal() {
    let action = translate_key(Key::F(3), &auth());
    assert!(matches!(
        action,
        KeyAction::Event(AppEvent::AuthToggleReveal)
    ));
}

#[test]
fn t_in_the_lobby_opens_the_ranking() {
    let action = translate_key(Key::Char('t'), &lobby());
    assert!(matches!(action, KeyAction::Event(AppEvent::ShowRanking)));
}

#[test]
fn t_outside_the_lobby_is_ignored() {
    let action = translate_key(Key::Char('t'), &in_game());
    assert!(matches!(action, KeyAction::Ignored));
}

#[test]
fn esc_on_the_ranking_screen_returns_to_the_lobby() {
    let action = translate_key(Key::Esc, &ranking());
    assert!(matches!(action, KeyAction::Event(AppEvent::BackToLobby)));
}

#[test]
fn esc_outside_the_ranking_screen_quits() {
    let action = translate_key(Key::Esc, &lobby());
    assert!(matches!(action, KeyAction::Event(AppEvent::Quit)));
}

#[test]
fn esc_on_the_finished_screen_returns_to_the_lobby() {
    let screen = Screen::Finished {
        board: Board::new(),
        status: GameStatus::Draw,
        winner_name: None,
    };
    let action = translate_key(Key::Esc, &screen);
    assert!(matches!(action, KeyAction::Event(AppEvent::BackToLobby)));
}

#[test]
fn s_in_the_lobby_toggles_spectator_mode() {
    let action = translate_key(Key::Char('s'), &lobby());
    assert!(matches!(
        action,
        KeyAction::Event(AppEvent::ToggleSpectatorMode)
    ));
}

#[test]
fn esc_in_spectator_mode_cancels_the_mode() {
    let action = translate_key(Key::Esc, &lobby_spectator_mode());
    assert!(matches!(
        action,
        KeyAction::Event(AppEvent::ToggleSpectatorMode)
    ));
}

#[test]
fn esc_on_the_spectating_screen_leaves_spectate() {
    let action = translate_key(Key::Esc, &spectating());
    assert!(matches!(action, KeyAction::Event(AppEvent::LeaveSpectate)));
}

#[test]
fn q_on_the_spectating_screen_quits() {
    let action = translate_key(Key::Char('q'), &spectating());
    assert!(matches!(action, KeyAction::Event(AppEvent::Quit)));
}

#[test]
fn digits_on_the_spectating_screen_are_ignored() {
    let action = translate_key(Key::Char('1'), &spectating());
    assert!(matches!(action, KeyAction::Ignored));
}
