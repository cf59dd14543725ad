use tictactoe::client::auth_form::{AuthField, AuthForm, AuthMode};
use tictactoe::client::config::{validate_server_url, ClientConfig};
use tictactoe::client::connection_form::{ConnectionField, ConnectionForm};
use tictactoe::client::screen::Screen;
use tictactoe::client::display::{auth_field_lines, lobby_placeholder, spectator_banner};
use tictactoe::client::state::{config_on, connect_outcome, AppEvent, AppState};
use tictactoe::protocol::{ClientId, ClientMessage, MatchId, MatchSummary, ServerMessage};

fn validate(url: &str) -> Result<(), String> {
    validate_server_url(url)
}

#[test]
fn accepts_ws_and_wss() {
    validate("ws://127.0.0.1:8080/ws").unwrap();
    validate("wss://tictactoe.onrender.com/ws").unwrap();
}

#[test]
fn rejects_http_and_https() {
    assert!(validate("http://example.com").is_err());
    assert!(validate("https://example.com").is_err());
}

#[test]
fn rejects_garbage() {
    assert!(validate("not a url").is_err());
}

#[test]
fn new_state_starts_connecting_if_resolved() {
    let state = AppState::with_config(
        Some("ws://test"),
        Some("alice"),
        &ClientConfig::default(),
    );
    assert_eq!(state.display_name, "alice");
    assert!(matches!(state.screen, Screen::Connecting));
    assert!(!state.should_quit);
    assert!(!state.is_authenticated());
}

#[test]
fn new_state_starts_on_connection_if_not_resolved() {
    let state = AppState::with_config(
        None,
        Some("alice"),
        &ClientConfig::default(),
    );
    assert!(matches!(state.screen, Screen::Connection));
}

#[test]
fn login_form_starts_with_username_focused() {
    let form = AuthForm::new(AuthMode::Login, None);
    assert_eq!(form.focused, AuthField::Username);
}

#[test]
fn register_form_starts_with_name_focused() {
    let form = AuthForm::new(AuthMode::Register, None);
    assert_eq!(form.focused, AuthField::Name);
}

#[test]
fn push_char_routes_to_the_focused_field() {
    let mut form = AuthForm::new(AuthMode::Login, None);
    form.push_char('a');
    assert_eq!(form.username, "a");
    form.focus_next();
    form.push_char('p');
    assert_eq!(form.password, "p");
}

#[test]
fn age_accepts_digits_only() {
    let mut form = AuthForm::new(AuthMode::Register, None);
    form.focused = AuthField::Age;
    for character in "1a2b3c".chars() {
        form.push_char(character);
    }
    assert_eq!(form.age, "123");
}

#[test]
fn age_is_capped_at_three_digits() {
    let mut form = AuthForm::new(AuthMode::Register, None);
    form.focused = AuthField::Age;
    for _ in 0..10 {
        form.push_char('1');
    }
    assert_eq!(form.age, "111");
}

#[test]
fn pop_char_removes_from_the_focused_field() {
    let mut form = AuthForm::new(AuthMode::Login, None);
    form.username = String::from("alice");
    form.pop_char();
    assert_eq!(form.username, "alic");
}

#[test]
fn tab_cycles_through_login_fields() {
    let mut form = AuthForm::new(AuthMode::Login, None);
    assert_eq!(form.focused, AuthField::Username);
    form.focus_next();
    assert_eq!(form.focused, AuthField::Password);
    form.focus_next();
    assert_eq!(form.focused, AuthField::Username);
}

#[test]
fn shift_tab_cycles_backwards() {
    let mut form = AuthForm::new(AuthMode::Login, None);
    assert_eq!(form.focused, AuthField::Username);
    form.focus_previous();
    assert_eq!(form.focused, AuthField::Password);
}

#[test]
fn toggle_mode_keeps_focus_when_still_visible() {
    let mut form = AuthForm::new(AuthMode::Login, None);
    form.focused = AuthField::Username;
    form.toggle_mode();
    assert_eq!(form.mode, AuthMode::Register);
    assert_eq!(form.focused, AuthField::Username);
}

#[test]
fn build_login_message_requires_username() {
    let form = AuthForm::new(AuthMode::Login, None);
    assert!(form.build_message().is_err());
}

#[test]
fn build_login_message_succeeds_when_filled() {
    let mut form = AuthForm::new(AuthMode::Login, None);
    form.username = String::from("alice_99");
    form.password = String::from("hunter2hunter2");
    assert!(matches!(
        form.build_message(),
        Ok(ClientMessage::Login { .. })
    ));
}

#[test]
fn build_register_message_requires_age_to_parse() {
    let mut form = AuthForm::new(AuthMode::Register, None);
    form.name = String::from("Alice Example");
    form.username = String::from("alice_99");
    form.age = String::from("aaa");
    form.password = String::from("hunter2hunter2");
    assert!(form.build_message().is_err());
}

#[test]
fn build_register_message_succeeds_when_filled() {
    let mut form = AuthForm::new(AuthMode::Register, None);
    form.name = String::from("Alice Example");
    form.username = String::from("alice_99");
    form.age = String::from("30");
    form.password = String::from("hunter2hunter2");
    assert!(matches!(
        form.build_message(),
        Ok(ClientMessage::Register { age: 30, .. })
    ));
}

#[test]
fn connection_form_starts_on_host_field() {
    let form = ConnectionForm::new(&ClientConfig::default());
    assert_eq!(form.focus, ConnectionField::Server);
}

#[test]
fn push_char_updates_focused_field() {
    let mut form = ConnectionForm::new(&ClientConfig::default());
    form.push_char('a');
    assert_eq!(form.host, "a");
    form.tab();
    form.guest_name.clear(); // clear default guest name
    form.push_char('b');
    assert_eq!(form.guest_name, "b");
}

#[test]
fn pop_char_updates_focused_field() {
    let mut form = ConnectionForm::new(&ClientConfig::default());
    form.host = "abc".to_string();
    form.pop_char();
    assert_eq!(form.host, "ab");
}

#[test]
fn connection_form_tab_cycles_fields() {
    let mut form = ConnectionForm::new(&ClientConfig::default());
    form.tab();
    assert_eq!(form.focus, ConnectionField::GuestName);
    form.tab();
    assert_eq!(form.focus, ConnectionField::Tls);
    form.tab();
    assert_eq!(form.focus, ConnectionField::Server);
}

#[test]
fn connection_form_shift_tab_cycles_backwards() {
    let mut form = ConnectionForm::new(&ClientConfig::default());
    form.shift_tab();
    assert_eq!(form.focus, ConnectionField::Tls);
    form.shift_tab();
    assert_eq!(form.focus, ConnectionField::GuestName);
    form.shift_tab();
    assert_eq!(form.focus, ConnectionField::Server);
}

#[test]
fn connection_form_toggle_tls() {
    let mut form = ConnectionForm::new(&ClientConfig::default());
    form.use_tls = false;
    form.toggle_tls();
    assert!(form.use_tls);
    form.toggle_tls();
    assert!(!form.use_tls);
}

#[test]
fn connection_form_enter_with_empty_host_sets_error() {
    let mut form = ConnectionForm::new(&ClientConfig::default());
    form.host.clear();
    assert_eq!(form.build_url().unwrap_err(), "Host cannot be empty");
}

#[test]
fn connection_form_rejects_spaces_in_host() {
    let mut form = ConnectionForm::new(&ClientConfig::default());
    form.host = "localhost 8080".to_string();
    assert_eq!(form.build_url().unwrap_err(), "Host cannot contain spaces");
}

#[test]
fn connection_form_enter_with_empty_guest_name_sets_error() {
    let mut form = ConnectionForm::new(&ClientConfig::default());
    form.host = "localhost".to_string();
    form.guest_name.clear();
    assert_eq!(form.build_url().unwrap_err(), "Guest name cannot be empty");
}

#[test]
fn connection_form_builds_url_correctly() {
    let mut form = ConnectionForm::new(&ClientConfig::default());
    form.host = "localhost:8080/ws".to_string();
    form.guest_name = "alice".to_string();
    form.use_tls = false;
    assert_eq!(form.build_url().unwrap(), "ws://localhost:8080/ws");

    form.use_tls = true;
    assert_eq!(form.build_url().unwrap(), "wss://localhost:8080/ws");
}

#[test]
fn title_matches_variant() {
    assert_eq!(Screen::Connection.title(), "Connection");
    assert_eq!(Screen::Connecting.title(), "Connecting");
    assert_eq!(
        Screen::Lobby {
            matches: vec![],
            spectator_mode: false
        }
        .title(),
        "Lobby"
    );
    assert_eq!(Screen::Ranking { entries: vec![] }.title(), "Ranking");
    assert_eq!(Screen::Fatal(String::from("boom")).title(), "Error");
}

#[test]
fn visible_matches_hides_full_matches_in_join_mode() {
    let screen = Screen::Lobby {
        matches: vec![
            MatchSummary {
                id: MatchId::new(1),
                host: String::from("alice"),
                spectator_count: 0,
                is_full: false,
            },
            MatchSummary {
                id: MatchId::new(2),
                host: String::from("bob"),
                spectator_count: 0,
                is_full: true,
            },
        ],
        spectator_mode: false,
    };
    let visible = screen.visible_matches();
    assert_eq!(visible.len(), 1);
    assert_eq!(visible[0].id, MatchId::new(1));
}

#[test]
fn visible_matches_shows_full_matches_in_spectator_mode() {
    let screen = Screen::Lobby {
        matches: vec![
            MatchSummary {
                id: MatchId::new(1),
                host: String::from("alice"),
                spectator_count: 0,
                is_full: false,
            },
            MatchSummary {
                id: MatchId::new(2),
                host: String::from("bob"),
                spectator_count: 0,
                is_full: true,
            },
        ],
        spectator_mode: true,
    };
    let visible = screen.visible_matches();
    assert_eq!(visible.len(), 2);
}

#[test]
fn visible_matches_is_empty_outside_the_lobby() {
    assert!(Screen::Connecting.visible_matches().is_empty());
}

/// Password is shown in both modes, so switching to Register keeps focus on
/// it: `toggle_mode` resets focus only when the focused field is hidden in
/// the new mode. The case where Login/Password switches to Register/Name is
/// not tested, as it would contradict that documented rule and
/// `toggle_mode_keeps_focus_when_still_visible`.
#[test]
fn toggle_mode_keeps_a_password_focus_that_stays_visible() {
    let mut form = AuthForm::new(AuthMode::Login, None);
    form.focused = AuthField::Password;
    form.error = Some(String::from("Username is required"));
    form.toggle_mode();
    assert_eq!(form.mode, AuthMode::Register);
    assert_eq!(form.focused, AuthField::Password);
    assert_eq!(form.error, None);
}

#[test]
fn the_connection_form_is_remembered_after_welcome() {
    let mut state = AppState::new("alice");
    state.connection_form.host = String::from("localhost:8080/ws");
    state.connection_form.use_tls = true;
    let remembered = state.config_to_remember().unwrap();
    assert_eq!(remembered.server_url.as_deref(), Some("wss://localhost:8080/ws"));
    assert_eq!(remembered.guest_name.as_deref(), Some("alice"));
    assert_eq!(remembered.use_tls, Some(true));

    state.connection_form.host = String::new();
    let fallback = state.config_to_remember().unwrap();
    assert_eq!(fallback.server_url.as_deref(), Some("ws://127.0.0.1:8080/ws"));
}

#[test]
fn a_client_set_up_from_the_command_line_remembers_nothing() {
    let state = AppState::with_config(Some("ws://test"), Some("alice"), &ClientConfig::default());
    assert!(state.config_to_remember().is_none());
}

#[test]
fn auth_rows_follow_the_mode_and_mask_the_password() {
    let mut form = AuthForm::new(AuthMode::Register, None);
    form.name = String::from("Alice");
    form.password = String::from("h\u{e9}llo");
    form.focused = AuthField::Age;
    let rows = auth_field_lines(&form);
    assert_eq!(
        rows,
        vec![
            ("Name", String::from("Alice"), false),
            ("Username", String::new(), false),
            ("Age", String::new(), true),
            ("Password", String::from("*****"), false),
        ]
    );
    form.reveal_password = true;
    form.mode = AuthMode::Login;
    let rows = auth_field_lines(&form);
    assert_eq!(
        rows,
        vec![
            ("Username", String::new(), false),
            ("Password", String::from("h\u{e9}llo"), false),
        ]
    );
}

#[test]
fn only_the_welcome_saves_the_configuration() {
    let state = AppState::new("alice");
    assert!(config_on(&state, &AppEvent::Redraw).is_none());
    let welcome = AppEvent::Server(ServerMessage::Welcome {
        client_id: ClientId::new(1),
        display_name: String::from("alice"),
    });
    let saved = config_on(&state, &welcome).unwrap();
    assert_eq!(saved.guest_name.as_deref(), Some("alice"));
}

#[test]
fn whitespace_matches_the_standard_library() {
    for code in 0..=0x10FFFFu32 {
        if let Some(c) = char::from_u32(code) {
            assert_eq!(tictactoe::text::is_whitespace(c), c.is_whitespace(), "{code:#x}");
        }
    }
}

#[test]
fn lobby_texts_follow_the_mode() {
    assert_eq!(lobby_placeholder(false), "no open matches; press c to create one");
    assert_eq!(lobby_placeholder(true), "no matches to spectate; press r to refresh");
    assert_eq!(spectator_banner(false), None);
    assert_eq!(
        spectator_banner(true),
        Some("Spectator mode: press 1-9 to watch a match, Esc to cancel")
    );
}

#[test]
fn connection_attempts_end_with_the_right_event() {
    assert!(matches!(
        connect_outcome(false, Some(None)),
        AppEvent::ConnectionFailed { reason } if reason == "Failed to send Hello"
    ));
    assert!(matches!(
        connect_outcome(true, Some(None)),
        AppEvent::ConnectionFailed { reason } if reason == "Connection refused or unreachable"
    ));
    assert!(matches!(
        connect_outcome(true, None),
        AppEvent::ConnectionFailed { reason } if reason == "Connection timed out"
    ));
    assert!(matches!(
        connect_outcome(true, Some(Some(ServerMessage::Pong))),
        AppEvent::Server(ServerMessage::Pong)
    ));
}
