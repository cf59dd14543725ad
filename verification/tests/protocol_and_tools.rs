use tictactoe::client::address::host_text;
use tictactoe::client::auth_form::{AuthField, AuthForm, AuthMode, PendingAction};
use tictactoe::client::config::{judge_server_url, validate_server_url, ArgsConfig, Cli as ClientCli};
use tictactoe::client::connection_form::{guest_name_or_default, ConnectionForm};
use tictactoe::client::config::ClientConfig;
use tictactoe::client::display::{cell_glyph, lobby_entry_text, outcome_text};
use tictactoe::client::transport::{TransportError, WsTransport};
use tictactoe::domain::{Cell, GameStatus, Player};
use tictactoe::hacker::config::{parse_target, target_from};
use tictactoe::hacker::outcome::Outcome;
use tictactoe::hacker::scenario::{
    judge_reply, scenarios_for, username_suffix, Expected, Scenario, ScenarioChoice,
};
use tictactoe::protocol::{
    AuthFailureReason, ClientId, ErrorCode, MatchId, MatchSummary, ServerMessage, MAX_SPECTATORS,
};

#[test]
fn display_prefixes_with_client() {
    assert_eq!(ClientId::new(7).to_string(), "client-7");
}

#[test]
fn display_prefixes_with_match() {
    assert_eq!(MatchId::new(3).to_string(), "match-3");
}

#[test]
fn ids_keep_their_value() {
    assert_eq!(ClientId::new(42).value(), 42);
    assert_eq!(MatchId::new(9).value(), 9);
    assert_eq!(MatchId::new(u64::MAX).to_string(), "match-18446744073709551615");
    assert_eq!(ClientId::new(0).to_string(), "client-0");
}

#[test]
fn max_spectators_is_five() {
    assert_eq!(MAX_SPECTATORS, 5);
}

#[test]
fn reason_and_code_names_match_their_variants() {
    assert_eq!(AuthFailureReason::AlreadyLoggedIn.name(), "AlreadyLoggedIn");
    assert_eq!(AuthFailureReason::InvalidCredentials.name(), "InvalidCredentials");
    assert_eq!(ErrorCode::MatchNotFound.name(), "MatchNotFound");
    assert_eq!(ErrorCode::default(), ErrorCode::Unknown);
}

#[test]
fn defended_is_reported_correctly() {
    let outcome = Outcome::defended("ok");
    assert!(outcome.is_defended());
    assert_eq!(outcome.label(), "DEFENDED");
    assert_eq!(outcome.detail(), "ok");
}

#[test]
fn compromised_is_reported_correctly() {
    let outcome = Outcome::compromised("bad");
    assert!(!outcome.is_defended());
    assert_eq!(outcome.label(), "COMPROMISED");
    assert_eq!(outcome.detail(), "bad");
}

#[test]
fn parse_target_accepts_ws_urls() {
    let url = parse_target("ws://127.0.0.1:8080/ws").unwrap();
    assert_eq!(url.host.as_deref(), Some("127.0.0.1"));
    assert_eq!(url.port, Some(8080));
}

#[test]
fn parse_target_rejects_garbage() {
    assert!(parse_target("not a url").is_err());
}

#[test]
fn parse_target_reads_scheme_and_path() {
    let url = parse_target("wss://example.com/ws").unwrap();
    assert_eq!(url.scheme, "wss");
    assert_eq!(url.port, None);
    assert_eq!(url.path, "/ws");
    assert_eq!(url.known_port, Some(443));
    assert_eq!(host_text(&url), "example.com/ws");
}

#[test]
fn target_errors_name_the_target() {
    let error = target_from("x y", Err(String::from("relative URL without a base"))).unwrap_err();
    assert_eq!(error, "invalid target URL `x y`: relative URL without a base");
    let garbage = parse_target("not a url").unwrap_err();
    assert!(garbage.starts_with("invalid target URL `not a url`: "));
}

#[test]
fn all_runs_every_scenario_in_order() {
    assert_eq!(
        scenarios_for(ScenarioChoice::All),
        vec![
            Scenario::SessionHijack,
            Scenario::PortReuse,
            Scenario::Flood,
            Scenario::SpectatorIsolation
        ]
    );
    assert_eq!(scenarios_for(ScenarioChoice::Flood), vec![Scenario::Flood]);
}

#[test]
fn scenario_names_round_trip() {
    for scenario in scenarios_for(ScenarioChoice::All) {
        assert_eq!(Scenario::by_name(scenario.name()).unwrap(), scenario);
    }
    assert_eq!(
        Scenario::by_name("meltdown").unwrap_err(),
        "unknown scenario `meltdown`"
    );
}

#[test]
fn username_suffix_keeps_six_digits() {
    assert_eq!(username_suffix(123_456_789), 456_789);
    assert_eq!(username_suffix(999_999), 999_999);
    assert_eq!(username_suffix(1_000_000), 0);
}

#[test]
fn replies_are_judged_by_variant_and_code() {
    let not_found = ServerMessage::Error {
        code: ErrorCode::MatchNotFound,
        message: String::from("no such match"),
    };
    assert!(judge_reply(Expected::Error(ErrorCode::MatchNotFound), &not_found));
    assert!(!judge_reply(Expected::Error(ErrorCode::MatchFull), &not_found));
    assert!(!judge_reply(Expected::Pong, &not_found));
    assert!(judge_reply(Expected::Pong, &ServerMessage::Pong));
    let failed = ServerMessage::AuthenticationFailed {
        reason: AuthFailureReason::InvalidCredentials,
        message: String::from("bad"),
    };
    assert!(judge_reply(
        Expected::AuthFailed(AuthFailureReason::InvalidCredentials),
        &failed
    ));
    assert!(!judge_reply(
        Expected::AuthFailed(AuthFailureReason::AlreadyLoggedIn),
        &failed
    ));
}

#[test]
fn glyphs_and_outcomes_are_exact() {
    assert_eq!(cell_glyph(Cell::Empty), " ");
    assert_eq!(cell_glyph(Cell::Occupied(Player::O)), "O");
    assert_eq!(
        outcome_text(GameStatus::Won(Player::X), Some("Alice")),
        "The player Alice won"
    );
    assert_eq!(outcome_text(GameStatus::Won(Player::O), None), "The player O won");
    assert_eq!(outcome_text(GameStatus::Draw, None), "The game ended in a draw");
}

#[test]
fn lobby_entries_are_numbered_from_one() {
    let open = MatchSummary {
        id: MatchId::new(4),
        host: String::from("bob"),
        spectator_count: 0,
        is_full: false,
    };
    assert_eq!(lobby_entry_text(0, &open), "[1] match-4 (host: bob)");
    let busy = MatchSummary {
        id: MatchId::new(12),
        host: String::from("carol"),
        spectator_count: 2,
        is_full: true,
    };
    assert_eq!(
        lobby_entry_text(8, &busy),
        "[9] match-12 (host: carol, 2 watching, in progress)"
    );
}

#[test]
fn transport_errors_and_settings_are_kept() {
    assert_eq!(
        TransportError::WebSocket(String::from("reset")).to_string(),
        "websocket error: reset"
    );
    assert_eq!(TransportError::Disconnected.to_string(), "transport is not connected");
    let transport = WsTransport::new(String::from("wss://example.com/ws"), true);
    assert_eq!(transport.url(), "wss://example.com/ws");
    assert!(transport.insecure());
}

#[test]
fn auth_mode_titles_and_toggle() {
    assert_eq!(AuthMode::Login.title(), "Login");
    assert_eq!(AuthMode::Register.title(), "Register");
    assert_eq!(AuthMode::Login.toggled(), AuthMode::Register);
    assert_eq!(AuthMode::Register.toggled().toggled(), AuthMode::Register);
    assert_eq!(
        AuthForm::visible_fields(AuthMode::Register),
        vec![AuthField::Name, AuthField::Username, AuthField::Age, AuthField::Password]
    );
    assert_eq!(
        AuthForm::visible_fields(AuthMode::Login),
        vec![AuthField::Username, AuthField::Password]
    );
}

#[test]
fn guest_name_falls_back_to_guest() {
    assert_eq!(guest_name_or_default(String::new()), "guest");
    assert_eq!(guest_name_or_default(String::from("dora")), "dora");
}

#[test]
fn saved_configuration_prefills_the_connection_form() {
    let config = ClientConfig {
        server_url: Some(String::from("wss://example.com:9000/ws")),
        guest_name: Some(String::from("dora")),
        use_tls: Some(true),
    };
    let form = ConnectionForm::new(&config);
    assert_eq!(form.host, "example.com:9000/ws");
    assert_eq!(form.guest_name, "dora");
    assert!(form.use_tls);
}

#[test]
fn command_line_server_is_validated() {
    let ok = ArgsConfig::from_cli(ClientCli {
        server: Some(String::from("ws://localhost:8080/ws")),
        name: Some(String::from("alice")),
        insecure: true,
    })
    .unwrap();
    assert_eq!(ok.server_url.as_deref(), Some("ws://localhost:8080/ws"));
    assert_eq!(ok.display_name.as_deref(), Some("alice"));
    assert!(ok.insecure);
    let bad = ArgsConfig::from_cli(ClientCli {
        server: Some(String::from("http://localhost")),
        name: None,
        insecure: false,
    })
    .unwrap_err();
    assert_eq!(bad, "unsupported URL scheme `http`; expected `ws` or `wss`");
    let none = ArgsConfig::from_cli(ClientCli {
        server: None,
        name: None,
        insecure: false,
    })
    .unwrap();
    assert_eq!(none.server_url, None);
}

#[test]
fn pending_action_survives_a_new_form() {
    let form = AuthForm::new(AuthMode::Login, Some(PendingAction::JoinMatch(MatchId::new(5))));
    assert_eq!(form.pending_action, Some(PendingAction::JoinMatch(MatchId::new(5))));
    assert_eq!(form.focused, AuthField::Username);
}

#[test]
fn server_url_verdicts_are_exact() {
    assert_eq!(
        judge_server_url("x", Err(String::from("relative URL without a base"))).unwrap_err(),
        "invalid server URL `x`: relative URL without a base"
    );
    assert_eq!(
        validate_server_url("not a url").unwrap_err(),
        "invalid server URL `not a url`: relative URL without a base"
    );
    assert_eq!(
        validate_server_url("https://example.com").unwrap_err(),
        "unsupported URL scheme `https`; expected `ws` or `wss`"
    );
}
