//! Keyboard input: which event a key press stands for on each screen.

use vstd::prelude::*;

use super::screen::Screen;
use super::state::AppEvent;

verus! {

/// A key press, as the terminal reports it.
#[derive(Debug, Clone, Copy, PartialEq, Eq, Structural)]
pub enum Key {
    /// A printable character.
    Char(char),
    /// The Escape key.
    Esc,
    /// The Enter key.
    Enter,
    /// The Tab key.
    Tab,
    /// Shift-Tab.
    BackTab,
    /// The Backspace key.
    Backspace,
    /// A function key, by number.
    F(u8),
    /// Any other key.
    Other,
}

/// A high-level action produced by a key press.
#[derive(Debug, Clone)]
pub enum KeyAction {
    /// Forward the given event to the state machine.
    Event(AppEvent),
    /// Ignore the key press.
    Ignored,
}

/// The event a key stands for on the auth screen: editing keys drive the
/// form, F2 switches mode, F3 reveals the password, Esc cancels.
pub open spec fn auth_key(key: Key) -> KeyAction {
    match key {
        Key::Esc => KeyAction::Event(AppEvent::AuthCancel),
        Key::Enter => KeyAction::Event(AppEvent::AuthSubmit),
        Key::Tab => KeyAction::Event(AppEvent::AuthNextField),
        Key::BackTab => KeyAction::Event(AppEvent::AuthPreviousField),
        Key::Backspace => KeyAction::Event(AppEvent::AuthBackspace),
        Key::F(n) => if n == 2 {
            KeyAction::Event(AppEvent::AuthToggleMode)
        } else if n == 3 {
            KeyAction::Event(AppEvent::AuthToggleReveal)
        } else {
            KeyAction::Ignored
        },
        Key::Char(c) => KeyAction::Event(AppEvent::AuthInput(c)),
        Key::Other => KeyAction::Ignored,
    }
}

/// The event a key stands for on the connection screen: editing keys drive
/// the form, F3 toggles TLS, Enter submits, Esc quits.
pub open spec fn connection_key(key: Key) -> KeyAction {
    match key {
        Key::Esc => KeyAction::Event(AppEvent::Cancel),
        Key::Enter => KeyAction::Event(AppEvent::Submit),
        Key::Tab => KeyAction::Event(AppEvent::Tab),
        Key::BackTab => KeyAction::Event(AppEvent::ShiftTab),
        Key::Backspace => KeyAction::Event(AppEvent::PopChar),
        Key::F(n) => if n == 3 {
            KeyAction::Event(AppEvent::ToggleTls)
        } else {
            KeyAction::Ignored
        },
        Key::Char(c) => KeyAction::Event(AppEvent::Input(c)),
        Key::Other => KeyAction::Ignored,
    }
}

/// The event a key stands for while spectating: Esc leaves, `q` quits.
pub open spec fn spectating_key(key: Key) -> KeyAction {
    match key {
        Key::Esc => KeyAction::Event(AppEvent::LeaveSpectate),
        Key::Char(c) => if c == 'q' {
            KeyAction::Event(AppEvent::Quit)
        } else {
            KeyAction::Ignored
        },
        _ => KeyAction::Ignored,
    }
}

/// The value of a digit key `1` to `9`.
pub open spec fn digit_value(c: char) -> u8 {
    ((c as u32) - ('0' as u32)) as u8
}

/// The event a key stands for on the other screens. `q` quits; Esc goes
/// back to the lobby from the ranking and the result, leaves spectator
/// mode in the lobby, and quits elsewhere; `r` refreshes, `c` creates,
/// `l` leaves; `t` and `s` open the ranking and toggle spectator mode in
/// the lobby; digits `1` to `9` join (or, in spectator mode, watch) the
/// numbered match in the lobby and play the numbered cell in a game.
pub open spec fn default_key(key: Key, screen: Screen) -> KeyAction {
    match key {
        Key::Esc => match screen {
            Screen::Ranking { .. } | Screen::Finished { .. } => KeyAction::Event(
                AppEvent::BackToLobby,
            ),
            Screen::Lobby { spectator_mode, .. } => if spectator_mode {
                KeyAction::Event(AppEvent::ToggleSpectatorMode)
            } else {
                KeyAction::Event(AppEvent::Quit)
            },
            _ => KeyAction::Event(AppEvent::Quit),
        },
        Key::Char(c) => if c == 'q' {
            KeyAction::Event(AppEvent::Quit)
        } else if c == 'r' {
            KeyAction::Event(AppEvent::RefreshLobby)
        } else if c == 't' {
            if screen is Lobby {
                KeyAction::Event(AppEvent::ShowRanking)
            } else {
                KeyAction::Ignored
            }
        } else if c == 'c' {
            KeyAction::Event(AppEvent::CreateMatch)
        } else if c == 'l' {
            KeyAction::Event(AppEvent::LeaveMatch)
        } else if c == 's' {
            if screen is Lobby {
                KeyAction::Event(AppEvent::ToggleSpectatorMode)
            } else {
                KeyAction::Ignored
            }
        } else if '1' <= c && c <= '9' {
            match screen {
                Screen::Lobby { spectator_mode, .. } => if spectator_mode {
                    KeyAction::Event(AppEvent::SpectateAt((digit_value(c) - 1) as usize))
                } else {
                    KeyAction::Event(AppEvent::JoinMatchAt((digit_value(c) - 1) as usize))
                },
                Screen::InGame(_) => KeyAction::Event(AppEvent::PlayMove(digit_value(c))),
                _ => KeyAction::Ignored,
            }
        } else {
            KeyAction::Ignored
        },
        _ => KeyAction::Ignored,
    }
}

/// The action a key stands for on `screen`.
pub open spec fn key_action(key: Key, screen: Screen) -> KeyAction {
    match screen {
        Screen::Auth(_) => auth_key(key),
        Screen::Connection => connection_key(key),
        Screen::Spectating(_) => spectating_key(key),
        _ => default_key(key, screen),
    }
}

fn translate_auth_key(key: Key) -> (r: KeyAction)
    ensures
        r == auth_key(key),
{
    match key {
        Key::Esc => KeyAction::Event(AppEvent::AuthCancel),
        Key::Enter => KeyAction::Event(AppEvent::AuthSubmit),
        Key::Tab => KeyAction::Event(AppEvent::AuthNextField),
        Key::BackTab => KeyAction::Event(AppEvent::AuthPreviousField),
        Key::Backspace => KeyAction::Event(AppEvent::AuthBackspace),
        Key::F(2) => KeyAction::Event(AppEvent::AuthToggleMode),
        Key::F(3) => KeyAction::Event(AppEvent::AuthToggleReveal),
        Key::Char(character) => KeyAction::Event(AppEvent::AuthInput(character)),
        _ => KeyAction::Ignored,
    }
}

fn translate_connection_key(key: Key) -> (r: KeyAction)
    ensures
        r == connection_key(key),
{
    match key {
        Key::Esc => KeyAction::Event(AppEvent::Cancel),
        Key::Enter => KeyAction::Event(AppEvent::Submit),
        Key::Tab => KeyAction::Event(AppEvent::Tab),
        Key::BackTab => KeyAction::Event(AppEvent::ShiftTab),
        Key::Backspace => KeyAction::Event(AppEvent::PopChar),
        Key::F(3) => KeyAction::Event(AppEvent::ToggleTls),
        Key::Char(character) => KeyAction::Event(AppEvent::Input(character)),
        _ => KeyAction::Ignored,
    }
}

fn translate_spectating_key(key: Key) -> (r: KeyAction)
    ensures
        r == spectating_key(key),
{
    match key {
        Key::Esc => KeyAction::Event(AppEvent::LeaveSpectate),
        Key::Char('q') => KeyAction::Event(AppEvent::Quit),
        _ => KeyAction::Ignored,
    }
}

fn translate_default_key(key: Key, screen: &Screen) -> (r: KeyAction)
    ensures
        r == default_key(key, *screen),
{
    match key {
        Key::Char('q') => KeyAction::Event(AppEvent::Quit),
        Key::Esc => match screen {
            Screen::Ranking { .. } | Screen::Finished { .. } => KeyAction::Event(
                AppEvent::BackToLobby,
            ),
            Screen::Lobby { spectator_mode: true, .. } => KeyAction::Event(
                AppEvent::ToggleSpectatorMode,
            ),
            _ => KeyAction::Event(AppEvent::Quit),
        },
        Key::Char('r') => KeyAction::Event(AppEvent::RefreshLobby),
        Key::Char('t') => match screen {
            Screen::Lobby { .. } => KeyAction::Event(AppEvent::ShowRanking),
            _ => KeyAction::Ignored,
        },
        Key::Char('c') => KeyAction::Event(AppEvent::CreateMatch),
        Key::Char('l') => KeyAction::Event(AppEvent::LeaveMatch),
        Key::Char('s') => match screen {
            Screen::Lobby { .. } => KeyAction::Event(AppEvent::ToggleSpectatorMode),
            _ => KeyAction::Ignored,
        },
        Key::Char(digit) => {
            if '1' <= digit && digit <= '9' {
                let value = ((digit as u32) - ('0' as u32)) as u8;
                match screen {
                    Screen::Lobby { spectator_mode: true, .. } => KeyAction::Event(
                        AppEvent::SpectateAt((value - 1) as usize),
                    ),
                    Screen::Lobby { .. } => KeyAction::Event(
                        AppEvent::JoinMatchAt((value - 1) as usize),
                    ),
                    Screen::InGame(_) => KeyAction::Event(AppEvent::PlayMove(value)),
                    _ => KeyAction::Ignored,
                }
            } else {
                KeyAction::Ignored
            }
        },
        _ => KeyAction::Ignored,
    }
}

/// Translates a key press into a [`KeyAction`] for the given screen.
pub fn translate_key(key: Key, screen: &Screen) -> (r: KeyAction)
    ensures
        r == key_action(key, *screen),
{
    match screen {
        Screen::Auth(_) => translate_auth_key(key),
        Screen::Connection => translate_connection_key(key),
        Screen::Spectating(_) => translate_spectating_key(key),
        _ => translate_default_key(key, screen),
    }
}

} // verus!
