//! Auth-screen events.

use vstd::prelude::*;

use super::{empty_lobby, empty_lobby_screen, emitted, extends, lemma_appended, SideEffect};
use crate::client::auth_form::{
    erased, mode_toggled, next_field, previous_field, submission, typed, AuthForm,
};
use crate::client::screen::Screen;
use crate::client::state::{AppEvent, AppState};
use crate::protocol::ClientMessage;
use crate::text::text;

verus! {

/// Whether `e` is one of the auth-screen events.
pub open spec fn is_auth_event(e: AppEvent) -> bool {
    match e {
        AppEvent::AuthInput(_) | AppEvent::AuthBackspace | AppEvent::AuthNextField
        | AppEvent::AuthPreviousField | AppEvent::AuthSubmit | AppEvent::AuthToggleMode
        | AppEvent::AuthToggleReveal | AppEvent::AuthCancel => true,
        _ => false,
    }
}

/// Whether `t` is `s` with the auth form replaced by `g`.
pub open spec fn form_now(s: AppState, t: AppState, g: AuthForm) -> bool {
    t == AppState { screen: Screen::Auth(Box::new(g)), ..s }
}

/// What an auth-screen event does. Edits apply to the form on the auth
/// screen and are ignored on any other screen; submitting sends the
/// message the form builds, or shows why it cannot; cancelling returns to
/// the lobby and asks for the match list.
pub open spec fn auth_step(s: AppState, e: AppEvent, t: AppState, out: Seq<SideEffect>) -> bool {
    match e {
        AppEvent::AuthCancel => {
            &&& t == AppState { screen: t.screen, status: t.status, ..s }
            &&& empty_lobby(t.screen, false)
            &&& t.status@ == "returned to lobby"@
            &&& out == seq![SideEffect::Send(ClientMessage::ListMatches)]
        },
        _ => match s.screen {
            Screen::Auth(f) => match e {
                AppEvent::AuthInput(c) => {
                    &&& out.len() == 0
                    &&& t == AppState { screen: t.screen, ..s }
                    &&& t.screen matches Screen::Auth(g) && typed(*f, c, *g)
                },
                AppEvent::AuthBackspace => {
                    &&& out.len() == 0
                    &&& t == AppState { screen: t.screen, ..s }
                    &&& t.screen matches Screen::Auth(g) && erased(*f, *g)
                },
                AppEvent::AuthNextField => out.len() == 0 && form_now(
                    s,
                    t,
                    AuthForm { focused: next_field(f.mode, f.focused), ..*f },
                ),
                AppEvent::AuthPreviousField => out.len() == 0 && form_now(
                    s,
                    t,
                    AuthForm { focused: previous_field(f.mode, f.focused), ..*f },
                ),
                AppEvent::AuthToggleMode => out.len() == 0 && form_now(s, t, mode_toggled(*f)),
                AppEvent::AuthToggleReveal => out.len() == 0 && form_now(
                    s,
                    t,
                    AuthForm { reveal_password: !f.reveal_password, ..*f },
                ),
                AppEvent::AuthSubmit => match submission(*f) {
                    Ok(m) => {
                        &&& out == seq![SideEffect::Send(m)]
                        &&& form_now(s, t, AuthForm { error: None, ..*f })
                    },
                    Err(reason) => {
                        &&& out.len() == 0
                        &&& t == AppState { screen: t.screen, ..s }
                        &&& t.screen matches Screen::Auth(g) && (*g == AuthForm {
                            error: g.error,
                            ..*f
                        } && (g.error matches Some(msg) && msg@ == reason))
                    },
                },
                _ => false,
            },
            _ => t == s && out.len() == 0,
        },
    }
}

/// The auth-screen edits that only change the form, applied to `form`.
fn edit_form(form: &mut AuthForm, event: &AppEvent)
    requires
        match *event {
            AppEvent::AuthInput(_) | AppEvent::AuthBackspace | AppEvent::AuthNextField
            | AppEvent::AuthPreviousField | AppEvent::AuthToggleMode
            | AppEvent::AuthToggleReveal => true,
            _ => false,
        },
    ensures
        match *event {
            AppEvent::AuthInput(c) => typed(*old(form), c, *final(form)),
            AppEvent::AuthBackspace => erased(*old(form), *final(form)),
            AppEvent::AuthNextField => *final(form) == AuthForm {
                focused: next_field(old(form).mode, old(form).focused),
                ..*old(form)
            },
            AppEvent::AuthPreviousField => *final(form) == AuthForm {
                focused: previous_field(old(form).mode, old(form).focused),
                ..*old(form)
            },
            AppEvent::AuthToggleMode => *final(form) == mode_toggled(*old(form)),
            AppEvent::AuthToggleReveal => *final(form) == AuthForm {
                reveal_password: !old(form).reveal_password,
                ..*old(form)
            },
            _ => false,
        },
{
    match event {
        AppEvent::AuthInput(character) => form.push_char(*character),
        AppEvent::AuthBackspace => form.pop_char(),
        AppEvent::AuthNextField => form.focus_next(),
        AppEvent::AuthPreviousField => form.focus_previous(),
        AppEvent::AuthToggleMode => form.toggle_mode(),
        _ => form.toggle_reveal_password(),
    }
}

fn submit_form(state: &mut AppState, effects: &mut Vec<SideEffect>)
    ensures
        extends(old(effects)@, final(effects)@),
        auth_step(
            *old(state),
            AppEvent::AuthSubmit,
            *final(state),
            emitted(old(effects)@, final(effects)@),
        ),
{
    let ghost start = effects@;
    if let Screen::Auth(form) = &mut state.screen {
        match form.build_message() {
            Ok(message) => {
                form.error = None;
                let ghost m = message;
                effects.push(SideEffect::Send(message));
                proof {
                    lemma_appended(start, seq![SideEffect::Send(m)]);
                    assert(effects@ =~= start + seq![SideEffect::Send(m)]);
                }
            },
            Err(reason) => {
                form.error = Some(String::from_str(reason));
                proof {
                    lemma_appended(start, Seq::empty());
                    assert(start + Seq::empty() =~= start);
                }
            },
        }
    } else {
        proof {
            lemma_appended(start, Seq::empty());
            assert(start + Seq::empty() =~= start);
        }
    }
}

fn cancel_auth(state: &mut AppState, effects: &mut Vec<SideEffect>)
    ensures
        extends(old(effects)@, final(effects)@),
        auth_step(
            *old(state),
            AppEvent::AuthCancel,
            *final(state),
            emitted(old(effects)@, final(effects)@),
        ),
{
    let ghost start = effects@;
    state.screen = empty_lobby_screen();
    state.status = text("returned to lobby");
    effects.push(SideEffect::Send(ClientMessage::ListMatches));
    proof {
        lemma_appended(start, seq![SideEffect::Send(ClientMessage::ListMatches)]);
        assert(effects@ =~= start + seq![SideEffect::Send(ClientMessage::ListMatches)]);
    }
}

/// Applies the auth-screen events. Returns `true` if the event was one and
/// was handled here.
pub fn apply_auth_event(state: &mut AppState, event: &AppEvent, effects: &mut Vec<SideEffect>) -> (r: bool)
    ensures
        r == is_auth_event(*event),
        r ==> extends(old(effects)@, final(effects)@) && auth_step(
            *old(state),
            *event,
            *final(state),
            emitted(old(effects)@, final(effects)@),
        ),
        !r ==> *final(state) == *old(state) && final(effects)@ == old(effects)@,
{
    let ghost start = effects@;
    match event {
        AppEvent::AuthSubmit => {
            submit_form(state, effects);
            true
        },
        AppEvent::AuthCancel => {
            cancel_auth(state, effects);
            true
        },
        AppEvent::AuthInput(_) | AppEvent::AuthBackspace | AppEvent::AuthNextField
        | AppEvent::AuthPreviousField | AppEvent::AuthToggleMode | AppEvent::AuthToggleReveal => {
            if let Screen::Auth(form) = &mut state.screen {
                edit_form(&mut **form, event);
            }
            proof {
                lemma_appended(start, Seq::empty());
                assert(start + Seq::empty() =~= start);
            }
            true
        },
        _ => false,
    }
}

} // verus!
