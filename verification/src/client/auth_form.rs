//! Authentication form state.

use vstd::prelude::*;

use crate::protocol::{ClientMessage, MatchId};
use crate::text::{is_digit, parse_u8, parse_u8_spec, trim, trimmed};

verus! {

/// The mode the authentication form is in.
#[derive(Debug, Clone, Copy, PartialEq, Eq, Structural)]
pub enum AuthMode {
    /// Enter username and password to authenticate an existing account.
    Login,
    /// Enter the full profile to create a new account.
    Register,
}

impl AuthMode {
    /// The other mode.
    pub open spec fn flipped(self) -> AuthMode {
        match self {
            AuthMode::Login => AuthMode::Register,
            AuthMode::Register => AuthMode::Login,
        }
    }

    /// The human-readable title of the mode.
    pub open spec fn spec_title(self) -> Seq<char> {
        match self {
            AuthMode::Login => "Login"@,
            AuthMode::Register => "Register"@,
        }
    }

    /// Returns the human-readable title for the mode.
    pub fn title(self) -> (r: &'static str)
        ensures
            r@ == self.spec_title(),
    {
        match self {
            AuthMode::Login => "Login",
            AuthMode::Register => "Register",
        }
    }

    /// Toggles between login and register.
    pub fn toggled(self) -> (r: AuthMode)
        ensures
            r == self.flipped(),
    {
        match self {
            AuthMode::Login => AuthMode::Register,
            AuthMode::Register => AuthMode::Login,
        }
    }
}

/// The fields of the authentication form.
#[derive(Debug, Clone, Copy, PartialEq, Eq, Structural)]
pub enum AuthField {
    /// Full name. Visible only in register mode.
    Name,
    /// Username. Always visible.
    Username,
    /// Age. Visible only in register mode.
    Age,
    /// Password. Always visible.
    Password,
}

/// An action the user was trying to perform when authentication was
/// required. Retried after a successful login or registration.
#[derive(Debug, Clone, Copy, PartialEq, Eq, Structural)]
pub enum PendingAction {
    /// The user pressed `c` in the lobby.
    CreateMatch,
    /// The user tried to join a specific match.
    JoinMatch(MatchId),
}

/// The fields visible in `mode`, in focus order.
pub open spec fn fields_of(mode: AuthMode) -> Seq<AuthField> {
    match mode {
        AuthMode::Login => seq![AuthField::Username, AuthField::Password],
        AuthMode::Register => seq![
            AuthField::Name,
            AuthField::Username,
            AuthField::Age,
            AuthField::Password,
        ],
    }
}

/// The field that Tab moves to: the next visible field, wrapping around. A
/// focused field that is not visible counts as the first one.
pub open spec fn next_field(mode: AuthMode, f: AuthField) -> AuthField {
    match mode {
        AuthMode::Login => match f {
            AuthField::Password => AuthField::Username,
            _ => AuthField::Password,
        },
        AuthMode::Register => match f {
            AuthField::Name => AuthField::Username,
            AuthField::Username => AuthField::Age,
            AuthField::Age => AuthField::Password,
            AuthField::Password => AuthField::Name,
        },
    }
}

/// The field that Shift-Tab moves to: the previous visible field, wrapping
/// around. A focused field that is not visible counts as the first one.
pub open spec fn previous_field(mode: AuthMode, f: AuthField) -> AuthField {
    match mode {
        AuthMode::Login => match f {
            AuthField::Password => AuthField::Username,
            _ => AuthField::Password,
        },
        AuthMode::Register => match f {
            AuthField::Name => AuthField::Password,
            AuthField::Username => AuthField::Name,
            AuthField::Age => AuthField::Username,
            AuthField::Password => AuthField::Age,
        },
    }
}

/// The state of the authentication form.
#[derive(Debug, PartialEq, Eq)]
pub struct AuthForm {
    /// Login or register.
    pub mode: AuthMode,
    /// Full name (register only).
    pub name: String,
    /// Username (both modes).
    pub username: String,
    /// Age as typed (register only). Parsed to `u8` on submit.
    pub age: String,
    /// Password (both modes).
    pub password: String,
    /// The field that currently has focus.
    pub focused: AuthField,
    /// Whether the password is rendered in plain text.
    pub reveal_password: bool,
    /// The last error reported, if any.
    pub error: Option<String>,
    /// The action to retry after a successful authentication.
    pub pending_action: Option<PendingAction>,
}

impl Clone for AuthForm {
    fn clone(&self) -> (r: AuthForm)
        ensures
            r == *self,
    {
        AuthForm {
            mode: self.mode,
            name: self.name.clone(),
            username: self.username.clone(),
            age: self.age.clone(),
            password: self.password.clone(),
            focused: self.focused,
            reveal_password: self.reveal_password,
            error: match &self.error {
                Some(e) => Some(e.clone()),
                None => None,
            },
            pending_action: self.pending_action,
        }
    }
}

/// Whether `g` is `f` with `c` typed into the focused field. The age field
/// takes ASCII digits only, and only while it holds fewer than three bytes.
pub open spec fn typed(f: AuthForm, c: char, g: AuthForm) -> bool {
    match f.focused {
        AuthField::Name => g == AuthForm { name: g.name, ..f } && g.name@ == f.name@.push(c),
        AuthField::Username => g == AuthForm { username: g.username, ..f } && g.username@
            == f.username@.push(c),
        AuthField::Age => if is_digit(c) && (vstd::utf8::encode_utf8(f.age@).len() as usize) < 3 {
            g == AuthForm { age: g.age, ..f } && g.age@ == f.age@.push(c)
        } else {
            g == f
        },
        AuthField::Password => g == AuthForm { password: g.password, ..f } && g.password@
            == f.password@.push(c),
    }
}

/// `s` without its last character, if it has one.
pub open spec fn chopped(s: Seq<char>) -> Seq<char> {
    if s.len() > 0 {
        s.drop_last()
    } else {
        s
    }
}

/// Whether `g` is `f` with the last character of the focused field removed.
pub open spec fn erased(f: AuthForm, g: AuthForm) -> bool {
    match f.focused {
        AuthField::Name => g == AuthForm { name: g.name, ..f } && g.name@ == chopped(f.name@),
        AuthField::Username => g == AuthForm { username: g.username, ..f } && g.username@
            == chopped(f.username@),
        AuthField::Age => g == AuthForm { age: g.age, ..f } && g.age@ == chopped(f.age@),
        AuthField::Password => g == AuthForm { password: g.password, ..f } && g.password@
            == chopped(f.password@),
    }
}

/// `f` after toggling the mode: the error is cleared, and focus moves to
/// the first visible field if the focused one is not visible any more.
pub open spec fn mode_toggled(f: AuthForm) -> AuthForm {
    let mode = f.mode.flipped();
    AuthForm {
        mode,
        error: None,
        focused: if fields_of(mode).contains(f.focused) {
            f.focused
        } else {
            fields_of(mode)[0]
        },
        ..f
    }
}

/// Whether `s` is empty once white space is trimmed.
pub open spec fn blank(s: Seq<char>) -> bool {
    trim(s).len() == 0
}

/// What submitting `f` yields: the message to send, or the reason the form
/// is incomplete. Checks run in the order of the fields on screen.
pub open spec fn submission(f: AuthForm) -> Result<ClientMessage, Seq<char>> {
    match f.mode {
        AuthMode::Login => if blank(f.username@) {
            Err("username is required"@)
        } else if f.password@.len() == 0 {
            Err("password is required"@)
        } else {
            Ok(ClientMessage::Login { username: f.username, password: f.password })
        },
        AuthMode::Register => if blank(f.name@) {
            Err("name is required"@)
        } else if blank(f.username@) {
            Err("username is required"@)
        } else if f.age@.len() == 0 {
            Err("age is required"@)
        } else if parse_u8_spec(f.age@) is None {
            Err("age must be a number"@)
        } else if f.password@.len() == 0 {
            Err("password is required"@)
        } else {
            Ok(
                ClientMessage::Register {
                    name: f.name,
                    username: f.username,
                    age: parse_u8_spec(f.age@).unwrap(),
                    password: f.password,
                },
            )
        },
    }
}

fn is_blank(s: &String) -> (r: bool)
    ensures
        r == blank(s@),
{
    let t = trimmed(s.as_str());
    t.as_str().unicode_len() == 0
}

impl AuthForm {
    /// Creates a new empty form, focused on the first visible field.
    pub fn new(mode: AuthMode, pending_action: Option<PendingAction>) -> (r: AuthForm)
        ensures
            r.mode == mode,
            r.name@.len() == 0,
            r.username@.len() == 0,
            r.age@.len() == 0,
            r.password@.len() == 0,
            r.focused == fields_of(mode)[0],
            !r.reveal_password,
            r.error is None,
            r.pending_action == pending_action,
    {
        let fields = Self::visible_fields(mode);
        AuthForm {
            mode,
            name: String::new(),
            username: String::new(),
            age: String::new(),
            password: String::new(),
            focused: fields[0],
            reveal_password: false,
            error: None,
            pending_action,
        }
    }

    /// Returns the fields visible in the given mode, in focus order.
    pub fn visible_fields(mode: AuthMode) -> (r: Vec<AuthField>)
        ensures
            r@ == fields_of(mode),
    {
        match mode {
            AuthMode::Login => vec![AuthField::Username, AuthField::Password],
            AuthMode::Register => vec![
                AuthField::Name,
                AuthField::Username,
                AuthField::Age,
                AuthField::Password,
            ],
        }
    }

    /// Appends a character to the focused field. The age field accepts only
    /// ASCII digits and is capped at three characters.
    pub fn push_char(&mut self, character: char)
        ensures
            typed(*old(self), character, *final(self)),
    {
        match self.focused {
            AuthField::Name => {
                self.name.push(character);
            },
            AuthField::Username => {
                self.username.push(character);
            },
            AuthField::Age => {
                if '0' <= character && character <= '9' && self.age.as_str().len() < 3 {
                    self.age.push(character);
                }
            },
            AuthField::Password => {
                self.password.push(character);
            },
        }
    }

    /// Removes the last character from the focused field.
    pub fn pop_char(&mut self)
        ensures
            erased(*old(self), *final(self)),
    {
        match self.focused {
            AuthField::Name => {
                self.name.pop();
            },
            AuthField::Username => {
                self.username.pop();
            },
            AuthField::Age => {
                self.age.pop();
            },
            AuthField::Password => {
                self.password.pop();
            },
        }
    }

    /// Moves focus to the next visible field, wrapping around.
    pub fn focus_next(&mut self)
        ensures
            *final(self) == (AuthForm {
                focused: next_field(old(self).mode, old(self).focused),
                ..*old(self)
            }),
    {
        let fields = Self::visible_fields(self.mode);
        let index = position_of(&fields, self.focused);
        proof {
            lemma_fields_positions(self.mode, self.focused, index as int);
        }
        self.focused = fields[(index + 1) % fields.len()];
    }

    /// Moves focus to the previous visible field, wrapping around.
    pub fn focus_previous(&mut self)
        ensures
            *final(self) == (AuthForm {
                focused: previous_field(old(self).mode, old(self).focused),
                ..*old(self)
            }),
    {
        let fields = Self::visible_fields(self.mode);
        let index = position_of(&fields, self.focused);
        proof {
            lemma_fields_positions(self.mode, self.focused, index as int);
        }
        let next = if index == 0 {
            fields.len() - 1
        } else {
            index - 1
        };
        self.focused = fields[next];
    }

    /// Toggles between login and register, clearing the error and moving
    /// focus to the first visible field if the focused one is hidden.
    pub fn toggle_mode(&mut self)
        ensures
            *final(self) == mode_toggled(*old(self)),
    {
        self.mode = self.mode.toggled();
        self.error = None;
        let fields = Self::visible_fields(self.mode);
        if !contains_field(&fields, self.focused) {
            self.focused = fields[0];
        }
    }

    /// Toggles password visibility.
    pub fn toggle_reveal_password(&mut self)
        ensures
            *final(self) == (AuthForm {
                reveal_password: !old(self).reveal_password,
                ..*old(self)
            }),
    {
        self.reveal_password = !self.reveal_password;
    }

    /// Builds the protocol message for the current form contents, or the
    /// reason the form is incomplete.
    pub fn build_message(&self) -> (r: Result<ClientMessage, &'static str>)
        ensures
            match submission(*self) {
                Ok(m) => r == Ok::<ClientMessage, &'static str>(m),
                Err(reason) => r matches Err(e) && e@ == reason,
            },
    {
        match self.mode {
            AuthMode::Login => {
                if is_blank(&self.username) {
                    return Err("username is required");
                }
                if self.password.as_str().unicode_len() == 0 {
                    return Err("password is required");
                }
                Ok(
                    ClientMessage::Login {
                        username: self.username.clone(),
                        password: self.password.clone(),
                    },
                )
            },
            AuthMode::Register => {
                if is_blank(&self.name) {
                    return Err("name is required");
                }
                if is_blank(&self.username) {
                    return Err("username is required");
                }
                if self.age.as_str().unicode_len() == 0 {
                    return Err("age is required");
                }
                let age = match parse_u8(self.age.as_str()) {
                    Some(age) => age,
                    None => {
                        return Err("age must be a number");
                    },
                };
                if self.password.as_str().unicode_len() == 0 {
                    return Err("password is required");
                }
                Ok(
                    ClientMessage::Register {
                        name: self.name.clone(),
                        username: self.username.clone(),
                        age,
                        password: self.password.clone(),
                    },
                )
            },
        }
    }
}

proof fn lemma_fields_positions(mode: AuthMode, f: AuthField, index: int)
    requires
        0 <= index < fields_of(mode).len(),
        fields_of(mode).contains(f) ==> fields_of(mode)[index] == f,
        !fields_of(mode).contains(f) ==> index == 0,
    ensures
        fields_of(mode)[(index + 1) % (fields_of(mode).len() as int)] == next_field(mode, f),
        fields_of(mode)[if index == 0 {
            fields_of(mode).len() - 1
        } else {
            index - 1
        }] == previous_field(mode, f),
{
    let fs = fields_of(mode);
    match mode {
        AuthMode::Login => {
            assert(fs.len() == 2);
            assert((index + 1) % 2 == if index == 0 { 1int } else { 0int });
            if f == AuthField::Username {
                assert(fs[0] == f);
            } else if f == AuthField::Password {
                assert(fs[1] == f);
            } else {
                assert(!fs.contains(f)) by {
                    assert(forall|i: int| 0 <= i < 2 ==> fs[i] != f);
                }
            }
        },
        AuthMode::Register => {
            assert(fs.len() == 4);
            assert((index + 1) % 4 == if index == 3 { 0int } else { index + 1 });
            if f == AuthField::Name {
                assert(fs[0] == f);
            } else if f == AuthField::Username {
                assert(fs[1] == f);
            } else if f == AuthField::Age {
                assert(fs[2] == f);
            } else {
                assert(fs[3] == f);
            }
        },
    }
}

/// The index of `f` in `fields`, or `0` if it does not occur.
fn position_of(fields: &Vec<AuthField>, f: AuthField) -> (r: usize)
    requires
        fields@.len() > 0,
    ensures
        r < fields@.len(),
        fields@.contains(f) ==> fields@[r as int] == f && forall|j: int|
            0 <= j < r ==> fields@[j] != f,
        !fields@.contains(f) ==> r == 0,
{
    let mut i: usize = 0;
    while i < fields.len()
        invariant
            i <= fields@.len(),
            forall|j: int| 0 <= j < i ==> fields@[j] != f,
        decreases fields@.len() - i,
    {
        if fields[i] == f {
            return i;
        }
        i = i + 1;
    }
    0
}

fn contains_field(fields: &Vec<AuthField>, f: AuthField) -> (r: bool)
    ensures
        r == fields@.contains(f),
{
    let mut i: usize = 0;
    while i < fields.len()
        invariant
            i <= fields@.len(),
            forall|j: int| 0 <= j < i ==> fields@[j] != f,
        decreases fields@.len() - i,
    {
        if fields[i] == f {
            return true;
        }
        i = i + 1;
    }
    false
}

/// Shift-Tab undoes Tab: moving focus forward and then back returns to the
/// field that had focus, whenever that field is visible.
pub proof fn lemma_previous_undoes_next(mode: AuthMode, f: AuthField)
    requires
        fields_of(mode).contains(f),
    ensures
        previous_field(mode, next_field(mode, f)) == f,
        next_field(mode, previous_field(mode, f)) == f,
{
    if mode == AuthMode::Login {
        assert(f == fields_of(mode)[0] || f == fields_of(mode)[1]);
    }
}

/// Focus never leaves the visible fields: Tab and Shift-Tab always land on
/// a field visible in the current mode.
pub proof fn lemma_focus_stays_visible(mode: AuthMode, f: AuthField)
    ensures
        fields_of(mode).contains(next_field(mode, f)),
        fields_of(mode).contains(previous_field(mode, f)),
{
    let fs = fields_of(mode);
    let n = next_field(mode, f);
    let p = previous_field(mode, f);
    match mode {
        AuthMode::Login => {
            assert(fs[0] == AuthField::Username);
            assert(fs[1] == AuthField::Password);
        },
        AuthMode::Register => {
            assert(fs[0] == AuthField::Name);
            assert(fs[1] == AuthField::Username);
            assert(fs[2] == AuthField::Age);
            assert(fs[3] == AuthField::Password);
        },
    }
}

/// Toggling the mode twice gives the original mode back; the focused field
/// is always visible after a toggle.
pub proof fn lemma_toggle_mode_twice(f: AuthForm)
    ensures
        mode_toggled(mode_toggled(f)).mode == f.mode,
        fields_of(mode_toggled(f).mode).contains(mode_toggled(f).focused),
{
    let m = f.mode.flipped();
    assert(fields_of(m).contains(fields_of(m)[0]));
}

/// What submitting the auth form requires: a message is built exactly when
/// the username is not blank, the password is not empty and, to register,
/// the name is not blank and the age reads as a number that fits a byte.
/// The message carries the form's username and password unchanged, and a
/// form complete but for its password is refused for that.
pub proof fn lemma_submission_rules(f: AuthForm)
    ensures
        submission(f) is Ok <==> {
            &&& trim(f.username@).len() > 0
            &&& f.password@.len() > 0
            &&& f.mode == AuthMode::Register ==> trim(f.name@).len() > 0 && parse_u8_spec(
                f.age@,
            ) is Some
        },
        submission(f) matches Ok(m) ==> {
            ||| f.mode == AuthMode::Login && (m matches ClientMessage::Login { username, password }
                && username == f.username && password == f.password)
            ||| f.mode == AuthMode::Register && (m matches ClientMessage::Register {
                name,
                username,
                age,
                password,
            } && name == f.name && username == f.username && password == f.password && Some(age)
                == parse_u8_spec(f.age@))
        },
        f.password@.len() == 0 && trim(f.username@).len() > 0 && (f.mode == AuthMode::Register
            ==> trim(f.name@).len() > 0 && parse_u8_spec(f.age@) is Some) ==> submission(f)
            == Err::<ClientMessage, Seq<char>>("password is required"@),
{
}

} // verus!
