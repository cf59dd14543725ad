//! The text the terminal UI shows for boards, results and lobby entries.

use vstd::prelude::*;

use super::auth_form::{AuthField, AuthForm, AuthMode};
use crate::domain::{Cell, GameStatus, Player};
use crate::protocol::MatchSummary;
use crate::text::{decimal, push_decimal, text};

verus! {

/// The glyph of a cell: blank when empty, the mark otherwise.
pub open spec fn glyph(cell: Cell) -> Seq<char> {
    match cell {
        Cell::Empty => " "@,
        Cell::Occupied(p) => p.spec_name(),
    }
}

/// Returns the glyph drawn for a cell.
pub fn cell_glyph(cell: Cell) -> (r: &'static str)
    ensures
        r@ == glyph(cell),
{
    match cell {
        Cell::Empty => " ",
        Cell::Occupied(Player::X) => "X",
        Cell::Occupied(Player::O) => "O",
    }
}

/// The headline of the result screen: the winner by name (by mark when the
/// name is unknown), a draw, or a game still in progress.
pub open spec fn outcome_of(status: GameStatus, winner_name: Option<Seq<char>>) -> Seq<char> {
    match status {
        GameStatus::Won(p) => "The player "@ + match winner_name {
            Some(n) => n,
            None => p.spec_name(),
        } + " won"@,
        GameStatus::Draw => "The game ended in a draw"@,
        GameStatus::InProgress => "in progress"@,
    }
}

/// Returns the headline of the result screen.
pub fn outcome_text(status: GameStatus, winner_name: Option<&str>) -> (r: String)
    ensures
        r@ == outcome_of(
            status,
            match winner_name {
                Some(n) => Some(n@),
                None => None,
            },
        ),
{
    match status {
        GameStatus::Won(player) => {
            let mut s = text("The player ");
            match winner_name {
                Some(n) => s.append(n),
                None => s.append(player.name()),
            }
            s.append(" won");
            s
        },
        GameStatus::Draw => text("The game ended in a draw"),
        GameStatus::InProgress => text("in progress"),
    }
}

/// The line of the lobby list for the match at `index`: its 1-based
/// number, its identifier and host, how many watch it when anyone does,
/// and whether it is already being played.
pub open spec fn lobby_line(index: nat, summary: MatchSummary) -> Seq<char> {
    "["@ + decimal(index + 1) + "] "@ + summary.id.spec_text() + " (host: "@ + summary.host@ + (
    if summary.spectator_count > 0 {
        ", "@ + decimal(summary.spectator_count as nat) + " watching"@
    } else {
        Seq::empty()
    }) + (if summary.is_full {
        ", in progress"@
    } else {
        Seq::empty()
    }) + ")"@
}

/// Returns the line of the lobby list for the match at `index`.
pub fn lobby_entry_text(index: usize, summary: &MatchSummary) -> (r: String)
    requires
        index < usize::MAX,
    ensures
        r@ == lobby_line(index as nat, *summary),
{
    let mut s = text("[");
    push_decimal(&mut s, (index + 1) as u64);
    s.append("] ");
    s.append(summary.id.to_string().as_str());
    s.append(" (host: ");
    s.append(summary.host.as_str());
    if summary.spectator_count > 0 {
        s.append(", ");
        push_decimal(&mut s, summary.spectator_count as u64);
        s.append(" watching");
    }
    if summary.is_full {
        s.append(", in progress");
    }
    s.append(")");
    s
}

/// The password as the auth form shows it: in clear when revealed,
/// otherwise one `*` per character.
pub open spec fn shown_password(f: AuthForm) -> Seq<char> {
    if f.reveal_password {
        f.password@
    } else {
        Seq::new(f.password@.len(), |i: int| '*')
    }
}

/// The rows of the auth form: for each field the mode shows, in order, its
/// label, the text shown for it and whether it has focus.
pub open spec fn field_rows(f: AuthForm) -> Seq<(Seq<char>, Seq<char>, bool)> {
    let password = ("Password"@, shown_password(f), f.focused == AuthField::Password);
    let username = ("Username"@, f.username@, f.focused == AuthField::Username);
    match f.mode {
        AuthMode::Login => seq![username, password],
        AuthMode::Register => seq![
            ("Name"@, f.name@, f.focused == AuthField::Name),
            username,
            ("Age"@, f.age@, f.focused == AuthField::Age),
            password,
        ],
    }
}

fn masked(password: &str, reveal: bool) -> (r: String)
    ensures
        r@ == (if reveal {
            password@
        } else {
            Seq::new(password@.len(), |i: int| '*')
        }),
{
    if reveal {
        return String::from_str(password);
    }
    let n = password.unicode_len();
    let mut s = String::new();
    let mut i: usize = 0;
    while i < n
        invariant
            i <= n,
            n == password@.len(),
            s@ == Seq::new(i as nat, |k: int| '*'),
        decreases n - i,
    {
        s.push('*');
        i = i + 1;
        assert(s@ =~= Seq::new(i as nat, |k: int| '*'));
    }
    s
}

/// Returns the rows of the auth form: label, shown text and focus, for
/// each field the mode shows.
pub fn auth_field_lines(form: &AuthForm) -> (r: Vec<(&'static str, String, bool)>)
    ensures
        r@.len() == field_rows(*form).len(),
        forall|i: int|
            0 <= i < r@.len() ==> {
                &&& (#[trigger] r@[i]).0@ == field_rows(*form)[i].0
                &&& r@[i].1@ == field_rows(*form)[i].1
                &&& r@[i].2 == field_rows(*form)[i].2
            },
{
    let mut rows: Vec<(&'static str, String, bool)> = Vec::new();
    let register = match form.mode {
        AuthMode::Register => true,
        AuthMode::Login => false,
    };
    if register {
        rows.push(("Name", form.name.clone(), form.focused == AuthField::Name));
    }
    rows.push(("Username", form.username.clone(), form.focused == AuthField::Username));
    if register {
        rows.push(("Age", form.age.clone(), form.focused == AuthField::Age));
    }
    rows.push(
        (
            "Password",
            masked(form.password.as_str(), form.reveal_password),
            form.focused == AuthField::Password,
        ),
    );
    rows
}

/// The line the lobby shows when no match is listed.
pub open spec fn lobby_placeholder_text(spectator_mode: bool) -> Seq<char> {
    if spectator_mode {
        "no matches to spectate; press r to refresh"@
    } else {
        "no open matches; press c to create one"@
    }
}

/// Returns the line the lobby shows when no match is listed.
pub fn lobby_placeholder(spectator_mode: bool) -> (r: &'static str)
    ensures
        r@ == lobby_placeholder_text(spectator_mode),
{
    if spectator_mode {
        "no matches to spectate; press r to refresh"
    } else {
        "no open matches; press c to create one"
    }
}

/// The banner the lobby shows above the list: only in spectator mode.
pub open spec fn spectator_banner_text(spectator_mode: bool) -> Option<Seq<char>> {
    if spectator_mode {
        Some("Spectator mode: press 1-9 to watch a match, Esc to cancel"@)
    } else {
        None
    }
}

/// Returns the banner the lobby shows above the list, if any.
pub fn spectator_banner(spectator_mode: bool) -> (r: Option<&'static str>)
    ensures
        match spectator_banner_text(spectator_mode) {
            Some(t) => r matches Some(b) && b@ == t,
            None => r is None,
        },
{
    if spectator_mode {
        Some("Spectator mode: press 1-9 to watch a match, Esc to cancel")
    } else {
        None
    }
}

} // verus!
