//! Validated usernames.

use vstd::prelude::*;

use crate::error::DomainError;
use crate::text::{
    decimal, push_decimal, text,
    is_alnum, lower_char, trim, trim_back, trim_front, trimmed, unicode_white_space,
};

verus! {

/// The reasons a username can be rejected.
#[derive(Debug, Clone, Copy, PartialEq, Eq, Structural)]
pub enum UsernameError {
    /// The username is shorter than the minimum length.
    TooShort {
        /// The minimum accepted length, in characters.
        min: usize,
        /// The actual length.
        actual: usize,
    },
    /// The username is longer than the maximum length.
    TooLong {
        /// The maximum accepted length, in characters.
        max: usize,
        /// The actual length.
        actual: usize,
    },
    /// The username contains a character outside `[a-zA-Z0-9_]`.
    InvalidCharacter {
        /// The offending character.
        character: char,
    },
}

impl UsernameError {
    /// The human-readable text of the error.
    pub open spec fn spec_text(self) -> Seq<char> {
        match self {
            UsernameError::TooShort { min, actual } => "too short ("@ + decimal(actual as nat)
                + " characters, minimum is "@ + decimal(min as nat) + ")"@,
            UsernameError::TooLong { max, actual } => "too long ("@ + decimal(actual as nat)
                + " characters, maximum is "@ + decimal(max as nat) + ")"@,
            UsernameError::InvalidCharacter { character } => "invalid character `"@ + seq![
                character,
            ] + "`"@,
        }
    }

    /// Returns the human-readable text of the error.
    pub fn to_string(&self) -> (r: String)
        ensures
            r@ == self.spec_text(),
    {
        match self {
            UsernameError::TooShort { min, actual } => {
                let mut s = text("too short (");
                push_decimal(&mut s, *actual as u64);
                s.append(" characters, minimum is ");
                push_decimal(&mut s, *min as u64);
                s.append(")");
                s
            },
            UsernameError::TooLong { max, actual } => {
                let mut s = text("too long (");
                push_decimal(&mut s, *actual as u64);
                s.append(" characters, maximum is ");
                push_decimal(&mut s, *max as u64);
                s.append(")");
                s
            },
            UsernameError::InvalidCharacter { character } => {
                let mut s = text("invalid character `");
                s.push(*character);
                s.append("`");
                proof {
                    assert(s@ =~= "invalid character `"@ + seq![*character] + "`"@);
                }
                s
            },
        }
    }
}

/// Whether `c` may appear in a username.
pub open spec fn username_char(c: char) -> bool {
    is_alnum(c) || c == '_'
}

/// The first character of `t`, from index `k` on, that may not appear in a
/// username.
pub open spec fn first_bad_char(t: Seq<char>, k: int) -> Option<char>
    decreases t.len() - k,
{
    if k < 0 || k >= t.len() {
        None
    } else if !username_char(t[k]) {
        Some(t[k])
    } else {
        first_bad_char(t, k + 1)
    }
}

/// Why the (already trimmed) text `t` is not a username, or `None` if it is
/// one: the length is checked first, then the characters from left to
/// right.
pub open spec fn username_problem(t: Seq<char>) -> Option<UsernameError> {
    if t.len() < 5 {
        Some(UsernameError::TooShort { min: 5, actual: t.len() as usize })
    } else if t.len() > 20 {
        Some(UsernameError::TooLong { max: 20, actual: t.len() as usize })
    } else {
        match first_bad_char(t, 0) {
            Some(c) => Some(UsernameError::InvalidCharacter { character: c }),
            None => None,
        }
    }
}

/// The lookup key of a username: its ASCII lowercase form.
pub open spec fn lookup_key(t: Seq<char>) -> Seq<char> {
    t.map_values(|c: char| lower_char(c))
}

proof fn lemma_no_bad_char(t: Seq<char>, k: int)
    requires
        0 <= k,
        first_bad_char(t, k) is None,
    ensures
        forall|j: int| k <= j < t.len() ==> username_char(#[trigger] t[j]),
    decreases t.len() - k,
{
    if k < t.len() {
        lemma_no_bad_char(t, k + 1);
    }
}

/// A validated, case-insensitive username. The original casing is kept for
/// display; equality uses the lowercase key, so `Alice` and `alice` are the
/// same user.
#[derive(Debug)]
pub struct Username {
    display: String,
    key: String,
}

impl Username {
    /// The minimum accepted length, in characters.
    pub const MIN_LEN: usize = 5;

    /// The maximum accepted length, in characters.
    pub const MAX_LEN: usize = 20;

    #[verifier::type_invariant]
    spec fn well_formed(self) -> bool {
        &&& username_problem(self.display@) is None
        &&& self.key@ == lookup_key(self.display@)
    }

    /// The username with its original casing.
    pub closed spec fn shown(&self) -> Seq<char> {
        self.display@
    }

    /// The lowercase key used for equality.
    pub closed spec fn key_view(&self) -> Seq<char> {
        self.key@
    }

    /// Creates a new username. Leading and trailing white space is trimmed
    /// first; the trimmed text must have 5 to 20 characters, each an ASCII
    /// letter, digit or underscore.
    pub fn new(value: &str) -> (r: Result<Username, DomainError>)
        ensures
            username_problem(trim(value@)) is None <==> r is Ok,
            r matches Ok(u) ==> u.shown() == trim(value@) && u.key_view() == lookup_key(
                trim(value@),
            ),
            r matches Err(e) ==> (e matches DomainError::InvalidUsername { value: v, reason } && v@
                == value@ && username_problem(trim(value@)) == Some(reason)),
    {
        let display = trimmed(value);
        let length = display.as_str().unicode_len();
        if length < Self::MIN_LEN {
            return Err(
                DomainError::InvalidUsername {
                    value: String::from_str(value),
                    reason: UsernameError::TooShort { min: Self::MIN_LEN, actual: length },
                },
            );
        }
        if length > Self::MAX_LEN {
            return Err(
                DomainError::InvalidUsername {
                    value: String::from_str(value),
                    reason: UsernameError::TooLong { max: Self::MAX_LEN, actual: length },
                },
            );
        }
        let ghost t = display@;
        let mut key = String::new();
        let mut i: usize = 0;
        while i < length
            invariant
                length == t.len(),
                t == display@,
                t == trim(value@),
                5 <= length <= 20,
                i <= length,
                first_bad_char(t, 0) == first_bad_char(t, i as int),
                key@ == lookup_key(t.take(i as int)),
            decreases length - i,
        {
            let character = display.as_str().get_char(i);
            if !(('0' <= character && character <= '9') || ('a' <= character && character <= 'z')
                || ('A' <= character && character <= 'Z') || character == '_') {
                assert(first_bad_char(t, i as int) == Some(character));
                return Err(
                    DomainError::InvalidUsername {
                        value: String::from_str(value),
                        reason: UsernameError::InvalidCharacter { character },
                    },
                );
            }
            key.push(crate::text::ascii_lower(character));
            i = i + 1;
            assert(lookup_key(t.take(i as int)) =~= lookup_key(t.take(i - 1)).push(
                lower_char(character),
            ));
        }
        assert(t.take(length as int) =~= t);
        Ok(Username { display, key })
    }

    /// Returns the username with its original casing.
    pub fn as_str(&self) -> (r: &str)
        ensures
            r@ == self.shown(),
    {
        self.display.as_str()
    }

    /// Returns the lowercase lookup key used for equality and hashing.
    pub fn key(&self) -> (r: &str)
        ensures
            r@ == self.key_view(),
    {
        self.key.as_str()
    }

    /// Returns the username with its original casing, as an owned string.
    pub fn to_string(&self) -> (r: String)
        ensures
            r@ == self.shown(),
    {
        self.display.clone()
    }
}

impl Clone for Username {
    fn clone(&self) -> (r: Username)
        ensures
            r == *self,
    {
        proof {
            use_type_invariant(self);
        }
        Username { display: self.display.clone(), key: self.key.clone() }
    }
}

impl PartialEq for Username {
    fn eq(&self, other: &Self) -> (r: bool) {
        self.key == other.key
    }
}

impl vstd::std_specs::cmp::PartialEqSpecImpl for Username {
    open spec fn obeys_eq_spec() -> bool {
        true
    }

    open spec fn eq_spec(&self, other: &Self) -> bool {
        self.key_view() == other.key_view()
    }
}

impl Eq for Username {

}

proof fn lemma_trim_front_head(s: Seq<char>)
    ensures
        trim_front(s).len() > 0 ==> !unicode_white_space(trim_front(s)[0]),
    decreases s.len(),
{
    if s.len() > 0 && unicode_white_space(s[0]) {
        lemma_trim_front_head(s.drop_first());
    }
}

proof fn lemma_trim_back_prefix(s: Seq<char>)
    ensures
        trim_back(s).len() <= s.len(),
        trim_back(s) =~= s.take(trim_back(s).len() as int),
        trim_back(s).len() > 0 ==> !unicode_white_space(trim_back(s).last()),
    decreases s.len(),
{
    if s.len() > 0 && unicode_white_space(s.last()) {
        lemma_trim_back_prefix(s.drop_last());
    }
}

/// Trimming is idempotent: trimmed text has nothing left to trim.
pub proof fn lemma_trim_idempotent(s: Seq<char>)
    ensures
        trim(trim(s)) == trim(s),
{
    let f = trim_front(s);
    let b = trim_back(f);
    lemma_trim_front_head(s);
    lemma_trim_back_prefix(f);
    if b.len() > 0 {
        assert(b[0] == f[0]);
        assert(!unicode_white_space(b.last()));
    }
    assert(trim_front(b) == b);
    assert(trim_back(b) == b);
}

/// The display form of a username is itself a valid username input that
/// rebuilds the same username: `Username::new(u.as_str())` succeeds with the
/// same display text and key.
pub proof fn lemma_username_revalidates(value: Seq<char>)
    requires
        username_problem(trim(value)) is None,
    ensures
        trim(trim(value)) == trim(value),
        username_problem(trim(trim(value))) is None,
{
    lemma_trim_idempotent(value);
}

/// Two usernames that differ only in letter case have the same lookup key,
/// hence are equal.
pub proof fn lemma_case_insensitive(a: Seq<char>, b: Seq<char>)
    requires
        a.len() == b.len(),
        forall|i: int| 0 <= i < a.len() ==> lower_char(#[trigger] a[i]) == lower_char(b[i]),
    ensures
        lookup_key(a) == lookup_key(b),
{
    assert(lookup_key(a) =~= lookup_key(b));
}

proof fn lemma_all_good(t: Seq<char>, k: int)
    requires
        0 <= k,
        forall|j: int| k <= j < t.len() ==> username_char(#[trigger] t[j]),
    ensures
        first_bad_char(t, k) is None,
    decreases t.len() - k,
{
    if k < t.len() {
        lemma_all_good(t, k + 1);
    }
}

/// The username rules: trimmed text is accepted exactly when it has 5 to 20
/// characters, each an ASCII letter, an ASCII digit or `_`; a rejected
/// character is one outside that set and occurs in the text.
pub proof fn lemma_username_rules(t: Seq<char>)
    ensures
        username_problem(t) is None <==> {
            &&& 5 <= t.len() <= 20
            &&& forall|i: int|
                0 <= i < t.len() ==> {
                    ||| '0' <= #[trigger] t[i] <= '9'
                    ||| 'a' <= t[i] <= 'z'
                    ||| 'A' <= t[i] <= 'Z'
                    ||| t[i] == '_'
                }
        },
        username_problem(t) matches Some(UsernameError::InvalidCharacter { character }) ==> {
            &&& t.contains(character)
            &&& !('0' <= character <= '9' || 'a' <= character <= 'z' || 'A' <= character <= 'Z'
                || character == '_')
        },
{
    if username_problem(t) is None {
        lemma_no_bad_char(t, 0);
    }
    if 5 <= t.len() <= 20 && forall|i: int|
        0 <= i < t.len() ==> {
            ||| '0' <= #[trigger] t[i] <= '9'
            ||| 'a' <= t[i] <= 'z'
            ||| 'A' <= t[i] <= 'Z'
            ||| t[i] == '_'
        } {
        lemma_all_good(t, 0);
    }
    if first_bad_char(t, 0) is Some {
        lemma_bad_char_found(t, 0);
    }
}

proof fn lemma_bad_char_found(t: Seq<char>, k: int)
    requires
        0 <= k,
        first_bad_char(t, k) is Some,
    ensures
        exists|j: int| k <= j < t.len() && t[j] == first_bad_char(t, k).unwrap() && !username_char(t[j]),
    decreases t.len() - k,
{
    if k < t.len() && username_char(t[k]) {
        lemma_bad_char_found(t, k + 1);
    }
}

} // verus!
