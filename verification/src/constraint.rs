//! Rules on user input, such as what a user name may look like.

use vstd::prelude::*;

verus! {

/// A rule on a piece of user input: the pattern it must match and the
/// message given back when it does not.
pub struct Constraint {
    pub regex: &'static str,
    pub error: &'static str,
}

/// The pattern every user name must match.
pub const USERNAME_REGEX: &'static str = "^[a-zA-Z]\\w{0,19}$";

/// The message given back for a user name that does not match.
pub const USERNAME_ERROR: &'static str = "username must start with a letter, and contain up to 20 alpha-numeric characters";

/// The characters of `USERNAME_REGEX`.
pub open spec fn username_pattern() -> Seq<char> {
    seq!['^', '[', 'a', '-', 'z', 'A', '-', 'Z', ']', '\\', 'w', '{', '0', ',', '1', '9', '}', '$']
}

pub open spec fn is_ascii_letter(c: char) -> bool {
    ('a' <= c && c <= 'z') || ('A' <= c && c <= 'Z')
}

pub open spec fn is_ascii_word_char(c: char) -> bool {
    is_ascii_letter(c) || ('0' <= c && c <= '9') || c == '_'
}

pub open spec fn is_ascii_char(c: char) -> bool {
    (c as u32) < 128
}

pub open spec fn all_ascii(s: Seq<char>) -> bool {
    forall|i: int| 0 <= i < s.len() ==> is_ascii_char(#[trigger] s[i])
}

/// What the user name pattern accepts among ASCII texts: a letter followed by
/// at most 19 letters, digits or underscores.
pub open spec fn ascii_username_shape(s: Seq<char>) -> bool {
    &&& 1 <= s.len() <= 20
    &&& is_ascii_letter(s[0])
    &&& forall|i: int| 1 <= i < s.len() ==> is_ascii_word_char(#[trigger] s[i])
}

/// What `fancy_regex` answers when `pattern` is compiled and matched
/// against `text`: `None` when the pattern does not compile or matching
/// fails at run time, else whether it matches.
pub uninterp spec fn fancy_regex_is_match(pattern: Seq<char>, text: Seq<char>) -> Option<bool>;

/// Compiles `pattern` with `fancy_regex::Regex::new` and runs
/// `fancy_regex::Regex::is_match` on `text`.
///
/// Trusted: the result is the named value `fancy_regex_is_match`. For the
/// user name pattern, which is valid and has no backtracking features (so the
/// crate hands it to `regex-automata` and matching cannot fail), the contract
/// also claims what the regex syntax documents: `^` and `$` anchor at both
/// ends of the text, `[a-zA-Z]` is one ASCII letter, and `\w{0,19}` is at most
/// 19 word characters, whose ASCII members are letters, digits and `_`.
/// Which non-ASCII characters count as word characters is left unsaid.
#[verifier::external_body]
fn regex_is_match(pattern: &str, text: &str) -> (r: Option<bool>)
    ensures
        r == fancy_regex_is_match(pattern@, text@),
        pattern@ == username_pattern() ==> r is Some,
        pattern@ == username_pattern() && r == Some(true) ==> {
            &&& 1 <= text@.len() <= 20
            &&& is_ascii_letter(text@[0])
            &&& forall|i: int|
                1 <= i < text@.len() ==> is_ascii_word_char(#[trigger] text@[i]) || !is_ascii_char(
                    text@[i],
                )
        },
        pattern@ == username_pattern() && all_ascii(text@) ==> (r == Some(true)
            <==> ascii_username_shape(text@)),
{
    match fancy_regex::Regex::new(pattern) {
        Ok(re) => re.is_match(text).ok(),
        Err(_) => None,
    }
}

impl Constraint {
    /// The rule on user names.
    pub fn username() -> (c: Constraint)
        ensures
            c.regex@ == username_pattern(),
            c.error@ == USERNAME_ERROR@,
    {
        proof {
            reveal_strlit("^[a-zA-Z]\\w{0,19}$");
        }
        Constraint { regex: USERNAME_REGEX, error: USERNAME_ERROR }
    }
}

/// The message of a broken rule.
#[derive(Debug, PartialEq, Eq)]
pub struct Error(String);

impl View for Error {
    type V = Seq<char>;

    closed spec fn view(&self) -> Seq<char> {
        self.0@
    }
}

impl Error {
    pub fn new(message: &str) -> (e: Error)
        ensures
            e@ == message@,
    {
        Error(message.to_owned())
    }

    pub fn message(&self) -> (m: &str)
        ensures
            m@ == self@,
    {
        self.0.as_str()
    }
}

/// A user name. `create` and `from_str` admit only text that matches the
/// user name rule; `from_checked` wraps text as it is, for names that were
/// checked when first made.
#[derive(Debug, PartialEq, Eq, Hash)]
pub struct Username(String);

impl View for Username {
    type V = Seq<char>;

    closed spec fn view(&self) -> Seq<char> {
        self.0@
    }
}

/// The texts of a list of user names.
pub open spec fn names(users: Seq<Username>) -> Seq<Seq<char>> {
    users.map_values(|u: Username| u@)
}

impl Clone for Username {
    fn clone(&self) -> (u: Username)
        ensures
            u@ == self@,
    {
        Username(self.0.clone())
    }
}

impl Username {
    /// Checks `text` against the user name rule.
    pub fn create(text: &str) -> (r: Result<Username, Error>)
        ensures
            r is Ok <==> fancy_regex_is_match(username_pattern(), text@) == Some(true),
            r matches Ok(u) ==> u@ == text@,
            r matches Err(e) ==> e@ == USERNAME_ERROR@,
            all_ascii(text@) ==> (r is Ok <==> ascii_username_shape(text@)),
            r is Ok ==> 1 <= text@.len() <= 20 && is_ascii_letter(text@[0]),
    {
        let rule = Constraint::username();
        let matched = regex_is_match(rule.regex, text);
        Username::from_match(text, matched)
    }

    /// Accepts `text` as a user name when the pattern matched it (`Some(true)`),
    /// and answers the user name rule's message otherwise.
    pub fn from_match(text: &str, matched: Option<bool>) -> (r: Result<Username, Error>)
        ensures
            r is Ok <==> matched == Some(true),
            r matches Ok(u) ==> u@ == text@,
            r matches Err(e) ==> e@ == USERNAME_ERROR@,
    {
        match matched {
            Some(true) => Ok(Username(text.to_owned())),
            _ => Err(Error::new(USERNAME_ERROR)),
        }
    }

    /// Wraps text that was checked elsewhere, as a decoder of stored or
    /// transmitted user names does.
    pub fn from_checked(text: String) -> (u: Username)
        ensures
            u@ == text@,
    {
        Username(text)
    }

    pub fn as_str(&self) -> (s: &str)
        ensures
            s@ == self@,
    {
        self.0.as_str()
    }

    /// Whether two user names are the same text.
    pub fn same_as(&self, other: &Username) -> (b: bool)
        ensures
            b == (self@ == other@),
    {
        self.0 == other.0
    }
}

impl std::str::FromStr for Username {
    type Err = Error;

    fn from_str(s: &str) -> (r: Result<Username, Error>)
        ensures
            r is Ok <==> fancy_regex_is_match(username_pattern(), s@) == Some(true),
            r matches Ok(u) ==> u@ == s@,
            r matches Err(e) ==> e@ == USERNAME_ERROR@,
    {
        Username::create(s)
    }
}

} // verus!
