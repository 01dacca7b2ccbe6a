//! Query names: the naming convention, the action a name starts with, and the
//! identifier that the generated binding is exported under.

use vstd::prelude::*;
use crate::error::{ParseNameError, ParseNameErrorView};
use crate::text::{lowercase_first, lowercase_first_letter, str_eq};

verus! {

/// The pattern that every query name must match: a capitalized word, captured
/// as `action`, followed by anything up to the end of the name.
pub const NAME_FORMAT: &'static str = "^(?<action>[A-Z][a-z]+).*$";

/// The capture group of [`NAME_FORMAT`] that holds the action word.
pub const ACTION_GROUP: &'static str = "action";

/// The text that the capture group `group` holds in the first match of the
/// regular expression `pattern` in `haystack`. There is none when the pattern
/// does not compile, when it does not match, and when the match leaves the
/// group out.
pub uninterp spec fn captured_group(
    pattern: Seq<char>,
    group: Seq<char>,
    haystack: Seq<char>,
) -> Option<Seq<char>>;

/// Compiles `pattern` with `regex_lite::Regex::new`, searches `haystack` with
/// `Regex::captures` and reads the group with `Captures::name` and
/// `Match::as_str`. Trusted: the outcome is named by [`captured_group`];
/// nothing is claimed about what it is for a given pattern.
#[verifier::external_body]
pub(crate) fn capture_group<'h>(pattern: &str, group: &str, haystack: &'h str) -> (r: Option<
    &'h str,
>)
    ensures
        match r {
            Some(s) => captured_group(pattern@, group@, haystack@) == Some(s@),
            None => captured_group(pattern@, group@, haystack@) is None,
        },
{
    let regex = regex_lite::Regex::new(pattern).ok()?;
    let captures = regex.captures(haystack)?;
    Some(captures.name(group)?.as_str())
}

/// What a query does, as its name announces it.
#[derive(Clone, Copy, Debug, PartialEq, Eq, Structural)]
pub enum Action {
    Get,
    Insert,
    Update,
    Upsert,
    Delete,
}

impl Action {
    /// The action that a word names; `None` for any other word.
    pub open spec fn of_word(word: Seq<char>) -> Option<Action> {
        if word == "Get"@ {
            Some(Action::Get)
        } else if word == "Insert"@ {
            Some(Action::Insert)
        } else if word == "Update"@ {
            Some(Action::Update)
        } else if word == "Upsert"@ {
            Some(Action::Upsert)
        } else if word == "Delete"@ {
            Some(Action::Delete)
        } else {
            None
        }
    }

    /// Reads an action word.
    pub fn from_word(word: &str) -> (r: Option<Action>)
        ensures
            r == Action::of_word(word@),
    {
        if str_eq(word, "Get") {
            Some(Action::Get)
        } else if str_eq(word, "Insert") {
            Some(Action::Insert)
        } else if str_eq(word, "Update") {
            Some(Action::Update)
        } else if str_eq(word, "Upsert") {
            Some(Action::Upsert)
        } else if str_eq(word, "Delete") {
            Some(Action::Delete)
        } else {
            None
        }
    }
}

/// Whether a query reads from the database or writes to it.
#[derive(Clone, Copy, Debug, PartialEq, Eq, Structural)]
pub enum ConnectionMode {
    Read,
    Write,
}

impl ConnectionMode {
    /// `Get` reads; every other action writes.
    pub open spec fn of_action(action: Action) -> ConnectionMode {
        match action {
            Action::Get => ConnectionMode::Read,
            _ => ConnectionMode::Write,
        }
    }

    /// The literal that names the connection in generated text, quotes
    /// included.
    pub open spec fn literal(self) -> Seq<char> {
        match self {
            ConnectionMode::Read => "\"r\""@,
            ConnectionMode::Write => "\"w\""@,
        }
    }

    /// The literal that names the connection in generated text.
    pub fn to_literal(&self) -> (r: String)
        ensures
            r@ == self.literal(),
    {
        String::from_str(
            match self {
                ConnectionMode::Read => "\"r\"",
                ConnectionMode::Write => "\"w\"",
            },
        )
    }
}

impl From<&Action> for ConnectionMode {
    /// The connection that an action needs.
    fn from(action: &Action) -> (r: ConnectionMode) {
        match action {
            Action::Get => ConnectionMode::Read,
            Action::Insert | Action::Update | Action::Upsert | Action::Delete => {
                ConnectionMode::Write
            },
        }
    }
}

impl vstd::std_specs::convert::FromSpecImpl<&Action> for ConnectionMode {
    open spec fn obeys_from_spec() -> bool {
        true
    }

    open spec fn from_spec(action: &Action) -> ConnectionMode {
        ConnectionMode::of_action(*action)
    }
}

/// A query name that follows the naming convention.
#[derive(Debug)]
pub struct Name {
    /// The name as declared.
    pub name: String,
    /// The identifier of the exported binding: the name with its first
    /// character in lower case.
    pub value_name: String,
    /// The action that the name starts with.
    pub action: Action,
}

/// What a [`Name`] holds, as mathematical values.
pub struct NameView {
    pub name: Seq<char>,
    pub value_name: Seq<char>,
    pub action: Action,
}

impl View for Name {
    type V = NameView;

    open spec fn view(&self) -> NameView {
        NameView { name: self.name@, value_name: self.value_name@, action: self.action }
    }
}

impl Name {
    /// What a name is read as, given the capitalized word it was found to
    /// start with (`None` if it starts with none).
    pub open spec fn classified(name: Seq<char>, word: Option<Seq<char>>) -> Result<
        NameView,
        ParseNameErrorView,
    > {
        match word {
            None => Err(ParseNameErrorView::Malformed(name)),
            Some(prefix) => match Action::of_word(prefix) {
                None => Err(ParseNameErrorView::UnexpectedActionPrefix { name, prefix }),
                Some(action) => Ok(NameView { name, value_name: lowercase_first(name), action }),
            },
        }
    }

    /// What a name is read as: the leading word is the one that
    /// [`NAME_FORMAT`] captures.
    pub open spec fn parsed(name: Seq<char>) -> Result<NameView, ParseNameErrorView> {
        Name::classified(name, captured_group(NAME_FORMAT@, ACTION_GROUP@, name))
    }

    /// Classifies a name by the capitalized word it starts with. Without such
    /// a word the name is malformed; with a word that is no known action the
    /// prefix is unexpected.
    pub fn classify(name: &str, word: Option<&str>) -> (r: Result<Name, ParseNameError>)
        ensures
            match Name::classified(
                name@,
                match word {
                    Some(w) => Some(w@),
                    None => None,
                },
            ) {
                Ok(parsed) => r matches Ok(n) && n@ == parsed,
                Err(e) => r matches Err(x) && x@ == e,
            },
    {
        let prefix = match word {
            Some(prefix) => prefix,
            None => {
                return Err(ParseNameError::Malformed(String::from_str(name)));
            },
        };
        match Action::from_word(prefix) {
            None => Err(
                ParseNameError::UnexpectedActionPrefix {
                    name: String::from_str(name),
                    prefix: String::from_str(prefix),
                },
            ),
            Some(action) => Ok(
                Name {
                    name: String::from_str(name),
                    value_name: lowercase_first_letter(name),
                    action,
                },
            ),
        }
    }

    /// Reads a query name against the naming convention.
    pub fn parse(name: &str) -> (r: Result<Name, ParseNameError>)
        ensures
            match Name::parsed(name@) {
                Ok(parsed) => r matches Ok(n) && n@ == parsed,
                Err(e) => r matches Err(x) && x@ == e,
            },
    {
        Name::classify(name, capture_group(NAME_FORMAT, ACTION_GROUP, name))
    }
}

} // verus!
