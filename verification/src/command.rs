//! Command tags and the result cardinality they stand for.

use vstd::prelude::*;
use crate::text::str_eq;

verus! {

/// How many rows a query gives back.
#[derive(Clone, Copy, Debug, PartialEq, Eq, Structural)]
pub enum Command {
    /// Exactly one row (`:one`).
    One,
    /// Any number of rows (`:many`).
    Many,
    /// No result (`:exec`).
    Exec,
}

impl Command {
    /// The cardinality that a command tag stands for; `None` for any text
    /// that is not one of the three tags.
    pub open spec fn of_tag(tag: Seq<char>) -> Option<Command> {
        if tag == ":one"@ {
            Some(Command::One)
        } else if tag == ":many"@ {
            Some(Command::Many)
        } else if tag == ":exec"@ {
            Some(Command::Exec)
        } else {
            None
        }
    }

    /// Reads a command tag.
    pub fn from_tag(tag: &str) -> (r: Option<Command>)
        ensures
            r == Command::of_tag(tag@),
    {
        if str_eq(tag, ":one") {
            Some(Command::One)
        } else if str_eq(tag, ":many") {
            Some(Command::Many)
        } else if str_eq(tag, ":exec") {
            Some(Command::Exec)
        } else {
            None
        }
    }

    /// The literal that names the cardinality in generated text, quotes
    /// included.
    pub open spec fn literal(self) -> Seq<char> {
        match self {
            Command::One => "\"one\""@,
            Command::Many => "\"many\""@,
            Command::Exec => "\"none\""@,
        }
    }

    /// The literal that names the cardinality in generated text.
    pub fn to_literal(&self) -> (r: String)
        ensures
            r@ == self.literal(),
    {
        String::from_str(
            match self {
                Command::One => "\"one\"",
                Command::Many => "\"many\"",
                Command::Exec => "\"none\"",
            },
        )
    }

    /// Whether a query with this cardinality gives rows back at all.
    pub open spec fn yields_rows(self) -> bool {
        self is One || self is Many
    }

    /// Whether a query with this cardinality gives rows back at all.
    pub fn returns_rows(&self) -> (r: bool)
        ensures
            r == self.yields_rows(),
    {
        match self {
            Command::One | Command::Many => true,
            Command::Exec => false,
        }
    }
}

} // verus!
