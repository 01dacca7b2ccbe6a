//! The errors that stop the generation of a query.

use vstd::prelude::*;
use crate::text::{decimal, to_decimal};

verus! {

/// A query name that does not follow the naming convention.
#[derive(Debug)]
pub enum ParseNameError {
    /// The name starts with a capitalized word that is not a known action.
    UnexpectedActionPrefix { name: String, prefix: String },
    /// The name does not start with a capitalized word at all.
    Malformed(String),
}

/// What a [`ParseNameError`] holds, as mathematical values.
pub enum ParseNameErrorView {
    UnexpectedActionPrefix { name: Seq<char>, prefix: Seq<char> },
    Malformed(Seq<char>),
}

impl View for ParseNameError {
    type V = ParseNameErrorView;

    open spec fn view(&self) -> ParseNameErrorView {
        match self {
            ParseNameError::UnexpectedActionPrefix { name, prefix } => {
                ParseNameErrorView::UnexpectedActionPrefix { name: name@, prefix: prefix@ }
            },
            ParseNameError::Malformed(name) => ParseNameErrorView::Malformed(name@),
        }
    }
}

impl ParseNameErrorView {
    /// What the error says: the offending name, with the actions that a name
    /// may start with, or with examples of well-formed names.
    pub open spec fn message(self) -> Seq<char> {
        match self {
            ParseNameErrorView::UnexpectedActionPrefix { name, prefix } => {
                "unexpected name prefix <"@ + prefix + "> in <"@ + name
                    + "> (allowed: \"Get\", \"Insert\", \"Update\", \"Delete\")"@
            },
            ParseNameErrorView::Malformed(name) => {
                "unexpected name <"@ + name
                    + "> (examples: \"GetFoo\", \"InsertBar\", \"UpdateBazWithQux\", \"DeleteFooWithBar\")"@
            },
        }
    }
}

impl ParseNameError {
    /// Says what is wrong with the name.
    pub fn message(&self) -> (r: String)
        ensures
            r@ == self@.message(),
    {
        match self {
            ParseNameError::UnexpectedActionPrefix { name, prefix } => {
                let mut out = String::from_str("unexpected name prefix <");
                out.append(prefix.as_str());
                out.append("> in <");
                out.append(name.as_str());
                out.append("> (allowed: \"Get\", \"Insert\", \"Update\", \"Delete\")");
                out
            },
            ParseNameError::Malformed(name) => {
                let mut out = String::from_str("unexpected name <");
                out.append(name.as_str());
                out.append(
                    "> (examples: \"GetFoo\", \"InsertBar\", \"UpdateBazWithQux\", \"DeleteFooWithBar\")",
                );
                out
            },
        }
    }
}

/// Why a query could not be turned into text.
#[derive(Debug)]
pub enum SerializeError {
    /// The parameter at position `index` of query `query` has no bound
    /// column, so it has no name.
    ParameterNameUnknown { index: usize, query: String },
    /// The command tag is none of `:one`, `:many`, `:exec`.
    UnexpectedCommand(String),
    /// The query name does not follow the naming convention.
    UnexpectedName(ParseNameError),
}

/// What a [`SerializeError`] holds, as mathematical values.
pub enum SerializeErrorView {
    ParameterNameUnknown { index: usize, query: Seq<char> },
    UnexpectedCommand(Seq<char>),
    UnexpectedName(ParseNameErrorView),
}

impl View for SerializeError {
    type V = SerializeErrorView;

    open spec fn view(&self) -> SerializeErrorView {
        match self {
            SerializeError::ParameterNameUnknown { index, query } => {
                SerializeErrorView::ParameterNameUnknown { index: *index, query: query@ }
            },
            SerializeError::UnexpectedCommand(tag) => SerializeErrorView::UnexpectedCommand(tag@),
            SerializeError::UnexpectedName(inner) => SerializeErrorView::UnexpectedName(inner@),
        }
    }
}

impl SerializeErrorView {
    /// What the error says. An unknown parameter is reported with its
    /// position and the name of its query, an unexpected command tag with the
    /// three tags that are accepted. For an unexpected name the details are
    /// in the error of the name.
    pub open spec fn message(self) -> Seq<char> {
        match self {
            SerializeErrorView::ParameterNameUnknown { index, query } => {
                "unknown parameter name at position "@ + decimal(index as nat) + " for query "@
                    + query
            },
            SerializeErrorView::UnexpectedCommand(tag) => {
                "unexpected command <"@ + tag + "> (allowed: \":one\", \":many\", \":exec\""@
            },
            SerializeErrorView::UnexpectedName(_) => "unexpected name "@,
        }
    }
}

impl SerializeError {
    /// Says why the query could not be turned into text.
    pub fn message(&self) -> (r: String)
        ensures
            r@ == self@.message(),
    {
        match self {
            SerializeError::ParameterNameUnknown { index, query } => {
                let mut out = String::from_str("unknown parameter name at position ");
                out.append(to_decimal(*index).as_str());
                out.append(" for query ");
                out.append(query.as_str());
                out
            },
            SerializeError::UnexpectedCommand(tag) => {
                let mut out = String::from_str("unexpected command <");
                out.append(tag.as_str());
                out.append("> (allowed: \":one\", \":many\", \":exec\"");
                out
            },
            SerializeError::UnexpectedName(_) => String::from_str("unexpected name "),
        }
    }
}

impl From<ParseNameError> for SerializeError {
    fn from(inner: ParseNameError) -> (r: SerializeError)
    {
        SerializeError::UnexpectedName(inner)
    }
}

impl vstd::std_specs::convert::FromSpecImpl<ParseNameError> for SerializeError {
    open spec fn obeys_from_spec() -> bool {
        true
    }

    open spec fn from_spec(inner: ParseNameError) -> SerializeError {
        SerializeError::UnexpectedName(inner)
    }
}

} // verus!
