//! Query parameters: type inference and the member each parameter
//! contributes to a parameter declaration.

use vstd::prelude::*;
use crate::column::{
    classify_type,
    doc_comment,
    render_doc_comment,
    type_family,
    widen,
    with_nullability,
    TypeFamily,
};
use crate::error::{SerializeError, SerializeErrorView};
use crate::model::{Column, ColumnView, Parameter, ParameterView, Query};

verus! {

/// Why a parameter could not be written.
#[derive(Clone, Copy, Debug, PartialEq, Eq, Structural)]
pub enum ParameterSerializeError {
    /// The parameter at position `index` has no bound column.
    UnknownName { index: usize },
}

impl ParameterSerializeError {
    /// The error of the query that the parameter belongs to.
    pub open spec fn in_query(self, query: Seq<char>) -> SerializeErrorView {
        match self {
            ParameterSerializeError::UnknownName { index } => {
                SerializeErrorView::ParameterNameUnknown { index, query }
            },
        }
    }

    /// What the error says.
    pub open spec fn message_text(self) -> Seq<char> {
        "unknown name"@
    }

    /// Says what is wrong with the parameter.
    pub fn message(&self) -> (r: String)
        ensures
            r@ == self.message_text(),
    {
        String::from_str("unknown name")
    }

    /// Adds the name of the query to the error.
    pub fn contextualize(&self, query: &Query) -> (r: SerializeError)
        ensures
            r@ == self.in_query(query.name@),
    {
        match self {
            ParameterSerializeError::UnknownName { index } => {
                SerializeError::ParameterNameUnknown { index: *index, query: query.name.clone() }
            },
        }
    }
}

/// Whether a parameter is written as a member of the named record or of the
/// positional tuple.
#[derive(Clone, Copy, Debug, PartialEq, Eq, Structural)]
pub enum ParameterMode {
    Named,
    Anonymous,
}

/// The type expression that a family has as a parameter. Integers accept
/// both representations, and a blob accepts any binary view.
pub open spec fn input_family_type(family: TypeFamily) -> Seq<char> {
    match family {
        TypeFamily::Integer => "number | bigint"@,
        TypeFamily::Float => "number"@,
        TypeFamily::Blob => "NodeJS.ArrayBufferView"@,
        TypeFamily::Boolean => "boolean"@,
        TypeFamily::Text => "string"@,
    }
}

/// The type inferred for a parameter bound to `column`: `None` when the
/// column has no declared type or the type is not recognized.
pub open spec fn input_type_of(column: ColumnView) -> Option<Seq<char>> {
    match column.declared_type {
        None => None,
        Some(name) => match type_family(name) {
            None => None,
            Some(family) => Some(with_nullability(input_family_type(family), column.not_null)),
        },
    }
}

/// Infers the type expression of a parameter bound to `column`.
pub fn input_type(column: &Column) -> (r: Option<String>)
    ensures
        match input_type_of(column@) {
            Some(t) => r matches Some(s) && s@ == t,
            None => r is None,
        },
{
    match &column.declared_type {
        None => None,
        Some(name) => match classify_type(name.as_str()) {
            None => None,
            Some(family) => {
                let inferred = match family {
                    TypeFamily::Integer => "number | bigint",
                    TypeFamily::Float => "number",
                    TypeFamily::Blob => "NodeJS.ArrayBufferView",
                    TypeFamily::Boolean => "boolean",
                    TypeFamily::Text => "string",
                };
                Some(widen(inferred, column.not_null))
            },
        },
    }
}

/// The type expression that stands for a parameter; `any` where none is
/// inferred.
pub open spec fn parameter_type(column: ColumnView) -> Seq<char> {
    match input_type_of(column) {
        Some(t) => t,
        None => "any"@,
    }
}

/// The member that a parameter bound to `column` contributes to a parameter
/// declaration.
pub open spec fn parameter_member(column: ColumnView, mode: ParameterMode) -> Seq<char> {
    match mode {
        ParameterMode::Named => doc_comment(column.comment) + "\t\""@ + column.name + "\": "@
            + parameter_type(column) + ";\n"@,
        ParameterMode::Anonymous => "\t"@ + column.name + ": "@ + parameter_type(column) + ",\n"@,
    }
}

/// Writes the type expression that stands for a parameter bound to
/// `column`.
pub fn render_parameter_type(column: &Column) -> (r: String)
    ensures
        r@ == parameter_type(column@),
{
    match input_type(column) {
        Some(inferred) => inferred,
        None => String::from_str("any"),
    }
}

/// Writes the member that a parameter bound to `column` contributes to a
/// parameter declaration.
pub fn render_parameter_member(column: &Column, mode: ParameterMode) -> (r: String)
    ensures
        r@ == parameter_member(column@, mode),
{
    let ty = render_parameter_type(column);
    match mode {
        ParameterMode::Named => {
            let mut out = render_doc_comment(column.comment.as_str());
            out.append("\t\"");
            out.append(column.name.as_str());
            out.append("\": ");
            out.append(ty.as_str());
            out.append(";\n");
            out
        },
        ParameterMode::Anonymous => {
            let mut out = String::from_str("\t");
            out.append(column.name.as_str());
            out.append(": ");
            out.append(ty.as_str());
            out.append(",\n");
            out
        },
    }
}

/// The position that an unresolved parameter is reported at.
pub open spec fn position(parameter: ParameterView) -> usize {
    parameter.number as usize
}

/// Appends the member of `param` to `buf`. A parameter without a bound
/// column is an error, and then `buf` is left as it was.
pub fn parameter(buf: &mut String, param: &Parameter, mode: ParameterMode) -> (r: Result<
    (),
    ParameterSerializeError,
>)
    ensures
        match param@.column {
            Some(column) => r is Ok && final(buf)@ == old(buf)@ + parameter_member(column, mode),
            None => r == Err::<(), ParameterSerializeError>(
                ParameterSerializeError::UnknownName { index: position(param@) },
            ) && final(buf)@ == old(buf)@,
        },
{
    match &param.column {
        None => Err(ParameterSerializeError::UnknownName { index: param.number as usize }),
        Some(column) => {
            buf.append(render_parameter_member(column, mode).as_str());
            Ok(())
        },
    }
}

} // verus!
