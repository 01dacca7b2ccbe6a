//! Result columns: type inference and the member each column contributes to a
//! result-row declaration.

use vstd::prelude::*;
use crate::model::{Column, ColumnView};
use crate::text::{blank, is_blank, str_eq};

verus! {

/// Whether a result row is a record keyed by column name or a positional
/// tuple.
#[derive(Clone, Copy, Debug, PartialEq, Eq, Structural)]
pub enum RowMode {
    Object,
    Tuple,
}

/// Whether integer columns are read as `number` or as `bigint`.
#[derive(Clone, Copy, Debug, PartialEq, Eq, Structural)]
pub enum IntegerMode {
    Integer,
    BigInt,
}

impl IntegerMode {
    /// Whether integer columns are read as `bigint`.
    pub open spec fn reads_bigint(&self) -> bool {
        self is BigInt
    }

    /// Whether integer columns are read as `bigint`.
    #[verifier::when_used_as_spec(reads_bigint)]
    pub fn is_bigint(&self) -> (r: bool)
        ensures
            r == self.reads_bigint(),
    {
        match self {
            IntegerMode::Integer => false,
            IntegerMode::BigInt => true,
        }
    }
}

/// The families of database types that the generator knows.
#[derive(Clone, Copy, Debug, PartialEq, Eq, Structural)]
pub enum TypeFamily {
    Integer,
    Float,
    Blob,
    Boolean,
    Text,
}

/// The names of the integer types, of every width.
pub open spec fn is_integer_name(name: Seq<char>) -> bool {
    ||| name == "int"@
    ||| name == "integer"@
    ||| name == "tinyint"@
    ||| name == "smallint"@
    ||| name == "mediumint"@
    ||| name == "bigint"@
    ||| name == "unsignedbigint"@
    ||| name == "int2"@
    ||| name == "int8"@
}

/// The names of the floating-point types.
pub open spec fn is_float_name(name: Seq<char>) -> bool {
    ||| name == "real"@
    ||| name == "double"@
    ||| name == "doubleprecisionfloat"@
    ||| name == "float"@
}

/// The name of the type of binary data.
pub open spec fn is_blob_name(name: Seq<char>) -> bool {
    name == "blob"@
}

/// The names of the boolean type.
pub open spec fn is_boolean_name(name: Seq<char>) -> bool {
    name == "bool"@ || name == "boolean"@
}

/// The names of the text types.
pub open spec fn is_text_name(name: Seq<char>) -> bool {
    name == "text"@ || name == "varchar"@
}

/// The family of a declared type name; `None` for a name that is not
/// recognized. Names are compared exactly, character by character.
pub open spec fn type_family(name: Seq<char>) -> Option<TypeFamily> {
    if is_integer_name(name) {
        Some(TypeFamily::Integer)
    } else if is_float_name(name) {
        Some(TypeFamily::Float)
    } else if is_blob_name(name) {
        Some(TypeFamily::Blob)
    } else if is_boolean_name(name) {
        Some(TypeFamily::Boolean)
    } else if is_text_name(name) {
        Some(TypeFamily::Text)
    } else {
        None
    }
}

/// Finds the family of a declared type name.
pub fn classify_type(name: &str) -> (r: Option<TypeFamily>)
    ensures
        r == type_family(name@),
{
    if str_eq(name, "int") || str_eq(name, "integer") || str_eq(name, "tinyint") || str_eq(
        name,
        "smallint",
    ) || str_eq(name, "mediumint") || str_eq(name, "bigint") || str_eq(name, "unsignedbigint")
        || str_eq(name, "int2") || str_eq(name, "int8") {
        Some(TypeFamily::Integer)
    } else if str_eq(name, "real") || str_eq(name, "double") || str_eq(
        name,
        "doubleprecisionfloat",
    ) || str_eq(name, "float") {
        Some(TypeFamily::Float)
    } else if str_eq(name, "blob") {
        Some(TypeFamily::Blob)
    } else if str_eq(name, "bool") || str_eq(name, "boolean") {
        Some(TypeFamily::Boolean)
    } else if str_eq(name, "text") || str_eq(name, "varchar") {
        Some(TypeFamily::Text)
    } else {
        None
    }
}

/// A type expression widened by `null` unless the column is declared
/// not-null.
pub open spec fn with_nullability(inferred: Seq<char>, not_null: bool) -> Seq<char> {
    if not_null {
        inferred
    } else {
        inferred + " | null"@
    }
}

/// Widens a type expression by `null` unless `not_null` holds.
pub fn widen(inferred: &str, not_null: bool) -> (r: String)
    ensures
        r@ == with_nullability(inferred@, not_null),
{
    let mut out = String::from_str(inferred);
    if !not_null {
        out.append(" | null");
    }
    out
}

/// The type expression that a family has in a result row.
pub open spec fn output_family_type(family: TypeFamily, read_bigint: bool) -> Seq<char> {
    match family {
        TypeFamily::Integer => if read_bigint {
            "bigint"@
        } else {
            "number"@
        },
        TypeFamily::Float => "number"@,
        TypeFamily::Blob => "Uint8Array"@,
        TypeFamily::Boolean => "boolean"@,
        TypeFamily::Text => "string"@,
    }
}

/// The type inferred for a result column: `None` when the column has no
/// declared type or the type is not recognized.
pub open spec fn output_type_of(column: ColumnView, read_bigint: bool) -> Option<Seq<char>> {
    match column.declared_type {
        None => None,
        Some(name) => match type_family(name) {
            None => None,
            Some(family) => Some(
                with_nullability(output_family_type(family, read_bigint), column.not_null),
            ),
        },
    }
}

/// Infers the type expression of a result column.
pub fn output_type(column: &Column, read_bigint: bool) -> (r: Option<String>)
    ensures
        match output_type_of(column@, read_bigint) {
            Some(t) => r matches Some(s) && s@ == t,
            None => r is None,
        },
{
    match &column.declared_type {
        None => None,
        Some(name) => match classify_type(name.as_str()) {
            None => None,
            Some(family) => {
                let inferred = match family {
                    TypeFamily::Integer => if read_bigint {
                        "bigint"
                    } else {
                        "number"
                    },
                    TypeFamily::Float => "number",
                    TypeFamily::Blob => "Uint8Array",
                    TypeFamily::Boolean => "boolean",
                    TypeFamily::Text => "string",
                };
                Some(widen(inferred, column.not_null))
            },
        },
    }
}

/// The doc comment that precedes a member: nothing for a blank comment, else
/// the comment on a line of its own.
pub open spec fn doc_comment(comment: Seq<char>) -> Seq<char> {
    if is_blank(comment) {
        Seq::empty()
    } else {
        "\t/** "@ + comment + " */\n"@
    }
}

/// Writes the doc comment that precedes a member.
pub fn render_doc_comment(comment: &str) -> (r: String)
    ensures
        r@ == doc_comment(comment@),
{
    if blank(comment) {
        String::new()
    } else {
        let mut out = String::from_str("\t/** ");
        out.append(comment);
        out.append(" */\n");
        out
    }
}

/// The type expression that stands for a result column; `unknown` where none
/// is inferred.
pub open spec fn column_type(column: ColumnView, integer_mode: IntegerMode) -> Seq<char> {
    match output_type_of(column, integer_mode.reads_bigint()) {
        Some(t) => t,
        None => "unknown"@,
    }
}

/// The member that a column contributes to a result-row declaration.
pub open spec fn column_member(
    column: ColumnView,
    row_mode: RowMode,
    integer_mode: IntegerMode,
) -> Seq<char> {
    match row_mode {
        RowMode::Object => doc_comment(column.comment) + "\t\""@ + column.name + "\": "@
            + column_type(column, integer_mode) + ";\n"@,
        RowMode::Tuple => "\t"@ + column.name + ": "@ + column_type(column, integer_mode)
            + ",\n"@,
    }
}

/// Writes the type expression that stands for a result column.
pub fn render_column_type(column: &Column, integer_mode: IntegerMode) -> (r: String)
    ensures
        r@ == column_type(column@, integer_mode),
{
    match output_type(column, integer_mode.is_bigint()) {
        Some(inferred) => inferred,
        None => String::from_str("unknown"),
    }
}

/// Writes the member that a column contributes to a result-row declaration.
pub fn render_column_member(column: &Column, row_mode: RowMode, integer_mode: IntegerMode) -> (r:
    String)
    ensures
        r@ == column_member(column@, row_mode, integer_mode),
{
    let ty = render_column_type(column, integer_mode);
    match row_mode {
        RowMode::Object => {
            let mut out = render_doc_comment(column.comment.as_str());
            out.append("\t\"");
            out.append(column.name.as_str());
            out.append("\": ");
            out.append(ty.as_str());
            out.append(";\n");
            out
        },
        RowMode::Tuple => {
            let mut out = String::from_str("\t");
            out.append(column.name.as_str());
            out.append(": ");
            out.append(ty.as_str());
            out.append(",\n");
            out
        },
    }
}

/// Appends the member of `column` to `buf`.
pub fn column(buf: &mut String, column: &Column, row_mode: RowMode, integer_mode: IntegerMode)
    ensures
        final(buf)@ == old(buf)@ + column_member(column@, row_mode, integer_mode),
{
    buf.append(render_column_member(column, row_mode, integer_mode).as_str());
}

} // verus!
