//! The type declarations of a query: the two parameter declarations and the
//! four result-row declarations.

use vstd::prelude::*;
use crate::column::{column, column_member, IntegerMode, RowMode};
use crate::command::Command;
use crate::error::{SerializeError, SerializeErrorView};
use crate::model::{column_views, Column, ColumnView, ParameterView, Query};
use crate::parameter::{parameter, parameter_member, position, ParameterMode};

verus! {

/// The members of a declaration, one after the other.
pub open spec fn joined(members: Seq<Seq<char>>) -> Seq<char> {
    members.flatten()
}

/// Joining one member more appends that member to what was joined before.
pub proof fn lemma_joined_next(members: Seq<Seq<char>>, i: int)
    requires
        0 <= i < members.len(),
    ensures
        joined(members.take(i + 1)) == joined(members.take(i)) + members[i],
{
    let head = members.take(i);
    let next = seq![members[i]];
    assert(members.take(i + 1) =~= head + next);
    vstd::seq_lib::lemma_flatten_concat(head, next);
    next.lemma_flatten_one_element();
}

/// The first parameter, in order, that has no bound column.
pub open spec fn first_unbound(params: Seq<ParameterView>) -> Option<ParameterView>
    decreases params.len(),
{
    if params.len() == 0 {
        None
    } else if params[0].column is None {
        Some(params[0])
    } else {
        first_unbound(params.drop_first())
    }
}

/// The error that stops a query whose parameters are not all bound: it names
/// the query and gives the position of the first unbound parameter.
pub open spec fn unbound_error(name: Seq<char>, params: Seq<ParameterView>) -> Option<
    SerializeErrorView,
> {
    match first_unbound(params) {
        Some(p) => Some(
            SerializeErrorView::ParameterNameUnknown { index: position(p), query: name },
        ),
        None => None,
    }
}

/// The member of a parameter; a parameter without a column has none.
pub open spec fn parameter_entry(parameter: ParameterView, mode: ParameterMode) -> Seq<char> {
    match parameter.column {
        Some(column) => parameter_member(column, mode),
        None => Seq::empty(),
    }
}

/// The members of a parameter declaration: one per parameter, in the order of
/// the parameters.
pub open spec fn parameter_members(params: Seq<ParameterView>, mode: ParameterMode) -> Seq<
    Seq<char>,
> {
    Seq::new(params.len(), |i: int| parameter_entry(params[i], mode))
}

/// The declaration of the parameters of a query in one mode: a record keyed
/// by name, or a positional tuple. Without parameters it is the empty record,
/// or the empty tuple.
pub open spec fn parameter_declaration(
    name: Seq<char>,
    params: Seq<ParameterView>,
    mode: ParameterMode,
) -> Seq<char> {
    match mode {
        ParameterMode::Named => if params.len() == 0 {
            "type "@ + name + "ParametersNamed = Record<string, never>;\n"@
        } else {
            "type "@ + name + "ParametersNamed = {\n"@ + joined(parameter_members(params, mode))
                + "};\n"@
        },
        ParameterMode::Anonymous => if params.len() == 0 {
            "type "@ + name + "ParametersAnonymous = [];\n"@
        } else {
            "type "@ + name + "ParametersAnonymous = [\n"@ + joined(
                parameter_members(params, mode),
            ) + "];\n"@
        },
    }
}

/// Both parameter declarations of a query: the named record, then the
/// positional tuple.
pub open spec fn parameter_declarations(name: Seq<char>, params: Seq<ParameterView>) -> Seq<char> {
    parameter_declaration(name, params, ParameterMode::Named) + parameter_declaration(
        name,
        params,
        ParameterMode::Anonymous,
    )
}

/// Writes the member of every parameter of `query`, in order. Stops at the
/// first parameter without a bound column.
pub fn render_parameter_members(query: &Query, mode: ParameterMode) -> (r: Result<
    String,
    SerializeError,
>)
    ensures
        match unbound_error(query@.name, query@.params) {
            None => r matches Ok(s) && s@ == joined(parameter_members(query@.params, mode)),
            Some(e) => r matches Err(x) && x@ == e,
        },
{
    let ghost params = query@.params;
    let ghost members = parameter_members(params, mode);
    let mut body = String::new();
    let mut i: usize = 0;
    assert(params.skip(0) =~= params);
    while i < query.params.len()
        invariant
            i <= query.params.len(),
            params == query@.params,
            members == parameter_members(params, mode),
            first_unbound(params) == first_unbound(params.skip(i as int)),
            body@ == joined(members.take(i as int)),
        decreases query.params.len() - i,
    {
        assert(params.skip(i as int)[0] == params[i as int]);
        assert(params.skip(i as int).drop_first() =~= params.skip(i + 1));
        match parameter(&mut body, &query.params[i], mode) {
            Err(e) => {
                return Err(e.contextualize(query));
            },
            Ok(()) => {},
        }
        proof {
            lemma_joined_next(members, i as int);
        }
        i += 1;
    }
    assert(members.take(i as int) =~= members);
    Ok(body)
}

/// Writes the declaration of the parameters of `query` in one mode.
pub fn render_parameter_declaration(query: &Query, mode: ParameterMode) -> (r: Result<
    String,
    SerializeError,
>)
    ensures
        match unbound_error(query@.name, query@.params) {
            None => r matches Ok(s) && s@ == parameter_declaration(
                query@.name,
                query@.params,
                mode,
            ),
            Some(e) => r matches Err(x) && x@ == e,
        },
{
    let mut out = String::from_str("type ");
    out.append(query.name.as_str());
    if query.params.is_empty() {
        match mode {
            ParameterMode::Named => out.append("ParametersNamed = Record<string, never>;\n"),
            ParameterMode::Anonymous => out.append("ParametersAnonymous = [];\n"),
        }
    } else {
        let members = match render_parameter_members(query, mode) {
            Ok(members) => members,
            Err(e) => {
                return Err(e);
            },
        };
        match mode {
            ParameterMode::Named => {
                out.append("ParametersNamed = {\n");
                out.append(members.as_str());
                out.append("};\n");
            },
            ParameterMode::Anonymous => {
                out.append("ParametersAnonymous = [\n");
                out.append(members.as_str());
                out.append("];\n");
            },
        }
    }
    Ok(out)
}

/// Writes both parameter declarations of `query`.
pub fn render_parameter_declarations(query: &Query) -> (r: Result<String, SerializeError>)
    ensures
        match unbound_error(query@.name, query@.params) {
            None => r matches Ok(s) && s@ == parameter_declarations(query@.name, query@.params),
            Some(e) => r matches Err(x) && x@ == e,
        },
{
    let mut out = match render_parameter_declaration(query, ParameterMode::Named) {
        Ok(named) => named,
        Err(e) => {
            return Err(e);
        },
    };
    match render_parameter_declaration(query, ParameterMode::Anonymous) {
        Ok(anonymous) => out.append(anonymous.as_str()),
        Err(e) => {
            return Err(e);
        },
    }
    Ok(out)
}

/// What follows the query name in the name of a result-row type.
pub open spec fn result_suffix(row_mode: RowMode, integer_mode: IntegerMode) -> Seq<char> {
    match row_mode {
        RowMode::Object => match integer_mode {
            IntegerMode::Integer => "RecordRowModeObjectIntegerModeNumber"@,
            IntegerMode::BigInt => "RecordRowModeObjectIntegerModeBigInt"@,
        },
        RowMode::Tuple => match integer_mode {
            IntegerMode::Integer => "RecordRowModeTupleIntegerModeNumber"@,
            IntegerMode::BigInt => "RecordRowModeTupleIntegerModeBigInt"@,
        },
    }
}

/// What follows the query name in the name of a result-row type.
pub fn result_type_suffix(row_mode: RowMode, integer_mode: IntegerMode) -> (r: &'static str)
    ensures
        r@ == result_suffix(row_mode, integer_mode),
{
    match row_mode {
        RowMode::Object => match integer_mode {
            IntegerMode::Integer => "RecordRowModeObjectIntegerModeNumber",
            IntegerMode::BigInt => "RecordRowModeObjectIntegerModeBigInt",
        },
        RowMode::Tuple => match integer_mode {
            IntegerMode::Integer => "RecordRowModeTupleIntegerModeNumber",
            IntegerMode::BigInt => "RecordRowModeTupleIntegerModeBigInt",
        },
    }
}

/// The name of a result-row type of a query.
pub open spec fn result_type(name: Seq<char>, row_mode: RowMode, integer_mode: IntegerMode) -> Seq<
    char,
> {
    name + result_suffix(row_mode, integer_mode)
}

/// Writes the name of a result-row type of a query.
pub fn render_result_type(name: &str, row_mode: RowMode, integer_mode: IntegerMode) -> (r: String)
    ensures
        r@ == result_type(name@, row_mode, integer_mode),
{
    let mut out = String::from_str(name);
    out.append(result_type_suffix(row_mode, integer_mode));
    out
}

/// The members of a result-row declaration: one per column, in the order of
/// the columns.
pub open spec fn column_members(
    columns: Seq<ColumnView>,
    row_mode: RowMode,
    integer_mode: IntegerMode,
) -> Seq<Seq<char>> {
    Seq::new(columns.len(), |i: int| column_member(columns[i], row_mode, integer_mode))
}

/// Whether a query has a row type at all: it must give rows back and have at
/// least one column.
pub open spec fn has_rows(command: Command, columns: Seq<ColumnView>) -> bool {
    columns.len() > 0 && command.yields_rows()
}

/// The declaration of a result-row type that no value inhabits.
pub open spec fn uninhabited_declaration(
    name: Seq<char>,
    row_mode: RowMode,
    integer_mode: IntegerMode,
) -> Seq<char> {
    "type "@ + result_type(name, row_mode, integer_mode) + " = never;\n"@
}

/// The declaration of a result-row type with one member per column: a record
/// keyed by column name, or a positional tuple.
pub open spec fn row_declaration(
    name: Seq<char>,
    columns: Seq<ColumnView>,
    row_mode: RowMode,
    integer_mode: IntegerMode,
) -> Seq<char> {
    match row_mode {
        RowMode::Object => "type "@ + result_type(name, row_mode, integer_mode) + " = {\n"@
            + joined(column_members(columns, row_mode, integer_mode)) + "};\n"@,
        RowMode::Tuple => "type "@ + result_type(name, row_mode, integer_mode) + " = [\n"@
            + joined(column_members(columns, row_mode, integer_mode)) + "];\n"@,
    }
}

/// The declaration of one result-row type of a query.
pub open spec fn result_declaration(
    name: Seq<char>,
    command: Command,
    columns: Seq<ColumnView>,
    row_mode: RowMode,
    integer_mode: IntegerMode,
) -> Seq<char> {
    if has_rows(command, columns) {
        row_declaration(name, columns, row_mode, integer_mode)
    } else {
        uninhabited_declaration(name, row_mode, integer_mode)
    }
}

/// The four result-row declarations of a query: records before tuples, and
/// `number` before `bigint` in each.
pub open spec fn result_declarations(
    name: Seq<char>,
    command: Command,
    columns: Seq<ColumnView>,
) -> Seq<char> {
    result_declaration(name, command, columns, RowMode::Object, IntegerMode::Integer)
        + result_declaration(name, command, columns, RowMode::Object, IntegerMode::BigInt)
        + result_declaration(name, command, columns, RowMode::Tuple, IntegerMode::Integer)
        + result_declaration(name, command, columns, RowMode::Tuple, IntegerMode::BigInt)
}

/// Writes the member of every column, in order.
pub fn render_column_members(
    columns: &Vec<Column>,
    row_mode: RowMode,
    integer_mode: IntegerMode,
) -> (r: String)
    ensures
        r@ == joined(column_members(column_views(columns@), row_mode, integer_mode)),
{
    let ghost members = column_members(column_views(columns@), row_mode, integer_mode);
    let mut body = String::new();
    let mut i: usize = 0;
    while i < columns.len()
        invariant
            i <= columns.len(),
            members == column_members(column_views(columns@), row_mode, integer_mode),
            body@ == joined(members.take(i as int)),
        decreases columns.len() - i,
    {
        column(&mut body, &columns[i], row_mode, integer_mode);
        proof {
            lemma_joined_next(members, i as int);
        }
        i += 1;
    }
    assert(members.take(i as int) =~= members);
    body
}

/// Writes one result-row declaration of a query.
pub fn render_result_declaration(
    name: &str,
    command: Command,
    columns: &Vec<Column>,
    row_mode: RowMode,
    integer_mode: IntegerMode,
) -> (r: String)
    ensures
        r@ == result_declaration(name@, command, column_views(columns@), row_mode, integer_mode),
{
    let mut out = String::from_str("type ");
    out.append(render_result_type(name, row_mode, integer_mode).as_str());
    if !columns.is_empty() && command.returns_rows() {
        let members = render_column_members(columns, row_mode, integer_mode);
        match row_mode {
            RowMode::Object => {
                out.append(" = {\n");
                out.append(members.as_str());
                out.append("};\n");
            },
            RowMode::Tuple => {
                out.append(" = [\n");
                out.append(members.as_str());
                out.append("];\n");
            },
        }
    } else {
        out.append(" = never;\n");
    }
    out
}

/// Writes the four result-row declarations of a query.
pub fn render_result_declarations(name: &str, command: Command, columns: &Vec<Column>) -> (r:
    String)
    ensures
        r@ == result_declarations(name@, command, column_views(columns@)),
{
    let mut out = render_result_declaration(
        name,
        command,
        columns,
        RowMode::Object,
        IntegerMode::Integer,
    );
    out.append(
        render_result_declaration(
            name,
            command,
            columns,
            RowMode::Object,
            IntegerMode::BigInt,
        ).as_str(),
    );
    out.append(
        render_result_declaration(
            name,
            command,
            columns,
            RowMode::Tuple,
            IntegerMode::Integer,
        ).as_str(),
    );
    out.append(
        render_result_declaration(
            name,
            command,
            columns,
            RowMode::Tuple,
            IntegerMode::BigInt,
        ).as_str(),
    );
    out
}

} // verus!
