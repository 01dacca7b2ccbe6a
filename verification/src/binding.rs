//! The exported binding of a query: a constant that carries the query's name
//! and SQL text and the two functions that bind arguments to it.

use vstd::prelude::*;
use crate::column::{IntegerMode, RowMode};
use crate::command::Command;
use crate::declaration::{
    first_unbound,
    joined,
    lemma_joined_next,
    render_result_type,
    result_type,
    unbound_error,
};
use crate::error::SerializeError;
use crate::model::{Column, ParameterView, Query, QueryView};
use crate::name::{ConnectionMode, Name, NameView};
use crate::parameter::ParameterMode;

verus! {

/// The optional second argument of both bind functions, up to the end of the
/// line.
pub const CONFIGURATION_ARGUMENT: &'static str =
    ", configuration?: { rowMode?: \"object\" | \"tuple\", integerMode?: \"number\" | \"bigint\" }\n";

/// The type arguments of the exported constant, one per line: cardinality,
/// connection, the two parameter types and the four result-row types.
pub open spec fn type_arguments(
    name: Seq<char>,
    command: Command,
    connection: ConnectionMode,
) -> Seq<char> {
    "\t"@ + command.literal() + ",\n"@ + "\t"@ + connection.literal() + ",\n"@ + "\t"@ + name
        + "ParametersNamed,\n"@ + "\t"@ + name + "ParametersAnonymous,\n"@ + "\t"@ + result_type(
        name,
        RowMode::Object,
        IntegerMode::Integer,
    ) + ",\n"@ + "\t"@ + result_type(name, RowMode::Object, IntegerMode::BigInt) + ",\n"@ + "\t"@
        + result_type(name, RowMode::Tuple, IntegerMode::Integer) + ",\n"@ + "\t"@ + result_type(
        name,
        RowMode::Tuple,
        IntegerMode::BigInt,
    ) + "\n"@
}

/// Writes the type arguments of the exported constant.
pub fn render_type_arguments(name: &str, command: Command, connection: ConnectionMode) -> (r:
    String)
    ensures
        r@ == type_arguments(name@, command, connection),
{
    let mut out = String::from_str("\t");
    out.append(command.to_literal().as_str());
    out.append(",\n");
    out.append("\t");
    out.append(connection.to_literal().as_str());
    out.append(",\n");
    out.append("\t");
    out.append(name);
    out.append("ParametersNamed,\n");
    out.append("\t");
    out.append(name);
    out.append("ParametersAnonymous,\n");
    out.append("\t");
    out.append(render_result_type(name, RowMode::Object, IntegerMode::Integer).as_str());
    out.append(",\n");
    out.append("\t");
    out.append(render_result_type(name, RowMode::Object, IntegerMode::BigInt).as_str());
    out.append(",\n");
    out.append("\t");
    out.append(render_result_type(name, RowMode::Tuple, IntegerMode::Integer).as_str());
    out.append(",\n");
    out.append("\t");
    out.append(render_result_type(name, RowMode::Tuple, IntegerMode::BigInt).as_str());
    out.append("\n");
    out
}

/// One alternative of the return type of a bind function: the descriptor for
/// one row mode and one integer mode.
pub open spec fn bound_query(
    name: Seq<char>,
    command: Command,
    connection: ConnectionMode,
    row_mode: RowMode,
    integer_mode: IntegerMode,
) -> Seq<char> {
    "\t\t\t| BoundQuery<"@ + command.literal() + ", "@ + connection.literal() + ", "@
        + result_type(name, row_mode, integer_mode) + ">"@
}

/// Writes one alternative of the return type of a bind function.
pub fn render_bound_query(
    name: &str,
    command: Command,
    connection: ConnectionMode,
    row_mode: RowMode,
    integer_mode: IntegerMode,
) -> (r: String)
    ensures
        r@ == bound_query(name@, command, connection, row_mode, integer_mode),
{
    let mut out = String::from_str("\t\t\t| BoundQuery<");
    out.append(command.to_literal().as_str());
    out.append(", ");
    out.append(connection.to_literal().as_str());
    out.append(", ");
    out.append(render_result_type(name, row_mode, integer_mode).as_str());
    out.append(">");
    out
}

/// The return type of a bind function: the four descriptors, one per line,
/// with no line break after the last.
pub open spec fn return_type(
    name: Seq<char>,
    command: Command,
    connection: ConnectionMode,
) -> Seq<char> {
    bound_query(name, command, connection, RowMode::Object, IntegerMode::Integer) + "\n"@
        + bound_query(name, command, connection, RowMode::Object, IntegerMode::BigInt) + "\n"@
        + bound_query(name, command, connection, RowMode::Tuple, IntegerMode::Integer) + "\n"@
        + bound_query(name, command, connection, RowMode::Tuple, IntegerMode::BigInt)
}

/// Writes the return type of a bind function.
pub fn render_return_type(name: &str, command: Command, connection: ConnectionMode) -> (r: String)
    ensures
        r@ == return_type(name@, command, connection),
{
    let mut out = render_bound_query(
        name,
        command,
        connection,
        RowMode::Object,
        IntegerMode::Integer,
    );
    out.append("\n");
    out.append(
        render_bound_query(
            name,
            command,
            connection,
            RowMode::Object,
            IntegerMode::BigInt,
        ).as_str(),
    );
    out.append("\n");
    out.append(
        render_bound_query(
            name,
            command,
            connection,
            RowMode::Tuple,
            IntegerMode::Integer,
        ).as_str(),
    );
    out.append("\n");
    out.append(
        render_bound_query(name, command, connection, RowMode::Tuple, IntegerMode::BigInt).as_str(),
    );
    out
}

/// The head of a bind function: its name and its arguments, up to its
/// return type.
pub open spec fn binder_signature(name: Seq<char>, mode: ParameterMode) -> Seq<char> {
    match mode {
        ParameterMode::Named => "\t\tnamed: (\n"@ + "\t\t\tparameters: "@ + name
            + "ParametersNamed"@ + CONFIGURATION_ARGUMENT@ + "\t\t):\n"@,
        ParameterMode::Anonymous => "\t\tanonymous: (\n"@ + "\t\t\tparameters: "@ + name
            + "ParametersAnonymous"@ + CONFIGURATION_ARGUMENT@ + "\t\t):\n"@,
    }
}

/// Writes the head of a bind function.
pub fn render_binder_signature(name: &str, mode: ParameterMode) -> (r: String)
    ensures
        r@ == binder_signature(name@, mode),
{
    match mode {
        ParameterMode::Named => {
            let mut out = String::from_str("\t\tnamed: (\n");
            out.append("\t\t\tparameters: ");
            out.append(name);
            out.append("ParametersNamed");
            out.append(CONFIGURATION_ARGUMENT);
            out.append("\t\t):\n");
            out
        },
        ParameterMode::Anonymous => {
            let mut out = String::from_str("\t\tanonymous: (\n");
            out.append("\t\t\tparameters: ");
            out.append(name);
            out.append("ParametersAnonymous");
            out.append(CONFIGURATION_ARGUMENT);
            out.append("\t\t):\n");
            out
        },
    }
}

/// How a bind function opens the descriptor that it returns: the name and
/// the SQL text are read from the exported constant.
pub open spec fn descriptor_opening(value_name: Seq<char>) -> Seq<char> {
    " => {\n"@ + "\t\t\treturn {\n"@ + "\t\t\t\tname: "@ + value_name + ".name,\n"@
        + "\t\t\t\tquery: "@ + value_name + ".query,\n"@
}

/// Writes the opening of the descriptor that a bind function returns.
pub fn render_descriptor_opening(value_name: &str) -> (r: String)
    ensures
        r@ == descriptor_opening(value_name@),
{
    let mut out = String::from_str(" => {\n");
    out.append("\t\t\treturn {\n");
    out.append("\t\t\t\tname: ");
    out.append(value_name);
    out.append(".name,\n");
    out.append("\t\t\t\tquery: ");
    out.append(value_name);
    out.append(".query,\n");
    out
}

/// How a bind function closes the descriptor that it returns: the row mode
/// and the integer mode, with their defaults, and the two literals of the
/// query.
pub open spec fn descriptor_closing(command: Command, connection: ConnectionMode) -> Seq<char> {
    "\t\t\t\trowMode: configuration?.rowMode ?? \"object\",\n"@
        + "\t\t\t\tintegerMode: configuration?.integerMode ?? \"number\",\n"@
        + "\t\t\t\tresultMode: "@ + command.literal() + ",\n"@ + "\t\t\t\tconnectionMode: "@
        + connection.literal() + ",\n"@ + "\t\t\t};\n"@ + "\t\t},\n"@
}

/// Writes the closing of the descriptor that a bind function returns.
pub fn render_descriptor_closing(command: Command, connection: ConnectionMode) -> (r: String)
    ensures
        r@ == descriptor_closing(command, connection),
{
    let mut out = String::from_str("\t\t\t\trowMode: configuration?.rowMode ?? \"object\",\n");
    out.append("\t\t\t\tintegerMode: configuration?.integerMode ?? \"number\",\n");
    out.append("\t\t\t\tresultMode: ");
    out.append(command.to_literal().as_str());
    out.append(",\n");
    out.append("\t\t\t\tconnectionMode: ");
    out.append(connection.to_literal().as_str());
    out.append(",\n");
    out.append("\t\t\t};\n");
    out.append("\t\t},\n");
    out
}

/// The line that reads a parameter out of the named argument, by the name of
/// the column that the parameter is bound to.
pub open spec fn column_lookup(name: Seq<char>) -> Seq<char> {
    "\t\t\t\t\tparameters[\""@ + name + "\"],\n"@
}

/// Writes the line that reads a parameter out of the named argument.
pub fn render_column_lookup(column: &Column) -> (r: String)
    ensures
        r@ == column_lookup(column@.name),
{
    let mut out = String::from_str("\t\t\t\t\tparameters[\"");
    out.append(column.name.as_str());
    out.append("\"],\n");
    out
}

/// The line that reads one parameter out of the named argument; a parameter
/// without a column has none.
pub open spec fn parameter_lookup(parameter: ParameterView) -> Seq<char> {
    match parameter.column {
        Some(column) => column_lookup(column.name),
        None => Seq::empty(),
    }
}

/// The lines that read the parameters out of the named argument: one per
/// parameter, in the order of the parameters.
pub open spec fn parameter_lookups(params: Seq<ParameterView>) -> Seq<Seq<char>> {
    Seq::new(params.len(), |i: int| parameter_lookup(params[i]))
}

/// Writes the line that reads each parameter of `query` out of the named
/// argument. Stops at the first parameter without a bound column.
pub fn render_parameter_lookups(query: &Query) -> (r: Result<String, SerializeError>)
    ensures
        match unbound_error(query@.name, query@.params) {
            None => r matches Ok(s) && s@ == joined(parameter_lookups(query@.params)),
            Some(e) => r matches Err(x) && x@ == e,
        },
{
    let ghost params = query@.params;
    let ghost lookups = parameter_lookups(params);
    let mut body = String::new();
    let mut i: usize = 0;
    assert(params.skip(0) =~= params);
    while i < query.params.len()
        invariant
            i <= query.params.len(),
            params == query@.params,
            lookups == parameter_lookups(params),
            first_unbound(params) == first_unbound(params.skip(i as int)),
            body@ == joined(lookups.take(i as int)),
        decreases query.params.len() - i,
    {
        assert(params.skip(i as int)[0] == params[i as int]);
        assert(params.skip(i as int).drop_first() =~= params.skip(i + 1));
        let param = &query.params[i];
        match &param.column {
            None => {
                return Err(
                    SerializeError::ParameterNameUnknown {
                        index: param.number as usize,
                        query: query.name.clone(),
                    },
                );
            },
            Some(column) => {
                body.append(render_column_lookup(column).as_str());
            },
        }
        proof {
            lemma_joined_next(lookups, i as int);
        }
        i += 1;
    }
    assert(lookups.take(i as int) =~= lookups);
    Ok(body)
}

/// The bind function that takes its arguments by name. It fills the
/// parameter list of the descriptor by looking each parameter up by the name
/// of its column.
pub open spec fn named_binder(
    identifier: NameView,
    command: Command,
    params: Seq<ParameterView>,
) -> Seq<char> {
    let connection = ConnectionMode::of_action(identifier.action);
    binder_signature(identifier.name, ParameterMode::Named) + return_type(
        identifier.name,
        command,
        connection,
    ) + descriptor_opening(identifier.value_name) + "\t\t\t\tparameters: [\n"@ + joined(
        parameter_lookups(params),
    ) + "\t\t\t\t],\n"@ + descriptor_closing(command, connection)
}

/// The bind function that takes its arguments by position. It hands its
/// tuple on as the parameter list of the descriptor.
pub open spec fn anonymous_binder(identifier: NameView, command: Command) -> Seq<char> {
    let connection = ConnectionMode::of_action(identifier.action);
    binder_signature(identifier.name, ParameterMode::Anonymous) + return_type(
        identifier.name,
        command,
        connection,
    ) + descriptor_opening(identifier.value_name) + "\t\t\t\tparameters,\n"@
        + descriptor_closing(command, connection)
}

/// Writes the bind function of `query` that takes its arguments by name.
/// Fails on the first parameter without a bound column.
pub fn render_named_binder(identifier: &Name, command: Command, query: &Query) -> (r: Result<
    String,
    SerializeError,
>)
    ensures
        match unbound_error(query@.name, query@.params) {
            None => r matches Ok(s) && s@ == named_binder(identifier@, command, query@.params),
            Some(e) => r matches Err(x) && x@ == e,
        },
{
    let connection = ConnectionMode::from(&identifier.action);
    let name = identifier.name.as_str();
    let mut out = render_binder_signature(name, ParameterMode::Named);
    out.append(render_return_type(name, command, connection).as_str());
    out.append(render_descriptor_opening(identifier.value_name.as_str()).as_str());
    out.append("\t\t\t\tparameters: [\n");
    match render_parameter_lookups(query) {
        Ok(lookups) => out.append(lookups.as_str()),
        Err(e) => {
            return Err(e);
        },
    }
    out.append("\t\t\t\t],\n");
    out.append(render_descriptor_closing(command, connection).as_str());
    Ok(out)
}

/// Writes the bind function that takes its arguments by position.
pub fn render_anonymous_binder(identifier: &Name, command: Command) -> (r: String)
    ensures
        r@ == anonymous_binder(identifier@, command),
{
    let connection = ConnectionMode::from(&identifier.action);
    let name = identifier.name.as_str();
    let mut out = render_binder_signature(name, ParameterMode::Anonymous);
    out.append(render_return_type(name, command, connection).as_str());
    out.append(render_descriptor_opening(identifier.value_name.as_str()).as_str());
    out.append("\t\t\t\tparameters,\n");
    out.append(render_descriptor_closing(command, connection).as_str());
    out
}

/// The exported constant of a query: its identifier and type, the name of
/// the query, its SQL text behind a comment line that gives the name and the
/// command tag, and the two bind functions. The SQL text is taken as it is.
pub open spec fn binding(identifier: NameView, command: Command, query: QueryView) -> Seq<char> {
    "export const "@ + identifier.value_name + ": Query<\n"@ + type_arguments(
        identifier.name,
        command,
        ConnectionMode::of_action(identifier.action),
    ) + "> = {\n"@ + "\tname: \""@ + identifier.name + "\",\n"@ + "\tquery: `-- name: "@
        + identifier.name + " "@ + query.cmd + "\n"@ + query.text + "`,\n"@ + "\tbind: {\n"@
        + named_binder(identifier, command, query.params) + anonymous_binder(identifier, command)
        + "\t}\n"@ + "} as const;\n"@
}

/// Writes the exported constant of `query`. Fails on the first parameter
/// without a bound column.
pub fn render_binding(identifier: &Name, command: Command, query: &Query) -> (r: Result<
    String,
    SerializeError,
>)
    ensures
        match unbound_error(query@.name, query@.params) {
            None => r matches Ok(s) && s@ == binding(identifier@, command, query@),
            Some(e) => r matches Err(x) && x@ == e,
        },
{
    let name = identifier.name.as_str();
    let mut out = String::from_str("export const ");
    out.append(identifier.value_name.as_str());
    out.append(": Query<\n");
    out.append(
        render_type_arguments(
            name,
            command,
            ConnectionMode::from(&identifier.action),
        ).as_str(),
    );
    out.append("> = {\n");
    out.append("\tname: \"");
    out.append(name);
    out.append("\",\n");
    out.append("\tquery: `-- name: ");
    out.append(name);
    out.append(" ");
    out.append(query.cmd.as_str());
    out.append("\n");
    out.append(query.text.as_str());
    out.append("`,\n");
    out.append("\tbind: {\n");
    match render_named_binder(identifier, command, query) {
        Ok(named) => out.append(named.as_str()),
        Err(e) => {
            return Err(e);
        },
    }
    out.append(render_anonymous_binder(identifier, command).as_str());
    out.append("\t}\n");
    out.append("} as const;\n");
    Ok(out)
}

} // verus!
