//! The text of one query: its type declarations followed by its exported
//! binding.

use vstd::prelude::*;
use crate::binding::{binding, render_binding};
use crate::command::Command;
use crate::declaration::{
    parameter_declarations,
    render_parameter_declarations,
    render_result_declarations,
    result_declarations,
    unbound_error,
};
use crate::error::{SerializeError, SerializeErrorView};
use crate::model::{Query, QueryView};
use crate::name::{Name, NameView};

verus! {

/// The text of a query whose name, command tag and parameters are in order:
/// the parameter declarations, the result-row declarations, an empty line
/// and the exported binding.
pub open spec fn query_text(identifier: NameView, command: Command, query: QueryView) -> Seq<
    char,
> {
    parameter_declarations(identifier.name, query.params) + result_declarations(
        identifier.name,
        command,
        query.columns,
    ) + "\n"@ + binding(identifier, command, query)
}

/// What a query is turned into. The name is read first, then the command
/// tag, then the parameters; the first of them that is out of order decides
/// the error, and there is no text then.
pub open spec fn serialized(query: QueryView) -> Result<Seq<char>, SerializeErrorView> {
    match Name::parsed(query.name) {
        Err(e) => Err(SerializeErrorView::UnexpectedName(e)),
        Ok(identifier) => match Command::of_tag(query.cmd) {
            None => Err(SerializeErrorView::UnexpectedCommand(query.cmd)),
            Some(command) => match unbound_error(query.name, query.params) {
                Some(e) => Err(e),
                None => Ok(query_text(identifier, command, query)),
            },
        },
    }
}

/// Turns a query into its text, or says why it cannot be.
pub fn serialize(query: Query) -> (r: Result<String, SerializeError>)
    ensures
        match serialized(query@) {
            Ok(text) => r matches Ok(s) && s@ == text,
            Err(e) => r matches Err(x) && x@ == e,
        },
{
    let identifier = match Name::parse(query.name.as_str()) {
        Ok(identifier) => identifier,
        Err(e) => {
            return Err(SerializeError::from(e));
        },
    };
    let command = match Command::from_tag(query.cmd.as_str()) {
        Some(command) => command,
        None => {
            return Err(SerializeError::UnexpectedCommand(query.cmd));
        },
    };
    let mut buf = match render_parameter_declarations(&query) {
        Ok(declarations) => declarations,
        Err(e) => {
            return Err(e);
        },
    };
    buf.append(
        render_result_declarations(identifier.name.as_str(), command, &query.columns).as_str(),
    );
    buf.append("\n");
    match render_binding(&identifier, command, &query) {
        Ok(exported) => buf.append(exported.as_str()),
        Err(e) => {
            return Err(e);
        },
    }
    Ok(buf)
}

} // verus!
