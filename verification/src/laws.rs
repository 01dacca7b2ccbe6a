//! Laws of the generator: what holds of every column, every query and every
//! batch, proved from the definitions that the contracts are stated over.

use vstd::prelude::*;
use crate::column::{column_type, is_integer_name, output_type_of, IntegerMode, RowMode};
use crate::binding::binding;
use crate::command::Command;
use crate::declaration::{
    first_unbound,
    joined,
    parameter_declaration,
    parameter_declarations,
    parameter_entry,
    parameter_members,
    result_declaration,
    result_declarations,
    uninhabited_declaration,
};
use crate::error::SerializeErrorView;
use crate::generate::{generated, source_files, OutputUnitView};
use crate::model::{ColumnView, ParameterView, QueryView};
use crate::name::{Name, NameView};
use crate::parameter::{input_type_of, parameter_member, position, ParameterMode};
use crate::serialize::{query_text, serialized};

verus! {

/// An integer column that is declared not-null reads as `number` in the
/// narrow integer mode, and so not as the union of `number` with `null`.
pub proof fn lemma_narrow_integer_reads_as_number(column: ColumnView)
    requires
        column.declared_type matches Some(name) && is_integer_name(name),
        column.not_null,
    ensures
        output_type_of(column, false) == Some("number"@),
        column_type(column, IntegerMode::Integer) == "number"@,
        output_type_of(column, false) != Some("number"@ + " | null"@),
{
    reveal_strlit(" | null");
    assert(" | null"@.len() == 7);
    assert(("number"@ + " | null"@).len() == "number"@.len() + 7);
}

/// The type inferred for a column that may be null is the type inferred for
/// the same column declared not-null, followed by ` | null`. This holds of
/// result columns in both integer modes, and of parameters.
pub proof fn lemma_nullable_type_adds_null(column: ColumnView, read_bigint: bool)
    requires
        !column.not_null,
    ensures
        output_type_of(column, read_bigint) == match output_type_of(
            ColumnView { not_null: true, ..column },
            read_bigint,
        ) {
            Some(inferred) => Some(inferred + " | null"@),
            None => None,
        },
        input_type_of(column) == match input_type_of(ColumnView { not_null: true, ..column }) {
            Some(inferred) => Some(inferred + " | null"@),
            None => None,
        },
{
}

/// The positional tuple of a query has one member per parameter, and they
/// stand in the order of the parameters: the member at each place is the one
/// of the parameter at that place.
pub proof fn lemma_anonymous_tuple_follows_parameters(query: QueryView)
    ensures
        parameter_members(query.params, ParameterMode::Anonymous).len() == query.params.len(),
        forall|i: int|
            0 <= i < query.params.len() ==> #[trigger] parameter_members(
                query.params,
                ParameterMode::Anonymous,
            )[i] == parameter_entry(query.params[i], ParameterMode::Anonymous),
        forall|i: int|
            0 <= i < query.params.len() ==> ((#[trigger] query.params[i]).column matches Some(
                column,
            ) ==> parameter_members(query.params, ParameterMode::Anonymous)[i]
                == parameter_member(column, ParameterMode::Anonymous)),
        query.params.len() > 0 ==> parameter_declaration(
            query.name,
            query.params,
            ParameterMode::Anonymous,
        ) == "type "@ + query.name + "ParametersAnonymous = [\n"@ + joined(
            parameter_members(query.params, ParameterMode::Anonymous),
        ) + "];\n"@,
{
}

/// The four result-row declarations of a query that has no row type.
pub open spec fn uninhabited_declarations(name: Seq<char>) -> Seq<char> {
    uninhabited_declaration(name, RowMode::Object, IntegerMode::Integer) + uninhabited_declaration(
        name,
        RowMode::Object,
        IntegerMode::BigInt,
    ) + uninhabited_declaration(name, RowMode::Tuple, IntegerMode::Integer)
        + uninhabited_declaration(name, RowMode::Tuple, IntegerMode::BigInt)
}

/// A query without columns has four uninhabited result-row types, whatever
/// its command is; they are what stands between the parameter declarations
/// and the binding in the text of the query.
pub proof fn lemma_no_columns_no_rows(query: QueryView, identifier: NameView, command: Command)
    requires
        query.columns.len() == 0,
    ensures
        forall|row_mode: RowMode, integer_mode: IntegerMode|
            #[trigger] result_declaration(
                identifier.name,
                command,
                query.columns,
                row_mode,
                integer_mode,
            ) == uninhabited_declaration(identifier.name, row_mode, integer_mode),
        result_declarations(identifier.name, command, query.columns) == uninhabited_declarations(
            identifier.name,
        ),
        query_text(identifier, command, query) == parameter_declarations(
            identifier.name,
            query.params,
        ) + uninhabited_declarations(identifier.name) + "\n"@ + binding(identifier, command, query),
{
}

/// A query with the command tag `:exec` has four uninhabited result-row
/// types, whatever its columns are; they are what stands between the
/// parameter declarations and the binding in the text of the query.
pub proof fn lemma_exec_has_no_rows(query: QueryView, identifier: NameView)
    requires
        query.cmd == ":exec"@,
    ensures
        Command::of_tag(query.cmd) == Some(Command::Exec),
        forall|row_mode: RowMode, integer_mode: IntegerMode|
            #[trigger] result_declaration(
                identifier.name,
                Command::Exec,
                query.columns,
                row_mode,
                integer_mode,
            ) == uninhabited_declaration(identifier.name, row_mode, integer_mode),
        result_declarations(identifier.name, Command::Exec, query.columns)
            == uninhabited_declarations(identifier.name),
        query_text(identifier, Command::Exec, query) == parameter_declarations(
            identifier.name,
            query.params,
        ) + uninhabited_declarations(identifier.name) + "\n"@ + binding(
            identifier,
            Command::Exec,
            query,
        ),
{
    reveal_strlit(":exec");
    reveal_strlit(":one");
    reveal_strlit(":many");
    assert(":one"@.len() == 4);
    assert(":many"@[1] == 'm');
    assert(":exec"@[1] == 'e');
}

/// The first unbound parameter is unbound, and every parameter before it is
/// bound; there is one exactly when some parameter is unbound.
pub proof fn lemma_first_unbound(params: Seq<ParameterView>)
    ensures
        match first_unbound(params) {
            Some(p) => exists|k: int|
                {
                    &&& 0 <= k < params.len()
                    &&& #[trigger] params[k] == p
                    &&& p.column is None
                    &&& forall|j: int| 0 <= j < k ==> (#[trigger] params[j]).column is Some
                },
            None => forall|j: int| 0 <= j < params.len() ==> (#[trigger] params[j]).column is Some,
        },
    decreases params.len(),
{
    if params.len() == 0 {
    } else if params[0].column is None {
        assert(params[0] == first_unbound(params)->Some_0);
    } else {
        let rest = params.drop_first();
        lemma_first_unbound(rest);
        match first_unbound(rest) {
            Some(p) => {
                let k = choose|k: int|
                    {
                        &&& 0 <= k < rest.len()
                        &&& #[trigger] rest[k] == p
                        &&& p.column is None
                        &&& forall|j: int| 0 <= j < k ==> (#[trigger] rest[j]).column is Some
                    };
                assert(params[k + 1] == p);
                assert forall|j: int| 0 <= j < k + 1 implies (#[trigger] params[j]).column
                    is Some by {
                    if j > 0 {
                        assert(rest[j - 1] == params[j]);
                    }
                }
            },
            None => {
                assert forall|j: int| 0 <= j < params.len() implies (#[trigger] params[j]).column
                    is Some by {
                    if j > 0 {
                        assert(rest[j - 1] == params[j]);
                    }
                }
            },
        }
    }
}

/// A query with a parameter that has no bound column is not turned into
/// text, provided that its name and its command tag are in order: the error
/// names the query and gives the position of the first such parameter.
pub proof fn lemma_unbound_parameter_fails_query(query: QueryView, i: int)
    requires
        Name::parsed(query.name) is Ok,
        Command::of_tag(query.cmd) is Some,
        0 <= i < query.params.len(),
        query.params[i].column is None,
    ensures
        first_unbound(query.params) matches Some(p) && p.column is None && serialized(query) == Err::<
            Seq<char>,
            SerializeErrorView,
        >(SerializeErrorView::ParameterNameUnknown { index: position(p), query: query.name }),
        (forall|j: int| 0 <= j < i ==> (#[trigger] query.params[j]).column is Some) ==> serialized(
            query,
        ) == Err::<Seq<char>, SerializeErrorView>(
            SerializeErrorView::ParameterNameUnknown {
                index: position(query.params[i]),
                query: query.name,
            },
        ),
{
    lemma_first_unbound(query.params);
}

/// A batch with a query that cannot be turned into text gives no output
/// unit at all, but the error of the first such query.
pub proof fn lemma_failing_query_aborts_batch(
    queries: Seq<QueryView>,
    types_path: Seq<char>,
    i: int,
)
    requires
        0 <= i < queries.len(),
        serialized(queries[i]) is Err,
    ensures
        generated(queries, types_path) is Err,
        (forall|j: int| 0 <= j < i ==> serialized(#[trigger] queries[j]) is Ok) ==> generated(
            queries,
            types_path,
        ) == Err::<Seq<OutputUnitView>, SerializeErrorView>(
            serialized(queries[i])->Err_0,
        ),
    decreases i,
{
    if i > 0 {
        let rest = queries.drop_first();
        assert(rest[i - 1] == queries[i]);
        lemma_failing_query_aborts_batch(rest, types_path, i - 1);
        if forall|j: int| 0 <= j < i ==> serialized(#[trigger] queries[j]) is Ok {
            assert(serialized(queries[0]) is Ok);
            assert forall|j: int| 0 <= j < i - 1 implies serialized(#[trigger] rest[j]) is Ok by {
                assert(rest[j] == queries[j + 1]);
            }
        }
    }
}

/// A batch in which every query can be turned into text gives output units:
/// one per source file.
pub proof fn lemma_sound_batch_is_generated(queries: Seq<QueryView>, types_path: Seq<char>)
    requires
        forall|i: int| 0 <= i < queries.len() ==> serialized(#[trigger] queries[i]) is Ok,
    ensures
        generated(queries, types_path) matches Ok(units) && units.len() == source_files(
            queries,
        ).len(),
    decreases queries.len(),
{
    if queries.len() > 0 {
        let rest = queries.drop_first();
        assert(serialized(queries[0]) is Ok);
        assert forall|i: int| 0 <= i < rest.len() implies serialized(#[trigger] rest[i]) is Ok by {
            assert(rest[i] == queries[i + 1]);
        }
        lemma_sound_batch_is_generated(rest, types_path);
    }
}

/// Whether the query at place `i` is the first query of its source file in
/// the batch.
pub open spec fn opens_file(queries: Seq<QueryView>, i: int) -> bool {
    &&& 0 <= i < queries.len()
    &&& forall|j: int| 0 <= j < i ==> (#[trigger] queries[j]).filename != queries[i].filename
}

/// The place in the batch of the first query of a source file.
pub open spec fn first_query_of(queries: Seq<QueryView>, file: Seq<char>) -> int {
    choose|i: int| opens_file(queries, i) && queries[i].filename == file
}

/// The source files of a batch are the files that its queries come from.
pub proof fn lemma_source_files_are_the_files_of_the_queries(
    queries: Seq<QueryView>,
    file: Seq<char>,
)
    ensures
        source_files(queries).contains(file) <==> exists|i: int|
            0 <= i < queries.len() && (#[trigger] queries[i]).filename == file,
    decreases queries.len(),
{
    if queries.len() > 0 {
        let earlier = queries.drop_last();
        let files = source_files(earlier);
        let last = queries.last();
        lemma_source_files_are_the_files_of_the_queries(earlier, file);
        if source_files(queries).contains(file) {
            if files.contains(file) {
                let i = choose|i: int|
                    0 <= i < earlier.len() && (#[trigger] earlier[i]).filename == file;
                assert(queries[i].filename == file);
            } else {
                let k = choose|k: int|
                    0 <= k < source_files(queries).len() && source_files(queries)[k] == file;
                if k < files.len() {
                    assert(files[k] == file);
                }
                assert(queries[queries.len() - 1].filename == file);
            }
        }
        if exists|i: int| 0 <= i < queries.len() && (#[trigger] queries[i]).filename == file {
            let i = choose|i: int| 0 <= i < queries.len() && (#[trigger] queries[i]).filename == file;
            if i < earlier.len() {
                assert(earlier[i].filename == file);
                let k = choose|k: int| 0 <= k < files.len() && files[k] == file;
                if !files.contains(last.filename) {
                    assert(files.push(last.filename)[k] == file);
                }
            } else if !files.contains(last.filename) {
                assert(files.push(last.filename)[files.len() as int] == file);
            }
        }
    }
}

/// A query that opens its file in a batch is the first query of that file.
proof fn lemma_first_query_is_unique(queries: Seq<QueryView>, i: int)
    requires
        opens_file(queries, i),
    ensures
        first_query_of(queries, queries[i].filename) == i,
{
    let j = first_query_of(queries, queries[i].filename);
    assert(opens_file(queries, j) && queries[j].filename == queries[i].filename);
    if j < i {
        assert(queries[j].filename != queries[i].filename);
    } else if i < j {
        assert(queries[i].filename != queries[j].filename);
    }
}

/// The source files of a batch stand in the order in which the files first
/// occur in the batch: each has a first query, and of two source files the
/// one listed earlier has the earlier first query.
pub proof fn lemma_source_files_follow_first_occurrence(queries: Seq<QueryView>)
    ensures
        forall|k: int|
            0 <= k < source_files(queries).len() ==> {
                let first = first_query_of(queries, #[trigger] source_files(queries)[k]);
                opens_file(queries, first) && queries[first].filename == source_files(queries)[k]
            },
        forall|a: int, b: int|
            0 <= a < b < source_files(queries).len() ==> first_query_of(
                queries,
                #[trigger] source_files(queries)[a],
            ) < first_query_of(queries, #[trigger] source_files(queries)[b]),
    decreases queries.len(),
{
    if queries.len() > 0 {
        let earlier = queries.drop_last();
        let files = source_files(earlier);
        let last = queries.last();
        let n = earlier.len() as int;
        lemma_source_files_follow_first_occurrence(earlier);
        assert forall|k: int| 0 <= k < files.len() implies {
            let first = first_query_of(queries, #[trigger] files[k]);
            &&& first == first_query_of(earlier, files[k])
            &&& first < n
            &&& opens_file(queries, first)
            &&& queries[first].filename == files[k]
        } by {
            let first = first_query_of(earlier, files[k]);
            assert(opens_file(earlier, first) && earlier[first].filename == files[k]);
            assert(queries[first] == earlier[first]);
            assert forall|j: int| 0 <= j < first implies (#[trigger] queries[j]).filename
                != queries[first].filename by {
                assert(queries[j] == earlier[j]);
            }
            lemma_first_query_is_unique(queries, first);
        }
        if !files.contains(last.filename) {
            lemma_source_files_are_the_files_of_the_queries(earlier, last.filename);
            assert forall|j: int| 0 <= j < n implies (#[trigger] queries[j]).filename
                != queries[n].filename by {
                assert(earlier[j] == queries[j]);
            }
            lemma_first_query_is_unique(queries, n);
            let all = files.push(last.filename);
            assert(source_files(queries) == all);
            assert forall|k: int| 0 <= k < all.len() implies {
                let first = first_query_of(queries, #[trigger] all[k]);
                opens_file(queries, first) && queries[first].filename == all[k]
            } by {
                if k < files.len() {
                    assert(all[k] == files[k]);
                } else {
                    assert(all[k] == queries[n].filename);
                }
            }
            assert forall|a: int, b: int| 0 <= a < b < all.len() implies first_query_of(
                queries,
                #[trigger] all[a],
            ) < first_query_of(queries, #[trigger] all[b]) by {
                assert(all[a] == files[a]);
                if b < files.len() {
                    assert(all[b] == files[b]);
                }
            }
        } else {
            assert(source_files(queries) == files);
        }
    }
}

} // verus!
