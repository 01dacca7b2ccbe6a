//! The query descriptors that the generator reads, and their mathematical
//! views.
//!
//! Every descriptor is plain data. Its view replaces each `String` by the
//! sequence of its characters and each `Vec` by a sequence of views, and is
//! what the contracts of the generator speak about.

use vstd::prelude::*;

verus! {

/// A column of a result row, or the column that a parameter is bound to.
#[derive(Debug)]
pub struct Column {
    pub name: String,
    /// Name of the declared database type, if the column has one.
    pub declared_type: Option<String>,
    pub not_null: bool,
    /// Human-readable comment; may be empty.
    pub comment: String,
}

/// What a [`Column`] holds, as mathematical values.
pub struct ColumnView {
    pub name: Seq<char>,
    pub declared_type: Option<Seq<char>>,
    pub not_null: bool,
    pub comment: Seq<char>,
}

impl View for Column {
    type V = ColumnView;

    open spec fn view(&self) -> ColumnView {
        ColumnView {
            name: self.name@,
            declared_type: match self.declared_type {
                Some(t) => Some(t@),
                None => None,
            },
            not_null: self.not_null,
            comment: self.comment@,
        }
    }
}

impl Clone for Column {
    fn clone(&self) -> (r: Column)
        ensures
            r@ == self@,
    {
        Column {
            name: self.name.clone(),
            declared_type: match &self.declared_type {
                Some(name) => Some(name.clone()),
                None => None,
            },
            not_null: self.not_null,
            comment: self.comment.clone(),
        }
    }
}

/// A bound parameter of a query.
#[derive(Debug)]
pub struct Parameter {
    /// Position of the parameter in the query, counted from one.
    pub number: i32,
    /// The column that gives the parameter its name and type, if resolved.
    pub column: Option<Column>,
}

/// What a [`Parameter`] holds, as mathematical values.
pub struct ParameterView {
    pub number: i32,
    pub column: Option<ColumnView>,
}

impl View for Parameter {
    type V = ParameterView;

    open spec fn view(&self) -> ParameterView {
        ParameterView {
            number: self.number,
            column: match self.column {
                Some(c) => Some(c@),
                None => None,
            },
        }
    }
}

impl Clone for Parameter {
    fn clone(&self) -> (r: Parameter)
        ensures
            r@ == self@,
    {
        Parameter {
            number: self.number,
            column: match &self.column {
                Some(column) => Some(column.clone()),
                None => None,
            },
        }
    }
}

/// One query as the host describes it.
#[derive(Debug)]
pub struct Query {
    /// The SQL text, embedded verbatim in the output.
    pub text: String,
    /// Declared name; must follow the naming convention.
    pub name: String,
    /// Command tag: `:one`, `:many` or `:exec`.
    pub cmd: String,
    pub columns: Vec<Column>,
    pub params: Vec<Parameter>,
    /// Name of the source file the query was read from.
    pub filename: String,
}

/// What a [`Query`] holds, as mathematical values.
pub struct QueryView {
    pub text: Seq<char>,
    pub name: Seq<char>,
    pub cmd: Seq<char>,
    pub columns: Seq<ColumnView>,
    pub params: Seq<ParameterView>,
    pub filename: Seq<char>,
}

/// The views of a vector of columns, in order.
pub open spec fn column_views(columns: Seq<Column>) -> Seq<ColumnView> {
    Seq::new(columns.len(), |i: int| columns[i]@)
}

/// The views of a vector of parameters, in order.
pub open spec fn parameter_views(params: Seq<Parameter>) -> Seq<ParameterView> {
    Seq::new(params.len(), |i: int| params[i]@)
}

impl View for Query {
    type V = QueryView;

    open spec fn view(&self) -> QueryView {
        QueryView {
            text: self.text@,
            name: self.name@,
            cmd: self.cmd@,
            columns: column_views(self.columns@),
            params: parameter_views(self.params@),
            filename: self.filename@,
        }
    }
}

impl Clone for Query {
    fn clone(&self) -> (r: Query)
        ensures
            r@ == self@,
    {
        let mut columns: Vec<Column> = Vec::new();
        let mut i: usize = 0;
        while i < self.columns.len()
            invariant
                i <= self.columns.len(),
                columns.len() == i,
                forall|j: int| 0 <= j < i ==> (#[trigger] columns[j])@ == self.columns[j]@,
            decreases self.columns.len() - i,
        {
            columns.push(self.columns[i].clone());
            i += 1;
        }
        let mut params: Vec<Parameter> = Vec::new();
        let mut k: usize = 0;
        while k < self.params.len()
            invariant
                k <= self.params.len(),
                params.len() == k,
                forall|j: int| 0 <= j < k ==> (#[trigger] params[j])@ == self.params[j]@,
            decreases self.params.len() - k,
        {
            params.push(self.params[k].clone());
            k += 1;
        }
        assert(column_views(columns@) =~= column_views(self.columns@));
        assert(parameter_views(params@) =~= parameter_views(self.params@));
        Query {
            text: self.text.clone(),
            name: self.name.clone(),
            cmd: self.cmd.clone(),
            columns,
            params,
            filename: self.filename.clone(),
        }
    }
}

/// The views of a batch of queries, in order.
pub open spec fn query_views(queries: Seq<Query>) -> Seq<QueryView> {
    Seq::new(queries.len(), |i: int| queries[i]@)
}

} // verus!
