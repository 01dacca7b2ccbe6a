//! Generator of TypeScript declarations and query bindings for SQL queries.
//!
//! The input is a batch of query descriptors ([`model::Query`]): a name, a
//! command tag, the SQL text, the bound parameters and the result columns.
//! For each query the generator writes the types of its parameters and of
//! its result rows, and an exported constant that binds arguments to the
//! query ([`serialize::serialize`]). The texts of the queries of one source
//! file make up one output unit ([`generate::generate`]).
//!
//! Every function that writes text has a contract over a specification
//! function of the same shape: the text is stated as a sequence of
//! characters, and the function is proved to return exactly that sequence.
//! [`laws`] holds what follows for every column, query and batch.

pub mod binding;
pub mod column;
pub mod command;
pub mod declaration;
pub mod error;
pub mod generate;
pub mod laws;
pub mod model;
pub mod name;
pub mod parameter;
pub mod serialize;
pub mod text;

pub use crate::error::{ParseNameError, SerializeError};
