//! SQL statement synthesis for a declared entity.
//!
//! A `Schema` is built once from the declarations of an entity's fields, which fixes each
//! column's SQL type. From it come the texts of the statements that create and drop the
//! table and insert, update, select, count and delete rows, and a `Filter` algebra whose
//! trees compile to the conditions of `WHERE` clauses.

use vstd::prelude::*;

pub mod count;
pub mod field;
pub mod filter;
pub mod parse_utils;
pub mod request;
pub mod schema;
pub mod sql_type;
pub mod statement;
pub mod text;

pub use count::{CountError, count_result};
pub use field::{AttrArg, AttrGroup, Field, FieldDecl, FieldError};
pub use filter::{Filter, FilterError, Op, Value};
pub use parse_utils::{Lit, parse_bool_lit, parse_integer_lit};
pub use request::{Count, CountBuilder, Delete, DeleteBuilder, Select, SelectBuilder, SelectOne, SelectOneBuilder};
pub use schema::{Schema, SchemaError};
pub use sql_type::{LogicalType, SqlType, TypeError};

verus! {

} // verus!
