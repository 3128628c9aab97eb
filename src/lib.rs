//! A builder for parameterised SELECT and COUNT statements.
//!
//! Filters form a tree of AND / OR / NOT groups over single predicates; the
//! builder renders the tree to SQL text with `?` placeholders and a parameter
//! list whose order matches the placeholders, and assembles the clauses of a
//! statement in SQL's grammatical order.
pub mod value;
pub mod text;
pub mod filters;
pub mod render;
pub mod query;
pub mod error;
pub mod rows;
pub mod laws;

pub use value::{SqlValue, SqlValueModel, Value};
pub use filters::{Aggregate, Filter, FilterOperator, FilterValue, JoinType, Operator, Sort, SortOrder};
pub use query::{QueryBuilder, QueryResult};
pub use error::QueryError;
