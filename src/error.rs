//! Errors of statement execution.
use vstd::prelude::*;

verus! {

/// Why a statement's result could not be used.
#[derive(Debug)]
pub enum QueryError {
    /// The database rejected the statement, or its result did not have the
    /// expected shape.
    Query(String),
    /// A row could not be turned into a record.
    Parse(String),
    /// The connection failed.
    Connection(String),
}

} // verus!
