//! Error taxonomy for query construction and execution.

use vstd::prelude::*;

verus! {

/// Everything that can go wrong between receiving a request and handing
/// typed entities back.
///
/// - `Validation`: a filter or patch referenced a field name that the
///   registry does not declare; carries the offending name.
/// - `EmptyPatch`: a partial update with zero entries was rejected.
/// - `NotFound`: a targeted read/update/delete matched zero rows.
/// - `Store`: the underlying store failed; carries a classified message,
///   never the raw driver error text.
/// - `Mapping`: a result row was missing a column or a value failed to
///   coerce to its declared kind; carries the column name.
#[derive(Debug, PartialEq, Eq)]
pub enum QueryError {
    Validation(String),
    EmptyPatch,
    NotFound,
    Store(String),
    Mapping(String),
}

impl QueryError {
    /// A short human-readable description, built from the tag and the
    /// carried name only; no query text and no driver output.
    pub fn message(&self) -> (r: String)
        ensures
            r@ == self.spec_message(),
    {
        let mut m = String::new();
        match self {
            QueryError::Validation(field) => {
                m.append("unknown field: ");
                m.append(field.as_str());
            },
            QueryError::EmptyPatch => {
                m.append("empty patch: at least one field is required");
            },
            QueryError::NotFound => {
                m.append("not found");
            },
            QueryError::Store(what) => {
                m.append("store error: ");
                m.append(what.as_str());
            },
            QueryError::Mapping(column) => {
                m.append("could not map column: ");
                m.append(column.as_str());
            },
        }
        m
    }

    pub open spec fn spec_message(&self) -> Seq<char> {
        match self {
            QueryError::Validation(field) => "unknown field: "@ + field@,
            QueryError::EmptyPatch => "empty patch: at least one field is required"@,
            QueryError::NotFound => "not found"@,
            QueryError::Store(what) => "store error: "@ + what@,
            QueryError::Mapping(column) => "could not map column: "@ + column@,
        }
    }
}

} // verus!
