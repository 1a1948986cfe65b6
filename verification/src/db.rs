//! What the services learn of a failed database call.

use vstd::prelude::*;

verus! {

/// A constraint error reported by the database.
#[derive(Debug)]
pub struct DatabaseError {
    /// The SQLSTATE code, where the driver gives one.
    pub code: Option<String>,
    pub unique_violation: bool,
    pub check_violation: bool,
    pub foreign_key_violation: bool,
}

/// A failed database call.
#[derive(Debug)]
pub enum DbError {
    /// A query that must return a row returned none.
    RowNotFound,
    /// The database refused the statement.
    Database(DatabaseError),
    /// Any other failure (connection, decoding, pool).
    Other,
}

/// SQLSTATE of a unique-constraint violation.
pub open spec fn unique_violation_code() -> Seq<char> {
    "23505"@
}

} // verus!
