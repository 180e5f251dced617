//! Rows of the `movies` and `users` tables, and what a store call may fail with.

pub mod movie_model;
pub mod user_model;

use vstd::prelude::*;

verus! {

/// The kinds of store failure that the logic tells apart.
#[derive(Debug, Clone, Copy, PartialEq, Eq, Structural)]
pub enum DbFailureKind {
    /// A query that expects a row found none.
    RowNotFound,
    /// The database itself reported an error.
    Database,
    /// Any other failure (pool, connection, decoding, ...).
    Other,
}

/// A failed store call, as plain values: its kind, its display text, and the
/// debug text of the failure (of the database's own error for `Database`).
#[derive(Debug, Clone)]
pub struct DbFailure {
    pub kind: DbFailureKind,
    pub message: String,
    pub detail: String,
}

} // verus!
