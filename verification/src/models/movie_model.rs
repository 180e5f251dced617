//! A row of the `movies` table.

use crate::models::DbFailure;
use vstd::prelude::*;

verus! {

/// A movie as stored.
#[derive(Debug, Clone)]
pub struct Movie {
    pub id: i64,
    pub title: String,
    pub genre: String,
    pub release_year: i64,
    pub created: String,
}

impl Movie {
    /// The id reported for a new movie: the row id of the insert, cut to `i32`
    /// as `as` does. A failed insert is passed on.
    pub fn create(inserted: Result<i64, DbFailure>) -> (r: Result<i32, DbFailure>)
        ensures
            match inserted {
                Ok(rowid) => r == Ok::<i32, DbFailure>(rowid as i32),
                Err(f) => r == Err::<i32, DbFailure>(f),
            },
    {
        match inserted {
            Ok(rowid) => Ok(rowid as i32),
            Err(f) => Err(f),
        }
    }
}

} // verus!
