//! A row of the `users` table.

use crate::crypto::{bcrypt_verdict, bcrypt_verify};
use crate::models::DbFailure;
use vstd::prelude::*;

verus! {

/// A user as stored; `password` holds the bcrypt hash.
#[derive(Debug, Clone)]
pub struct User {
    pub id: i64,
    pub email: String,
    pub password: String,
    pub subscription_plan: String,
    pub is_banned: i64,
    pub created_at: String,
    pub updated_at: String,
    pub is_admin: i64,
    pub data_usage: i64,
}

impl User {
    /// The id reported for a new user: the row id of the insert, cut to `i32`
    /// as `as` does. A failed insert is passed on.
    pub fn create(inserted: Result<i64, DbFailure>) -> (r: Result<i32, DbFailure>)
        ensures
            match inserted {
                Ok(rowid) => r == Ok::<i32, DbFailure>(rowid as i32),
                Err(f) => r == Err::<i32, DbFailure>(f),
            },
    {
        match inserted {
            Ok(rowid) => Ok(rowid as i32),
            Err(f) => Err(f),
        }
    }

    /// Whether `password` matches the stored hash; a hash that bcrypt cannot
    /// read counts as no match.
    pub fn verify_password(&self, password: &str) -> (r: bool)
        ensures
            r == (bcrypt_verdict(password@, self.password@) == Some(true)),
    {
        match bcrypt_verify(password, self.password.as_str()) {
            Ok(b) => b,
            Err(_) => false,
        }
    }
}

} // verus!
