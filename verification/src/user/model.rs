//! A user with a name, and looking one up by email.

use crate::models::{DbFailure, DbFailureKind};
use crate::text::{concat2, owned};
use vstd::prelude::*;

verus! {

/// A user as stored, with a name.
#[derive(Debug, Clone)]
pub struct User {
    pub id: i32,
    pub name: String,
    pub email: String,
    pub password: String,
    pub subscription_plan: String,
    pub is_banned: bool,
    pub created_at: String,
    pub is_admin: bool,
    pub data_usage: i64,
}

/// The kinds of input/output error that the lookup tells apart.
#[derive(Debug, Clone, Copy, PartialEq, Eq, Structural)]
pub enum IoKind {
    NotFound,
    Other,
}

/// An input/output error, as plain values: its kind and display text.
#[derive(Debug, Clone)]
pub struct IoFailure {
    pub kind: IoKind,
    pub message: String,
}

/// Errors of the lookup.
#[derive(Debug, Clone)]
pub enum MyError {
    DbError(DbFailure),
    IooError(IoFailure),
    IooError2(String),
    UserNotFound { user: String },
    Unknown,
}

/// The display text of a lookup error.
pub open spec fn my_error_text(e: MyError) -> Seq<char> {
    match e {
        MyError::DbError(f) => "Database error: "@ + f.message@,
        MyError::IooError(f) => "inpuuut  /o  error: "@ + f.message@,
        MyError::IooError2(s) => "inpuuut,,,,22  /o  error: "@ + s@,
        MyError::UserNotFound { user } => "User Not Found  with   "@ + user@,
        MyError::Unknown => "unkwon erro"@,
    }
}

impl MyError {
    /// The display text of the error.
    pub fn message(&self) -> (r: String)
        ensures
            r@ == my_error_text(*self),
            self matches MyError::DbError(f) ==> r@ == "Database error: "@ + f.message@,
            self matches MyError::IooError(f) ==> r@ == "inpuuut  /o  error: "@ + f.message@,
            self matches MyError::IooError2(s) ==> r@ == "inpuuut,,,,22  /o  error: "@ + s@,
            self matches MyError::UserNotFound { user } ==> r@ == "User Not Found  with   "@
                + user@,
            self is Unknown ==> r@ == "unkwon erro"@,
    {
        match self {
            MyError::DbError(f) => concat2("Database error: ", f.message.as_str()),
            MyError::IooError(f) => concat2("inpuuut  /o  error: ", f.message.as_str()),
            MyError::IooError2(s) => concat2("inpuuut,,,,22  /o  error: ", s.as_str()),
            MyError::UserNotFound { user } => concat2("User Not Found  with   ", user.as_str()),
            MyError::Unknown => owned("unkwon erro"),
        }
    }
}

impl User {
    /// Looks up the user with `email`, given the outcome of each step in the
    /// order they run (opening the marker file, the query, opening it again):
    /// the first failure is the answer; a missing row or a database error
    /// becomes a not-found input/output error whose text is `mapped to the
    /// error : ` and the failure's debug text; no user is `UserNotFound`.
    pub fn find_user_by_email(
        email: &str,
        opened: Result<(), IoFailure>,
        found: Result<Option<User>, DbFailure>,
        reopened: Result<(), IoFailure>,
    ) -> (r: Result<User, MyError>)
        ensures
            match (opened, found, reopened) {
                (Err(e), _, _) => r == Err::<User, MyError>(MyError::IooError(e)),
                (Ok(_), Err(f), _) => match f.kind {
                    DbFailureKind::Other => r == Err::<User, MyError>(MyError::DbError(f)),
                    _ => r matches Err(MyError::IooError(io)) && io.kind == IoKind::NotFound
                        && io.message@ == "mapped to the error : "@ + f.detail@,
                },
                (Ok(_), Ok(_), Err(e)) => r == Err::<User, MyError>(MyError::IooError(e)),
                (Ok(_), Ok(Some(u)), Ok(_)) => r == Ok::<User, MyError>(u),
                (Ok(_), Ok(None), Ok(_)) => r matches Err(MyError::UserNotFound { user })
                    && user@ == email@,
            },
    {
        if let Err(e) = opened {
            return Err(MyError::IooError(e));
        }
        let user = match found {
            Ok(u) => u,
            Err(f) => {
                return match f.kind {
                    DbFailureKind::Other => Err(MyError::DbError(f)),
                    _ => Err(
                        MyError::IooError(
                            IoFailure {
                                kind: IoKind::NotFound,
                                message: concat2("mapped to the error : ", f.detail.as_str()),
                            },
                        ),
                    ),
                };
            },
        };
        if let Err(e) = reopened {
            return Err(MyError::IooError(e));
        }
        match user {
            Some(u) => Ok(u),
            None => Err(MyError::UserNotFound { user: owned(email) }),
        }
    }
}

} // verus!
