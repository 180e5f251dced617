//! The user service: its errors, how each maps to an HTTP answer, the claims
//! of a log-in token, and what each operation answers given what the store
//! returned.

use crate::api::auth_routes::NUser;
use crate::clock::{first_instant, last_instant, timestamp_plus_minutes};
use crate::crypto::{bcrypt_hash, bcrypt_hash_form, bcrypt_verdict};
use crate::models::user_model::User;
use crate::models::DbFailure;
use crate::text::{concat2, concat3, decimal, decimal_string, owned, starts_with};
use vstd::prelude::*;

verus! {

/// A token that could not be encoded or decoded, by its display text.
#[derive(Debug, Clone)]
pub struct TokenFailure {
    pub message: String,
}

/// A password that could not be hashed or checked, by its display text.
#[derive(Debug, Clone)]
pub struct HashFailure {
    pub message: String,
}

/// Errors of the user service.
#[derive(Debug, Clone)]
pub enum UserServiceError {
    EmailAlreadyExists(String),
    EmailNotFound(String),
    UnableToDelete(String),
    InvalidPassword(String),
    DbError(DbFailure),
    UnableToCreate(String),
    UserNotFound(String),
    TokenError(TokenFailure),
    BCryptError(HashFailure),
    Unkown(String),
}

/// The display text of a user service error.
pub open spec fn user_error_text(e: UserServiceError) -> Seq<char> {
    match e {
        UserServiceError::EmailAlreadyExists(s) => "User with email "@ + s@ + " already exists"@,
        UserServiceError::EmailNotFound(s) => "User with email "@ + s@ + " not found"@,
        UserServiceError::UnableToDelete(s) => "Unable to delete user with id "@ + s@,
        UserServiceError::InvalidPassword(_) => "Invalid password"@,
        UserServiceError::DbError(f) => "Database error: "@ + f.message@,
        UserServiceError::UnableToCreate(s) => "Unable to create user with email "@ + s@,
        UserServiceError::UserNotFound(s) => "user not found with id "@ + s@,
        UserServiceError::TokenError(t) => "Error while generating JWT token:"@ + t.message@,
        UserServiceError::BCryptError(h) => "Hash/ Decode error: "@ + h.message@,
        UserServiceError::Unkown(s) => s@,
    }
}

/// The HTTP status answered for a user service error.
pub open spec fn user_error_status(e: UserServiceError) -> u16 {
    match e {
        UserServiceError::DbError(_) => 500,
        _ => 400,
    }
}

/// The body answered for a user service error.
pub open spec fn user_error_body(e: UserServiceError) -> Seq<char> {
    match e {
        UserServiceError::DbError(_) => "Internal server1 error"@,
        UserServiceError::TokenError(_) => "Jwt token error"@,
        _ => "Something went wrong"@,
    }
}

impl UserServiceError {
    /// The display text of the error.
    pub fn message(&self) -> (r: String)
        ensures
            r@ == user_error_text(*self),
            self matches UserServiceError::EmailAlreadyExists(s) ==> r@ == "User with email "@
                + s@ + " already exists"@,
            self matches UserServiceError::EmailNotFound(s) ==> r@ == "User with email "@ + s@
                + " not found"@,
            self matches UserServiceError::UnableToDelete(s) ==> r@
                == "Unable to delete user with id "@ + s@,
            self is InvalidPassword ==> r@ == "Invalid password"@,
            self matches UserServiceError::DbError(f) ==> r@ == "Database error: "@ + f.message@,
            self matches UserServiceError::UnableToCreate(s) ==> r@
                == "Unable to create user with email "@ + s@,
            self matches UserServiceError::UserNotFound(s) ==> r@ == "user not found with id "@
                + s@,
            self matches UserServiceError::TokenError(t) ==> r@
                == "Error while generating JWT token:"@ + t.message@,
            self matches UserServiceError::BCryptError(h) ==> r@ == "Hash/ Decode error: "@
                + h.message@,
            self matches UserServiceError::Unkown(s) ==> r@ == s@,
    {
        match self {
            UserServiceError::EmailAlreadyExists(s) => concat3(
                "User with email ",
                s.as_str(),
                " already exists",
            ),
            UserServiceError::EmailNotFound(s) => concat3(
                "User with email ",
                s.as_str(),
                " not found",
            ),
            UserServiceError::UnableToDelete(s) => concat2(
                "Unable to delete user with id ",
                s.as_str(),
            ),
            UserServiceError::InvalidPassword(_) => owned("Invalid password"),
            UserServiceError::DbError(f) => concat2("Database error: ", f.message.as_str()),
            UserServiceError::UnableToCreate(s) => concat2(
                "Unable to create user with email ",
                s.as_str(),
            ),
            UserServiceError::UserNotFound(s) => concat2("user not found with id ", s.as_str()),
            UserServiceError::TokenError(t) => concat2(
                "Error while generating JWT token:",
                t.message.as_str(),
            ),
            UserServiceError::BCryptError(h) => concat2("Hash/ Decode error: ", h.message.as_str()),
            UserServiceError::Unkown(s) => owned(s.as_str()),
        }
    }

    /// The HTTP status code of the error's response.
    pub fn status_code(&self) -> (r: u16)
        ensures
            r == user_error_status(*self),
            r == 500 <==> self is DbError,
            r == 400 <==> !(self is DbError),
    {
        match self {
            UserServiceError::DbError(_) => 500,
            _ => 400,
        }
    }

    /// The body of the error's response.
    pub fn response_body(&self) -> (r: &'static str)
        ensures
            r@ == user_error_body(*self),
            self is DbError ==> r@ == "Internal server1 error"@,
            self is TokenError ==> r@ == "Jwt token error"@,
            !(self is DbError || self is TokenError) ==> r@ == "Something went wrong"@,
    {
        match self {
            UserServiceError::DbError(_) => "Internal server1 error",
            UserServiceError::TokenError(_) => "Jwt token error",
            _ => "Something went wrong",
        }
    }
}

/// An error's answer never carries its details: only a database failure is
/// answered with 500, every other error with 400, and the body is one of
/// three fixed texts, the same for any two errors of the same kind.
pub proof fn user_error_answers_are_fixed(e: UserServiceError)
    ensures
        user_error_status(e) == 500 <==> e is DbError,
        user_error_status(e) == 400 <==> !(e is DbError),
        user_error_body(e) == "Internal server1 error"@ || user_error_body(e)
            == "Jwt token error"@ || user_error_body(e) == "Something went wrong"@,
        e is DbError ==> user_error_body(e) == "Internal server1 error"@,
        e is TokenError ==> user_error_body(e) == "Jwt token error"@,
{
}

/// The claims of a log-in token.
#[derive(Debug, Clone)]
pub struct Claims {
    pub sub: String,
    pub email: String,
    pub is_admin: bool,
    pub plan: String,
    pub exp: usize,
}

/// The `exp` claim for an expiry at `exp` UNIX seconds (`exp as usize`).
pub open spec fn claim_expiry(exp: i64) -> usize {
    exp as usize
}

/// How long a log-in token lasts, in minutes.
pub const TOKEN_LIFETIME_MINUTES: i64 = 49;

impl Claims {
    /// The claims for `user` expiring at `exp` (UNIX seconds, converted to
    /// `usize` as `as` does): the subject is the user id in decimal and the
    /// user is an admin exactly when its `is_admin` column is 1.
    pub fn for_user(user: &User, exp: i64) -> (c: Claims)
        ensures
            c.sub@ == decimal(user.id as int),
            c.email == user.email,
            c.is_admin == (user.is_admin == 1),
            c.plan == user.subscription_plan,
            c.exp == claim_expiry(exp),
    {
        Claims {
            sub: decimal_string(user.id),
            email: user.email.clone(),
            is_admin: user.is_admin == 1,
            plan: user.subscription_plan.clone(),
            exp: exp as usize,
        }
    }
}

/// The expiry of a token issued at `now` (UNIX seconds).
pub open spec fn expiry_after(now: i64) -> i64 {
    (now + 60 * TOKEN_LIFETIME_MINUTES) as i64
}

/// Whether `c` holds the claims of `user` for a token issued at `now`: the
/// subject is the user id in decimal, the user is an admin exactly when its
/// `is_admin` column is 1, and the token expires `TOKEN_LIFETIME_MINUTES`
/// after `now`.
pub open spec fn claims_of(user: User, now: i64, c: Claims) -> bool {
    &&& c.sub@ == decimal(user.id as int)
    &&& c.email == user.email
    &&& c.is_admin == (user.is_admin == 1)
    &&& c.plan == user.subscription_plan
    &&& c.exp == claim_expiry(expiry_after(now))
}

/// A token lasts 49 minutes: the claims of a token issued at `now` name the
/// user by its id and expire 2940 seconds after `now`.
pub proof fn token_lasts_49_minutes(user: User, now: i64, c: Claims)
    requires
        claims_of(user, now, c),
        first_instant() <= now && now + 60 * TOKEN_LIFETIME_MINUTES <= last_instant(),
    ensures
        c.sub@ == decimal(user.id as int),
        0 <= now + 2940 <= usize::MAX ==> c.exp == now + 2940,
        c.exp == (now + 2940) as usize,
{
}

/// The claims for a token issued to `user` at `now` (UNIX seconds), expiring
/// `TOKEN_LIFETIME_MINUTES` later; `None` exactly when chrono cannot
/// represent `now` or that expiry as a date.
pub fn claims_at(user: &User, now: i64) -> (r: Option<Claims>)
    ensures
        r is Some <==> first_instant() <= now && now + 60 * TOKEN_LIFETIME_MINUTES
            <= last_instant(),
        r matches Some(c) ==> claims_of(*user, now, c),
        r matches Some(c) ==> c.exp == (now + 2940) as usize,
        r matches Some(c) ==> (c.sub@ == decimal(user.id as int) && c.email == user.email
            && c.is_admin == (user.is_admin == 1) && c.plan == user.subscription_plan),
{
    match timestamp_plus_minutes(now, TOKEN_LIFETIME_MINUTES) {
        Some(exp) => Some(Claims::for_user(user, exp)),
        None => None,
    }
}

/// A store result with its failure turned into the service's database error.
pub open spec fn lift_user_db<T>(found: Result<T, DbFailure>) -> Result<T, UserServiceError> {
    match found {
        Ok(v) => Ok(v),
        Err(f) => Err(UserServiceError::DbError(f)),
    }
}

fn pass_db<T>(found: Result<T, DbFailure>) -> (r: Result<T, UserServiceError>)
    ensures
        r == lift_user_db(found),
{
    match found {
        Ok(v) => Ok(v),
        Err(f) => Err(UserServiceError::DbError(f)),
    }
}

/// What `login_by_email` answers for `n_user`, given the user found by email.
pub open spec fn login_outcome(n_user: NUser, found: Result<Option<User>, DbFailure>) -> Option<
    User,
> {
    match found {
        Ok(Some(u)) => if bcrypt_verdict(n_user.pass@, u.password@) == Some(true) {
            Some(u)
        } else {
            None
        },
        _ => None,
    }
}

/// What `create_user` answers for `n_user`, given the lookup by email.
pub open spec fn create_user_outcome(
    n_user: NUser,
    existing: Result<Option<User>, DbFailure>,
    r: Result<String, UserServiceError>,
) -> bool {
    match existing {
        Ok(Some(_)) => r matches Err(UserServiceError::EmailAlreadyExists(s)) && s@
            == n_user.email@,
        Ok(None) => match r {
            Ok(h) => bcrypt_verdict(n_user.pass@, h@) == Some(true) && bcrypt_hash_form(h@),
            Err(e) => e matches UserServiceError::BCryptError(f) && starts_with(
                f.message@,
                "Rand error: "@,
            ),
        },
        Err(f) => r == Err::<String, UserServiceError>(UserServiceError::DbError(f)),
    }
}

/// A password chosen at sign-up lets its user in: when `create_user` gave a
/// hash for a form and the user is stored with that hash, `login_by_email`
/// with the same form answers that user.
pub proof fn signup_password_logs_in(
    n_user: NUser,
    existing: Result<Option<User>, DbFailure>,
    hash: String,
    stored: User,
)
    requires
        create_user_outcome(n_user, existing, Ok(hash)),
        stored.password == hash,
    ensures
        login_outcome(n_user, Ok(Some(stored))) == Some(stored),
{
}

/// Sign-up with a free email fails only where bcrypt itself failed to hash:
/// the error is then bcrypt's random-source failure, and its display text is
/// `Hash/ Decode error: Rand error: ...`. No email or password makes it fail.
pub proof fn free_email_fails_only_in_hashing(n_user: NUser, r: Result<String, UserServiceError>)
    requires
        create_user_outcome(n_user, Ok(None), r),
    ensures
        r matches Err(e) ==> (e matches UserServiceError::BCryptError(f) && starts_with(
            f.message@,
            "Rand error: "@,
        )),
        r matches Err(e) ==> starts_with(
            user_error_text(e),
            "Hash/ Decode error: Rand error: "@,
        ),
{
    reveal_strlit("Hash/ Decode error: ");
    reveal_strlit("Rand error: ");
    reveal_strlit("Hash/ Decode error: Rand error: ");
    if let Err(UserServiceError::BCryptError(f)) = r {
        let t = user_error_text(UserServiceError::BCryptError(f));
        let k = "Hash/ Decode error: "@.len() as int;
        assert(t =~= "Hash/ Decode error: "@ + f.message@);
        assert(t.subrange(0, k + 12) =~= "Hash/ Decode error: "@ + f.message@.subrange(0, 12));
        assert(t.subrange(0, k + 12) =~= "Hash/ Decode error: Rand error: "@);
    }
}

/// The user service.
pub struct UserService;

impl UserService {
    /// All users, as the store listed them.
    pub fn get_all_users(found: Result<Vec<User>, DbFailure>) -> (r: Result<
        Vec<User>,
        UserServiceError,
    >)
        ensures
            r == lift_user_db(found),
    {
        pass_db(found)
    }

    /// The user found under `email`, checked against the password of
    /// `n_user`: the user when the password matches its hash,
    /// `InvalidPassword("Invalid password")` when not, `UserNotFound(email)`
    /// when there is no such user.
    pub fn login_by_email(n_user: &NUser, found: Result<Option<User>, DbFailure>) -> (r: Result<
        User,
        UserServiceError,
    >)
        ensures
            match found {
                Ok(Some(u)) => if bcrypt_verdict(n_user.pass@, u.password@) == Some(true) {
                    r == Ok::<User, UserServiceError>(u)
                } else {
                    r matches Err(UserServiceError::InvalidPassword(s)) && s@
                        == "Invalid password"@
                },
                Ok(None) => r matches Err(UserServiceError::UserNotFound(s)) && s@
                    == n_user.email@,
                Err(f) => r == Err::<User, UserServiceError>(UserServiceError::DbError(f)),
            },
            r is Ok <==> login_outcome(*n_user, found) is Some,
            r matches Ok(u) ==> login_outcome(*n_user, found) == Some(u),
    {
        let user = Self::get_user_by_email(found, n_user.email.as_str())?;
        if !user.verify_password(n_user.pass.as_str()) {
            return Err(UserServiceError::InvalidPassword(owned("Invalid password")));
        }
        Ok(user)
    }

    /// The answer of a log-in once its token was encoded: the user id and the
    /// token, or the encoding failure as `TokenError`.
    pub fn issue_login(user: &User, token: Result<String, TokenFailure>) -> (r: Result<
        (i64, String),
        UserServiceError,
    >)
        ensures
            match token {
                Ok(t) => r == Ok::<(i64, String), UserServiceError>((user.id, t)),
                Err(f) => r == Err::<(i64, String), UserServiceError>(
                    UserServiceError::TokenError(f),
                ),
            },
    {
        match token {
            Ok(t) => Ok((user.id, t)),
            Err(f) => Err(UserServiceError::TokenError(f)),
        }
    }

    /// The password hash to store for a new user, given whether a user with
    /// the same email was found: `EmailAlreadyExists(email)` when one was,
    /// else the bcrypt hash of the password, which bcrypt accepts for it.
    pub fn create_user(n_user: &NUser, existing: Result<Option<User>, DbFailure>) -> (r: Result<
        String,
        UserServiceError,
    >)
        ensures
            create_user_outcome(*n_user, existing, r),
            existing matches Ok(Some(_)) ==> (r matches Err(
                UserServiceError::EmailAlreadyExists(s),
            ) && s@ == n_user.email@),
            existing matches Err(f) ==> r == Err::<String, UserServiceError>(
                UserServiceError::DbError(f),
            ),
            existing matches Ok(None) ==> (r matches Ok(h) ==> (bcrypt_verdict(n_user.pass@, h@)
                == Some(true) && bcrypt_hash_form(h@))),
            existing matches Ok(None) ==> (r matches Err(e) ==> (e matches UserServiceError::BCryptError(
                f,
            ) && starts_with(f.message@, "Rand error: "@))),
    {
        let found = pass_db(existing)?;
        if found.is_some() {
            return Err(UserServiceError::EmailAlreadyExists(n_user.email.clone()));
        }
        match bcrypt_hash(n_user.pass.as_str()) {
            Ok(h) => Ok(h),
            Err(t) => Err(UserServiceError::BCryptError(HashFailure { message: t })),
        }
    }

    /// The id of a newly inserted user (the insert's row id, cut to `i32`).
    pub fn created_user_id(inserted: Result<i64, DbFailure>) -> (r: Result<i32, UserServiceError>)
        ensures
            match inserted {
                Ok(rowid) => r == Ok::<i32, UserServiceError>(rowid as i32),
                Err(f) => r == Err::<i32, UserServiceError>(UserServiceError::DbError(f)),
            },
    {
        pass_db(User::create(inserted))
    }

    /// The user found under `id`, or `UserNotFound(id)`.
    pub fn get_user_by_id(found: Result<Option<User>, DbFailure>, id: &str) -> (r: Result<
        User,
        UserServiceError,
    >)
        ensures
            match found {
                Ok(Some(u)) => r == Ok::<User, UserServiceError>(u),
                Ok(None) => r matches Err(UserServiceError::UserNotFound(s)) && s@ == id@,
                Err(f) => r == Err::<User, UserServiceError>(UserServiceError::DbError(f)),
            },
    {
        match found {
            Ok(Some(u)) => Ok(u),
            Ok(None) => Err(UserServiceError::UserNotFound(owned(id))),
            Err(f) => Err(UserServiceError::DbError(f)),
        }
    }

    /// The user found under `email`, or `UserNotFound(email)`.
    pub fn get_user_by_email(found: Result<Option<User>, DbFailure>, email: &str) -> (r: Result<
        User,
        UserServiceError,
    >)
        ensures
            match found {
                Ok(Some(u)) => r == Ok::<User, UserServiceError>(u),
                Ok(None) => r matches Err(UserServiceError::UserNotFound(s)) && s@ == email@,
                Err(f) => r == Err::<User, UserServiceError>(UserServiceError::DbError(f)),
            },
    {
        match found {
            Ok(Some(u)) => Ok(u),
            Ok(None) => Err(UserServiceError::UserNotFound(owned(email))),
            Err(f) => Err(UserServiceError::DbError(f)),
        }
    }

    /// The outcome of recording a deletion request.
    pub fn request_deletion(marked: Result<(), DbFailure>) -> (r: Result<(), UserServiceError>)
        ensures
            r == lift_user_db(marked),
    {
        pass_db(marked)
    }

    /// Success when the delete removed exactly one row, else `UserNotFound(id)`.
    pub fn del_user_by_id(deleted: Result<u64, DbFailure>, id: &str) -> (r: Result<
        (),
        UserServiceError,
    >)
        ensures
            match deleted {
                Ok(n) => if n == 1 {
                    r is Ok
                } else {
                    r matches Err(UserServiceError::UserNotFound(s)) && s@ == id@
                },
                Err(f) => r == Err::<(), UserServiceError>(UserServiceError::DbError(f)),
            },
    {
        match deleted {
            Ok(n) => if n == 1 {
                Ok(())
            } else {
                Err(UserServiceError::UserNotFound(owned(id)))
            },
            Err(f) => Err(UserServiceError::DbError(f)),
        }
    }

    /// The outcome of a password update; any store failure becomes
    /// `Unkown("unable to update password")`.
    pub fn update_password_by_id(updated: Result<(), DbFailure>) -> (r: Result<
        (),
        UserServiceError,
    >)
        ensures
            match updated {
                Ok(_) => r is Ok,
                Err(_) => r matches Err(UserServiceError::Unkown(s)) && s@
                    == "unable to update password"@,
            },
    {
        match updated {
            Ok(_) => Ok(()),
            Err(_) => Err(UserServiceError::Unkown(owned("unable to update password"))),
        }
    }
}

} // verus!
