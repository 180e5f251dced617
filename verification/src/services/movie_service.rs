//! The movie service: its errors, how each maps to an HTTP answer, and what
//! each operation answers given what the store returned.

use crate::models::movie_model::Movie;
use crate::models::DbFailure;
use crate::text::{concat2, concat3, owned};
use vstd::prelude::*;

verus! {

/// Errors of the movie service.
#[derive(Debug, Clone)]
pub enum MovieSError {
    AlreadyExists(String),
    NotFound(String),
    UnableToDelete(String),
    DbError(DbFailure),
    UnableToCreate(String),
    Unkown(String),
}

/// The display text of a movie service error.
pub open spec fn movie_error_text(e: MovieSError) -> Seq<char> {
    match e {
        MovieSError::AlreadyExists(s) => "Movie "@ + s@ + " already exists"@,
        MovieSError::NotFound(s) => s@ + " not found"@,
        MovieSError::UnableToDelete(s) => "Unable to delete "@ + s@,
        MovieSError::DbError(f) => "Database error: "@ + f.message@,
        MovieSError::UnableToCreate(s) => "Unable to create "@ + s@,
        MovieSError::Unkown(s) => s@,
    }
}

/// The HTTP status answered for a movie service error.
pub open spec fn movie_error_status(e: MovieSError) -> u16 {
    match e {
        MovieSError::DbError(_) => 500,
        MovieSError::NotFound(_) => 404,
        MovieSError::AlreadyExists(_) => 409,
        _ => 400,
    }
}

/// The body answered for a movie service error.
pub open spec fn movie_error_body(e: MovieSError) -> Seq<char> {
    match e {
        MovieSError::DbError(_) => "Internal server1 error"@,
        MovieSError::NotFound(_) => "Not found"@,
        MovieSError::AlreadyExists(_) => "Already present"@,
        _ => "Something went wrong"@,
    }
}

impl MovieSError {
    /// The display text of the error.
    pub fn message(&self) -> (r: String)
        ensures
            r@ == movie_error_text(*self),
            self matches MovieSError::AlreadyExists(s) ==> r@ == "Movie "@ + s@
                + " already exists"@,
            self matches MovieSError::NotFound(s) ==> r@ == s@ + " not found"@,
            self matches MovieSError::UnableToDelete(s) ==> r@ == "Unable to delete "@ + s@,
            self matches MovieSError::DbError(f) ==> r@ == "Database error: "@ + f.message@,
            self matches MovieSError::UnableToCreate(s) ==> r@ == "Unable to create "@ + s@,
            self matches MovieSError::Unkown(s) ==> r@ == s@,
    {
        match self {
            MovieSError::AlreadyExists(s) => concat3("Movie ", s.as_str(), " already exists"),
            MovieSError::NotFound(s) => concat2(s.as_str(), " not found"),
            MovieSError::UnableToDelete(s) => concat2("Unable to delete ", s.as_str()),
            MovieSError::DbError(f) => concat2("Database error: ", f.message.as_str()),
            MovieSError::UnableToCreate(s) => concat2("Unable to create ", s.as_str()),
            MovieSError::Unkown(s) => owned(s.as_str()),
        }
    }

    /// The HTTP status code of the error's response.
    pub fn status_code(&self) -> (r: u16)
        ensures
            r == movie_error_status(*self),
            r == 500 <==> self is DbError,
            r == 404 <==> self is NotFound,
            r == 409 <==> self is AlreadyExists,
            r == 400 <==> !(self is DbError || self is NotFound || self is AlreadyExists),
    {
        match self {
            MovieSError::DbError(_) => 500,
            MovieSError::NotFound(_) => 404,
            MovieSError::AlreadyExists(_) => 409,
            _ => 400,
        }
    }

    /// The body of the error's response.
    pub fn response_body(&self) -> (r: &'static str)
        ensures
            r@ == movie_error_body(*self),
            self is DbError ==> r@ == "Internal server1 error"@,
            self is NotFound ==> r@ == "Not found"@,
            self is AlreadyExists ==> r@ == "Already present"@,
            !(self is DbError || self is NotFound || self is AlreadyExists) ==> r@
                == "Something went wrong"@,
    {
        match self {
            MovieSError::DbError(_) => "Internal server1 error",
            MovieSError::NotFound(_) => "Not found",
            MovieSError::AlreadyExists(_) => "Already present",
            _ => "Something went wrong",
        }
    }
}

/// An error's answer never carries its details: its status tells the kind
/// apart (500 for a database failure, 404 for a missing movie, 409 for a
/// duplicate, 400 otherwise) and its body is one of four fixed texts.
pub proof fn movie_error_answers_are_fixed(e: MovieSError)
    ensures
        movie_error_status(e) == 500 <==> e is DbError,
        movie_error_status(e) == 404 <==> e is NotFound,
        movie_error_status(e) == 409 <==> e is AlreadyExists,
        movie_error_body(e) == "Internal server1 error"@ || movie_error_body(e) == "Not found"@
            || movie_error_body(e) == "Already present"@ || movie_error_body(e)
            == "Something went wrong"@,
{
}

/// A store result with its failure turned into the service's database error.
pub open spec fn lift_db<T>(found: Result<T, DbFailure>) -> Result<T, MovieSError> {
    match found {
        Ok(v) => Ok(v),
        Err(f) => Err(MovieSError::DbError(f)),
    }
}

fn pass_db<T>(found: Result<T, DbFailure>) -> (r: Result<T, MovieSError>)
    ensures
        r == lift_db(found),
{
    match found {
        Ok(v) => Ok(v),
        Err(f) => Err(MovieSError::DbError(f)),
    }
}

/// The movie service.
pub struct MovieService;

impl MovieService {
    /// All movies, as the store listed them.
    pub fn get_all_movies(found: Result<Vec<Movie>, DbFailure>) -> (r: Result<Vec<Movie>, MovieSError>)
        ensures
            r == lift_db(found),
    {
        pass_db(found)
    }

    /// The movies that a user liked, as the store listed them.
    pub fn get_all_liked_movie(found: Result<Vec<Movie>, DbFailure>) -> (r: Result<
        Vec<Movie>,
        MovieSError,
    >)
        ensures
            r == lift_db(found),
    {
        pass_db(found)
    }

    /// The id of a newly inserted movie (the insert's row id, cut to `i32`).
    pub fn create_movie(inserted: Result<i64, DbFailure>) -> (r: Result<i32, MovieSError>)
        ensures
            match inserted {
                Ok(rowid) => r == Ok::<i32, MovieSError>(rowid as i32),
                Err(f) => r == Err::<i32, MovieSError>(MovieSError::DbError(f)),
            },
    {
        pass_db(Movie::create(inserted))
    }

    /// The movie found under `id`, or `NotFound(id)`.
    pub fn get_movie_by_id(found: Result<Option<Movie>, DbFailure>, id: &str) -> (r: Result<
        Movie,
        MovieSError,
    >)
        ensures
            match found {
                Ok(Some(m)) => r == Ok::<Movie, MovieSError>(m),
                Ok(None) => r matches Err(MovieSError::NotFound(s)) && s@ == id@,
                Err(f) => r == Err::<Movie, MovieSError>(MovieSError::DbError(f)),
            },
    {
        match found {
            Ok(Some(m)) => Ok(m),
            Ok(None) => Err(MovieSError::NotFound(owned(id))),
            Err(f) => Err(MovieSError::DbError(f)),
        }
    }

    /// Success when the delete removed exactly one row, else `NotFound(id)`.
    pub fn del_movie_by_id(deleted: Result<u64, DbFailure>, id: &str) -> (r: Result<
        (),
        MovieSError,
    >)
        ensures
            match deleted {
                Ok(n) => if n == 1 {
                    r is Ok
                } else {
                    r matches Err(MovieSError::NotFound(s)) && s@ == id@
                },
                Err(f) => r == Err::<(), MovieSError>(MovieSError::DbError(f)),
            },
    {
        match deleted {
            Ok(n) => if n == 1 {
                Ok(())
            } else {
                Err(MovieSError::NotFound(owned(id)))
            },
            Err(f) => Err(MovieSError::DbError(f)),
        }
    }

    /// The outcome of an update; any store failure becomes `Unkown("unable to update")`.
    pub fn update_by_id(updated: Result<(), DbFailure>) -> (r: Result<(), MovieSError>)
        ensures
            match updated {
                Ok(_) => r is Ok,
                Err(_) => r matches Err(MovieSError::Unkown(s)) && s@ == "unable to update"@,
            },
    {
        match updated {
            Ok(_) => Ok(()),
            Err(_) => Err(MovieSError::Unkown(owned("unable to update"))),
        }
    }

    /// The outcome of recording a like; any store failure becomes `Unkown("Unable to like")`.
    pub fn like_movie(liked: Result<(), DbFailure>) -> (r: Result<(), MovieSError>)
        ensures
            match liked {
                Ok(_) => r is Ok,
                Err(_) => r matches Err(MovieSError::Unkown(s)) && s@ == "Unable to like"@,
            },
    {
        match liked {
            Ok(_) => Ok(()),
            Err(_) => Err(MovieSError::Unkown(owned("Unable to like"))),
        }
    }

    /// The outcome of removing a like; any store failure becomes
    /// `Unkown("Unable to like")` (the same text as for a like).
    pub fn unlike_movie(unliked: Result<(), DbFailure>) -> (r: Result<(), MovieSError>)
        ensures
            match unliked {
                Ok(_) => r is Ok,
                Err(_) => r matches Err(MovieSError::Unkown(s)) && s@ == "Unable to like"@,
            },
    {
        match unliked {
            Ok(_) => Ok(()),
            Err(_) => Err(MovieSError::Unkown(owned("Unable to like"))),
        }
    }
}

} // verus!
