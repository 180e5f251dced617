//! The movie handlers: the form they read and the replies they give.

use crate::api::{reply, Reply};
use crate::services::movie_service::MovieSError;
use vstd::prelude::*;

verus! {

/// The form that creates or updates a movie.
#[derive(Debug, Clone)]
pub struct NMovie {
    pub title: String,
    pub genre: String,
    pub release_year: String,
}

/// The logged-in user's id, or the 400 reply `You must be logged in`.
pub fn require_login(identity: Option<String>) -> (r: Result<String, Reply>)
    ensures
        match identity {
            Some(id) => r == Ok::<String, Reply>(id),
            None => r matches Err(e) && e.status == 400 && e.body@ == "You must be logged in"@,
        },
{
    match identity {
        Some(id) => Ok(id),
        None => Err(reply(400, "You must be logged in")),
    }
}

/// The 200 reply with `body` once the service succeeded; its error is passed on.
pub open spec fn done_with(outcome: Result<(), MovieSError>, body: Seq<char>, r: Result<
    Reply,
    MovieSError,
>) -> bool {
    match outcome {
        Ok(_) => r matches Ok(rep) && rep.status == 200 && rep.body@ == body,
        Err(e) => r == Err::<Reply, MovieSError>(e),
    }
}

fn done(outcome: Result<(), MovieSError>, body: &str) -> (r: Result<Reply, MovieSError>)
    ensures
        done_with(outcome, body@, r),
{
    match outcome {
        Ok(_) => Ok(reply(200, body)),
        Err(e) => Err(e),
    }
}

/// The reply to a like: 200 `success`.
pub fn like_movie(liked: Result<(), MovieSError>) -> (r: Result<Reply, MovieSError>)
    ensures
        done_with(liked, "success"@, r),
        liked is Ok ==> (r matches Ok(rep) && rep.status == 200 && rep.body@ == "success"@),
        liked matches Err(e) ==> r == Err::<Reply, MovieSError>(e),
{
    done(liked, "success")
}

/// The reply to an unlike: 200 `success`.
pub fn unlike_movie(unliked: Result<(), MovieSError>) -> (r: Result<Reply, MovieSError>)
    ensures
        done_with(unliked, "success"@, r),
        unliked is Ok ==> (r matches Ok(rep) && rep.status == 200 && rep.body@ == "success"@),
        unliked matches Err(e) ==> r == Err::<Reply, MovieSError>(e),
{
    done(unliked, "success")
}

/// The reply to a deletion: 200 `Deleted.`.
pub fn del_movie_by_id(deleted: Result<(), MovieSError>) -> (r: Result<Reply, MovieSError>)
    ensures
        done_with(deleted, "Deleted."@, r),
        deleted is Ok ==> (r matches Ok(rep) && rep.status == 200 && rep.body@ == "Deleted."@),
        deleted matches Err(e) ==> r == Err::<Reply, MovieSError>(e),
{
    done(deleted, "Deleted.")
}

/// The reply to an update: 200 `movie update ` (with its trailing space).
pub fn update_movie_by_id(updated: Result<(), MovieSError>) -> (r: Result<Reply, MovieSError>)
    ensures
        done_with(updated, "movie update "@, r),
        updated is Ok ==> (r matches Ok(rep) && rep.status == 200 && rep.body@ == "movie update "@),
        updated matches Err(e) ==> r == Err::<Reply, MovieSError>(e),
{
    done(updated, "movie update ")
}

} // verus!
