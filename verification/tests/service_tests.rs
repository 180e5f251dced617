use netflix_clone::api::auth_routes::NUser;
use netflix_clone::models::movie_model::Movie;
use netflix_clone::models::user_model::User;
use netflix_clone::models::{DbFailure, DbFailureKind};
use netflix_clone::services::movie_service::{MovieSError, MovieService};
use netflix_clone::services::user_service::{
    claims_at, Claims, HashFailure, TokenFailure, UserService, UserServiceError,
};

fn db(msg: &str) -> DbFailure {
    DbFailure { kind: DbFailureKind::Other, message: msg.to_string(), detail: format!("{:?}", msg) }
}

fn movie(id: i64) -> Movie {
    Movie {
        id,
        title: "Up".into(),
        genre: "Family".into(),
        release_year: 2009,
        created: "2024-01-01".into(),
    }
}

fn user(id: i64, password: &str, is_admin: i64) -> User {
    User {
        id,
        email: "ann@example.com".into(),
        password: password.into(),
        subscription_plan: "basic".into(),
        is_banned: 0,
        created_at: "c".into(),
        updated_at: "u".into(),
        is_admin,
        data_usage: 0,
    }
}

fn form(pass: &str) -> NUser {
    NUser { email: "ann@example.com".into(), pass: pass.into() }
}

#[test]
fn movie_error_texts() {
    assert_eq!(MovieSError::AlreadyExists("Up".into()).message(), "Movie Up already exists");
    assert_eq!(MovieSError::NotFound("7".into()).message(), "7 not found");
    assert_eq!(MovieSError::UnableToDelete("7".into()).message(), "Unable to delete 7");
    assert_eq!(MovieSError::DbError(db("boom")).message(), "Database error: boom");
    assert_eq!(MovieSError::UnableToCreate("Up".into()).message(), "Unable to create Up");
    assert_eq!(MovieSError::Unkown("odd".into()).message(), "odd");
}

#[test]
fn movie_error_responses() {
    let cases = [
        (MovieSError::DbError(db("x")), 500, "Internal server1 error"),
        (MovieSError::NotFound("1".into()), 404, "Not found"),
        (MovieSError::AlreadyExists("1".into()), 409, "Already present"),
        (MovieSError::UnableToDelete("1".into()), 400, "Something went wrong"),
        (MovieSError::UnableToCreate("1".into()), 400, "Something went wrong"),
        (MovieSError::Unkown("1".into()), 400, "Something went wrong"),
    ];
    for (e, status, body) in cases {
        assert_eq!(e.status_code(), status);
        assert_eq!(e.response_body(), body);
    }
}

#[test]
fn movie_lookups() {
    let m = MovieService::get_movie_by_id(Ok(Some(movie(3))), "3").unwrap();
    assert_eq!(m.id, 3);
    assert!(matches!(
        MovieService::get_movie_by_id(Ok(None), "3"),
        Err(MovieSError::NotFound(s)) if s == "3"
    ));
    assert!(matches!(
        MovieService::get_movie_by_id(Err(db("down")), "3"),
        Err(MovieSError::DbError(f)) if f.message == "down"
    ));
    assert_eq!(MovieService::get_all_movies(Ok(vec![movie(1), movie(2)])).unwrap().len(), 2);
    assert!(MovieService::get_all_liked_movie(Err(db("x"))).is_err());
}

#[test]
fn movie_creation_and_deletion() {
    assert_eq!(MovieService::create_movie(Ok(41)).unwrap(), 41);
    assert_eq!(MovieService::create_movie(Ok((1i64 << 32) + 5)).unwrap(), 5);
    assert_eq!(Movie::create(Ok(-1)).unwrap(), -1);
    assert!(MovieService::del_movie_by_id(Ok(1), "4").is_ok());
    assert!(matches!(
        MovieService::del_movie_by_id(Ok(0), "4"),
        Err(MovieSError::NotFound(s)) if s == "4"
    ));
    assert!(matches!(MovieService::del_movie_by_id(Ok(2), "4"), Err(MovieSError::NotFound(_))));
}

#[test]
fn movie_updates_and_likes() {
    assert!(MovieService::update_by_id(Ok(())).is_ok());
    assert!(matches!(
        MovieService::update_by_id(Err(db("x"))),
        Err(MovieSError::Unkown(s)) if s == "unable to update"
    ));
    assert!(matches!(
        MovieService::like_movie(Err(db("x"))),
        Err(MovieSError::Unkown(s)) if s == "Unable to like"
    ));
    assert!(matches!(
        MovieService::unlike_movie(Err(db("x"))),
        Err(MovieSError::Unkown(s)) if s == "Unable to like"
    ));
    assert!(MovieService::like_movie(Ok(())).is_ok());
}

#[test]
fn user_error_texts() {
    let t = |e: UserServiceError| e.message();
    assert_eq!(t(UserServiceError::EmailAlreadyExists("a".into())), "User with email a already exists");
    assert_eq!(t(UserServiceError::EmailNotFound("a".into())), "User with email a not found");
    assert_eq!(t(UserServiceError::UnableToDelete("3".into())), "Unable to delete user with id 3");
    assert_eq!(t(UserServiceError::InvalidPassword("whatever".into())), "Invalid password");
    assert_eq!(t(UserServiceError::DbError(db("d"))), "Database error: d");
    assert_eq!(t(UserServiceError::UnableToCreate("a".into())), "Unable to create user with email a");
    assert_eq!(t(UserServiceError::UserNotFound("3".into())), "user not found with id 3");
    assert_eq!(
        t(UserServiceError::TokenError(TokenFailure { message: "bad".into() })),
        "Error while generating JWT token:bad"
    );
    assert_eq!(
        t(UserServiceError::BCryptError(HashFailure { message: "h".into() })),
        "Hash/ Decode error: h"
    );
    assert_eq!(t(UserServiceError::Unkown("u".into())), "u");
}

#[test]
fn user_error_responses() {
    assert_eq!(UserServiceError::DbError(db("d")).status_code(), 500);
    assert_eq!(UserServiceError::DbError(db("d")).response_body(), "Internal server1 error");
    let tok = UserServiceError::TokenError(TokenFailure { message: "x".into() });
    assert_eq!((tok.status_code(), tok.response_body()), (400, "Jwt token error"));
    let other = UserServiceError::UserNotFound("1".into());
    assert_eq!((other.status_code(), other.response_body()), (400, "Something went wrong"));
}

#[test]
fn sign_up_then_log_in() {
    let n = form("hunter2");
    let hash = UserService::create_user(&n, Ok(None)).unwrap();
    assert_ne!(hash, "hunter2");
    assert!(hash.starts_with("$2b$12$"));
    let stored = user(7, &hash, 0);
    assert!(stored.verify_password("hunter2"));
    assert!(!stored.verify_password("hunter3"));
    let logged = UserService::login_by_email(&n, Ok(Some(stored))).unwrap();
    assert_eq!(logged.id, 7);
    assert!(matches!(
        UserService::login_by_email(&form("wrong"), Ok(Some(user(7, &hash, 0)))),
        Err(UserServiceError::InvalidPassword(s)) if s == "Invalid password"
    ));
}

#[test]
fn log_in_failures() {
    let n = form("pw");
    assert!(matches!(
        UserService::login_by_email(&n, Ok(None)),
        Err(UserServiceError::UserNotFound(s)) if s == "ann@example.com"
    ));
    assert!(matches!(
        UserService::login_by_email(&n, Err(db("x"))),
        Err(UserServiceError::DbError(_))
    ));
    // a stored value that is not a bcrypt hash never matches
    assert!(!user(1, "pw", 0).verify_password("pw"));
    assert!(matches!(
        UserService::login_by_email(&n, Ok(Some(user(1, "pw", 0)))),
        Err(UserServiceError::InvalidPassword(_))
    ));
}

#[test]
fn known_bcrypt_hash_verifies() {
    let u = user(1, "$2b$04$EGdrhbKUv8Oc9vGiXX0HQOxSg445d458Muh7DAHskb6QbtCvdxcie", 0);
    assert!(u.verify_password("correctbatteryhorsestapler"));
    assert!(!u.verify_password("wrong"));
}

#[test]
fn sign_up_with_taken_email() {
    let n = form("pw");
    assert!(matches!(
        UserService::create_user(&n, Ok(Some(user(1, "h", 0)))),
        Err(UserServiceError::EmailAlreadyExists(s)) if s == "ann@example.com"
    ));
    assert!(matches!(UserService::create_user(&n, Err(db("x"))), Err(UserServiceError::DbError(_))));
    assert_eq!(UserService::created_user_id(Ok(12)).unwrap(), 12);
    assert!(UserService::created_user_id(Err(db("x"))).is_err());
}

#[test]
fn issuing_a_login() {
    let u = user(5, "h", 0);
    assert_eq!(UserService::issue_login(&u, Ok("tok".into())).unwrap(), (5, "tok".to_string()));
    assert!(matches!(
        UserService::issue_login(&u, Err(TokenFailure { message: "m".into() })),
        Err(UserServiceError::TokenError(f)) if f.message == "m"
    ));
}

#[test]
fn user_lookups_and_changes() {
    assert_eq!(UserService::get_user_by_id(Ok(Some(user(2, "h", 0))), "2").unwrap().id, 2);
    assert!(matches!(
        UserService::get_user_by_id(Ok(None), "2"),
        Err(UserServiceError::UserNotFound(s)) if s == "2"
    ));
    assert!(matches!(
        UserService::get_user_by_email(Ok(None), "x@y"),
        Err(UserServiceError::UserNotFound(s)) if s == "x@y"
    ));
    assert!(UserService::del_user_by_id(Ok(1), "2").is_ok());
    assert!(matches!(
        UserService::del_user_by_id(Ok(0), "2"),
        Err(UserServiceError::UserNotFound(s)) if s == "2"
    ));
    assert!(UserService::request_deletion(Ok(())).is_ok());
    assert!(matches!(UserService::request_deletion(Err(db("x"))), Err(UserServiceError::DbError(_))));
    assert!(matches!(
        UserService::update_password_by_id(Err(db("x"))),
        Err(UserServiceError::Unkown(s)) if s == "unable to update password"
    ));
    assert_eq!(UserService::get_all_users(Ok(vec![user(1, "h", 0)])).unwrap().len(), 1);
}

#[test]
fn claims_for_a_user() {
    let c = Claims::for_user(&user(42, "h", 1), 1_700_000_000);
    assert_eq!(c.sub, "42");
    assert_eq!(c.email, "ann@example.com");
    assert!(c.is_admin);
    assert_eq!(c.plan, "basic");
    assert_eq!(c.exp, 1_700_000_000usize);
    assert!(!Claims::for_user(&user(42, "h", 2), 0).is_admin);
}

#[test]
fn claims_issued_now_expire_in_49_minutes() {
    let before = std::time::SystemTime::now()
        .duration_since(std::time::UNIX_EPOCH)
        .unwrap()
        .as_secs() as usize;
    let now = std::time::SystemTime::now()
        .duration_since(std::time::UNIX_EPOCH)
        .unwrap()
        .as_secs() as i64;
    let c = claims_at(&user(3, "h", 0), now).unwrap();
    let after = std::time::SystemTime::now()
        .duration_since(std::time::UNIX_EPOCH)
        .unwrap()
        .as_secs() as usize;
    assert!(c.exp >= before + 49 * 60 && c.exp <= after + 49 * 60);
    assert_eq!(c.sub, "3");
    assert!(!c.is_admin);
}

#[test]
fn claims_at_a_clock_reading() {
    let c = claims_at(&user(9, "h", 1), 1_700_000_000).unwrap();
    assert_eq!(c.exp, 1_700_002_940usize);
    assert_eq!(c.sub, "9");
    assert!(c.is_admin);
    assert_eq!(c.plan, "basic");
    assert_eq!(claims_at(&user(9, "h", 0), 0).unwrap().exp, 2940usize);
    assert!(claims_at(&user(9, "h", 0), i64::MAX).is_none());
    assert!(claims_at(&user(9, "h", 0), 8_210_266_876_799).is_none());
    assert!(claims_at(&user(9, "h", 0), 8_210_266_876_799 - 2940).is_some());
    assert!(claims_at(&user(9, "h", 0), 8_210_266_876_799 - 2939).is_none());
    assert!(claims_at(&user(9, "h", 0), -8_334_601_228_800).is_some());
    assert!(claims_at(&user(9, "h", 0), -8_334_601_228_801).is_none());
}

#[test]
fn stored_hash_has_bcrypt_form() {
    let h = UserService::create_user(&form("p"), Ok(None)).unwrap();
    assert_eq!(h.len(), 60);
    assert!(h.starts_with("$2b$12$"));
    assert!(h[7..].chars().all(|c| c == '.' || c == '/' || c.is_ascii_alphanumeric()));
}
