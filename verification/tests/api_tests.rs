use netflix_clone::api::admin_routes::{upload_movie, MAX_SIZE};
use netflix_clone::api::auth_routes::{login, signup, NUser};
use netflix_clone::api::bearer_token;
use netflix_clone::api::movie_routes::{
    del_movie_by_id, like_movie, require_login, unlike_movie, update_movie_by_id,
};
use netflix_clone::api::user_routes::{
    del_user_by_id, deletion_requested, password_updated, update_password,
};
use netflix_clone::services::movie_service::MovieSError;
use netflix_clone::services::user_service::UserServiceError;

fn no_oauth(r: Result<String, netflix_clone::api::Reply>) {
    let e = r.unwrap_err();
    assert_eq!(e.status, 400);
    assert_eq!(e.body, "no oauth provided");
}

#[test]
fn bearer_token_plain() {
    assert_eq!(bearer_token(Some("Bearer abc.def.ghi")).unwrap(), "abc.def.ghi");
}

#[test]
fn bearer_token_is_trimmed() {
    assert_eq!(bearer_token(Some("Bearer    tok  \t")).unwrap(), "tok");
}

#[test]
fn bearer_token_repeated_scheme_is_stripped() {
    assert_eq!(bearer_token(Some("Bearer Bearer tok")).unwrap(), "tok");
}

#[test]
fn bearer_token_missing_header() {
    no_oauth(bearer_token(None));
}

#[test]
fn bearer_token_other_scheme() {
    no_oauth(bearer_token(Some("Basic abc")));
    no_oauth(bearer_token(Some("bearer abc")));
    no_oauth(bearer_token(Some("Bearer")));
}

#[test]
fn bearer_token_blank() {
    no_oauth(bearer_token(Some("Bearer ")));
    no_oauth(bearer_token(Some("Bearer  \t\u{3000}")));
}

#[test]
fn bearer_token_round_trip_on_a_value() {
    let token = "eyJ0eXAi.x-y_z";
    let header = format!("Bearer {}", token);
    assert_eq!(bearer_token(Some(&header)).unwrap(), token);
}

#[test]
fn upload_chunks_within_limit() {
    assert_eq!(upload_movie(0, 10).unwrap(), 10);
    assert_eq!(upload_movie(MAX_SIZE - 5, 5).unwrap(), MAX_SIZE);
    assert_eq!(MAX_SIZE, 262144);
}

#[test]
fn upload_chunk_over_limit() {
    let e = upload_movie(MAX_SIZE, 1).unwrap_err();
    assert_eq!(e.status, 400);
    assert_eq!(e.body, "overflow");
    assert!(upload_movie(u64::MAX, u64::MAX).is_err());
    assert!(upload_movie(1, u64::MAX).is_err());
}

#[test]
fn upload_body_never_exceeds_limit() {
    let mut len = 0u64;
    for chunk in [MAX_SIZE / 2, MAX_SIZE / 3, MAX_SIZE / 3, 7, MAX_SIZE] {
        if let Ok(n) = upload_movie(len, chunk) {
            len = n;
        }
        assert!(len <= MAX_SIZE);
    }
}

#[test]
fn signup_reply() {
    let n = NUser { email: "a@b.c".to_string(), pass: "pw".to_string() };
    let r = signup(Ok(5), &n).unwrap();
    assert_eq!(r.status, 201);
    assert_eq!(r.body, "user created with id 5 and email a@b.c");
    let e = signup(Err(UserServiceError::Unkown("x".to_string())), &n).unwrap_err();
    assert!(matches!(e, UserServiceError::Unkown(s) if s == "x"));
}

#[test]
fn login_reply() {
    let (ident, r) = login(Ok((-12, "tok".to_string()))).unwrap();
    assert_eq!(ident, "-12");
    assert_eq!(r.status, 200);
    assert_eq!(r.body, "tok");
    assert!(login(Err(UserServiceError::InvalidPassword("Invalid password".into()))).is_err());
}

#[test]
fn login_is_required_for_likes() {
    assert_eq!(require_login(Some("3".to_string())).unwrap(), "3");
    let e = require_login(None).unwrap_err();
    assert_eq!(e.status, 400);
    assert_eq!(e.body, "You must be logged in");
}

#[test]
fn movie_handler_replies() {
    assert_eq!(like_movie(Ok(())).unwrap().body, "success");
    assert_eq!(unlike_movie(Ok(())).unwrap().body, "success");
    assert_eq!(del_movie_by_id(Ok(())).unwrap().body, "Deleted.");
    let r = update_movie_by_id(Ok(())).unwrap();
    assert_eq!(r.status, 200);
    assert_eq!(r.body, "movie update ");
    assert!(matches!(
        like_movie(Err(MovieSError::Unkown("Unable to like".into()))),
        Err(MovieSError::Unkown(_))
    ));
}

#[test]
fn profile_deletion_needs_a_session_with_an_id() {
    assert_eq!(del_user_by_id(Some(Some("9".into()))).unwrap(), "9");
    let e = del_user_by_id(Some(None)).unwrap_err();
    assert_eq!((e.status, e.body.as_str()), (403, "Login to delete profile"));
    let e = del_user_by_id(None).unwrap_err();
    assert_eq!(
        (e.status, e.body.as_str()),
        (400, "Please login again. Your sesison has been deleted.")
    );
    let r = deletion_requested(Ok(())).unwrap();
    assert_eq!((r.status, r.body.as_str()), (200, "success login again in 1hour to cancel."));
}

#[test]
fn password_change_only_for_oneself() {
    assert!(update_password("12", "12").is_ok());
    let e = update_password("12", "13").unwrap_err();
    assert_eq!((e.status, e.body.as_str()), (403, "please login first"));
    let r = password_updated("12", Ok(())).unwrap();
    assert_eq!((r.status, r.body.as_str()), (200, "user deleted with id 12"));
}

#[test]
fn upload_limit_is_256_kib() {
    assert_eq!(upload_movie(0, 262144).unwrap(), 262144);
    assert!(upload_movie(0, 262145).is_err());
    assert!(upload_movie(262144, 1).is_err());
}
