use netflix_clone::models::{DbFailure, DbFailureKind};
use netflix_clone::traits::crud::{mm, Crud, CrudOps, User as CrudUser};
use netflix_clone::user::model::{IoFailure, IoKind, MyError, User};

fn named(id: i32) -> User {
    User {
        id,
        name: "Ann".into(),
        email: "ann@example.com".into(),
        password: "h".into(),
        subscription_plan: "basic".into(),
        is_banned: false,
        created_at: "c".into(),
        is_admin: false,
        data_usage: 0,
    }
}

fn io(msg: &str) -> IoFailure {
    IoFailure { kind: IoKind::Other, message: msg.into() }
}

fn failure(kind: DbFailureKind) -> DbFailure {
    DbFailure { kind, message: "m".into(), detail: "RowNotFound".into() }
}

#[test]
fn lookup_found() {
    let u = User::find_user_by_email("ann@example.com", Ok(()), Ok(Some(named(4))), Ok(())).unwrap();
    assert_eq!(u.id, 4);
}

#[test]
fn lookup_missing_user() {
    let e = User::find_user_by_email("x@y", Ok(()), Ok(None), Ok(())).unwrap_err();
    assert!(matches!(&e, MyError::UserNotFound { user } if user == "x@y"));
    assert_eq!(e.message(), "User Not Found  with   x@y");
}

#[test]
fn lookup_first_failure_wins() {
    let e = User::find_user_by_email("a", Err(io("first")), Err(failure(DbFailureKind::Other)), Err(io("third")))
        .unwrap_err();
    assert!(matches!(e, MyError::IooError(f) if f.message == "first"));
    let e = User::find_user_by_email("a", Ok(()), Ok(None), Err(io("third"))).unwrap_err();
    assert!(matches!(e, MyError::IooError(f) if f.message == "third"));
}

#[test]
fn lookup_query_failures() {
    let e = User::find_user_by_email("a", Ok(()), Err(failure(DbFailureKind::RowNotFound)), Ok(()))
        .unwrap_err();
    assert!(matches!(&e, MyError::IooError(f) if f.kind == IoKind::NotFound && f.message == "mapped to the error : RowNotFound"));
    assert_eq!(e.message(), "inpuuut  /o  error: mapped to the error : RowNotFound");
    let e = User::find_user_by_email("a", Ok(()), Err(failure(DbFailureKind::Database)), Ok(()))
        .unwrap_err();
    assert!(matches!(e, MyError::IooError(f) if f.kind == IoKind::NotFound));
    let e = User::find_user_by_email("a", Ok(()), Err(failure(DbFailureKind::Other)), Ok(()))
        .unwrap_err();
    assert!(matches!(&e, MyError::DbError(_)));
    assert_eq!(e.message(), "Database error: m");
}

#[test]
fn lookup_error_texts() {
    assert_eq!(MyError::IooError2("s".into()).message(), "inpuuut,,,,22  /o  error: s");
    assert_eq!(MyError::Unknown.message(), "unkwon erro");
}

#[test]
fn crud_reads_back_what_it_holds() {
    assert_eq!(mm(), Ok(CrudUser { id: 4 }));
    let mut c = Crud { data: CrudUser { id: 1 } };
    assert_eq!(c.create(CrudUser { id: 9 }), Ok(()));
    assert_eq!(c.read(123), Ok(CrudUser { id: 9 }));
}
