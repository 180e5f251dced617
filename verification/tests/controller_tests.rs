use netflix_clone::user::controller::{
    change_subscription, create_payment_intent, get_recommendations, get_subscription,
    search_movies, update_subscription, upload_part, upload_target, upload_target_at, Action,
    AuthenticatedUser, Event, GuardedWrite, MovieSearchQuery, PaymentForm, Stage, UploadPart,
    UploadStamps, next_upload_stamp,
};

#[test]
fn subscription_plans() {
    for p in ["basic", "pro", "pro_plus_two"] {
        assert!(change_subscription(p).is_ok());
    }
    let e = change_subscription("premium").unwrap_err();
    assert_eq!((e.status, e.body.as_str()), (400, "Invalid subscription plan"));
    for p in ["basic", "standard", "premium"] {
        assert!(update_subscription(p).is_ok());
    }
    let e = update_subscription("pro").unwrap_err();
    assert_eq!((e.status, e.body.as_str()), (400, "Invalid plan"));
    assert!(update_subscription("").is_err());
}

#[test]
fn subscription_lookup() {
    assert_eq!(get_subscription(Some(3)).unwrap(), 3);
    let e = get_subscription::<i32>(None).unwrap_err();
    assert_eq!((e.status, e.body.as_str()), (404, ""));
}

fn respond(a: Action) -> (u16, String) {
    match a {
        Action::Respond(r) => (r.status, r.body),
        _ => panic!("expected a reply"),
    }
}

#[test]
fn favourite_of_missing_movie() {
    let (mut f, a) = GuardedWrite::add_to_favorite();
    assert!(matches!(a, Action::LookUpTarget));
    assert_eq!(respond(f.step(Event::Found(false))), (404, String::new()));
    assert_eq!(f.stage, Stage::Done);
}

#[test]
fn favourite_already_there() {
    let (mut f, _) = GuardedWrite::add_to_favorite();
    assert!(matches!(f.step(Event::Found(true)), Action::LookUpDuplicate));
    assert_eq!(
        respond(f.step(Event::Found(true))),
        (400, "Movie already in favorite list".to_string())
    );
}

#[test]
fn favourite_written() {
    let (mut f, _) = GuardedWrite::add_to_favorite();
    assert!(f.expects(Event::Found(true)));
    assert!(!f.expects(Event::Written));
    f.step(Event::Found(true));
    assert!(matches!(f.step(Event::Found(false)), Action::Write));
    assert_eq!(f.stage, Stage::AwaitWrite);
    assert_eq!(respond(f.step(Event::Written)), (200, String::new()));
    assert!(!f.expects(Event::Written));
}

#[test]
fn review_twice() {
    let (mut f, _) = GuardedWrite::add_review();
    f.step(Event::Found(true));
    assert_eq!(
        respond(f.step(Event::Found(true))),
        (400, "User has already reviewed this movie".to_string())
    );
}

#[test]
fn profile_update() {
    let (mut f, a) = GuardedWrite::update_profile();
    assert!(matches!(a, Action::LookUpDuplicate));
    assert_eq!(respond(f.step(Event::Found(true))), (400, "Email already exists".to_string()));
    let (mut g, _) = GuardedWrite::update_profile();
    assert!(matches!(g.step(Event::Found(false)), Action::Write));
    assert_eq!(respond(g.step(Event::Written)), (200, String::new()));
}

fn q(t: Option<&str>, g: Option<&str>, y: Option<&str>) -> MovieSearchQuery {
    MovieSearchQuery {
        title: t.map(|s| s.to_string()),
        genre: g.map(|s| s.to_string()),
        year: y.map(|s| s.to_string()),
    }
}

#[test]
fn search_without_filters() {
    let (sql, params) = search_movies(&q(None, None, None));
    assert_eq!(sql, "SELECT * FROM movies WHERE 1 = 1");
    assert!(params.is_empty());
}

#[test]
fn search_with_all_filters() {
    let (sql, params) = search_movies(&q(Some("Up"), Some("Family"), Some("2009")));
    assert_eq!(
        sql,
        "SELECT * FROM movies WHERE 1 = 1 AND title LIKE ? AND genre = ? AND year = ?"
    );
    assert_eq!(params, vec!["%Up%".to_string(), "Family".to_string(), "2009".to_string()]);
}

#[test]
fn search_placeholders_equal_params() {
    for t in [None, Some("a?b")] {
        for g in [None, Some("g")] {
            for y in [None, Some("1999")] {
                let (sql, params) = search_movies(&q(t, g, y));
                assert_eq!(sql.matches('?').count(), params.len());
            }
        }
    }
    let (sql, params) = search_movies(&q(None, Some("Drama"), None));
    assert_eq!(sql, "SELECT * FROM movies WHERE 1 = 1 AND genre = ?");
    assert_eq!(params, vec!["Drama".to_string()]);
}

#[test]
fn recommendations_concatenate() {
    assert_eq!(get_recommendations(&vec![3, 1], &vec![2, 3]), vec![3, 1, 2, 3]);
    assert_eq!(get_recommendations(&vec![], &vec![]), Vec::<i32>::new());
}

#[test]
fn upload_parts() {
    assert_eq!(upload_part("form-data"), UploadPart::FormData);
    assert_eq!(upload_part("file"), UploadPart::File);
    assert_eq!(upload_part("attachment"), UploadPart::Other);
}

#[test]
fn upload_names() {
    let t = upload_target_at(7, 1_700_000_000, "mp4");
    assert_eq!(t.file_name, "7-1700000000.mp4");
    assert_eq!(t.disk_path, "uploads/7-1700000000.mp4");
    assert_eq!(t.video_url, "/uploads/7-1700000000.mp4");
    assert_eq!(t.thumbnail_url, "/thumbnail.jpg");
}

#[test]
fn upload_target_uses_the_last_extension() {
    let mut stamps = UploadStamps::new();
    let t = upload_target(-3, "my.movie.mkv", 1_700_000_000, &mut stamps).unwrap();
    assert!(t.file_name.starts_with("-3-"));
    assert!(t.file_name.ends_with(".mkv"));
    assert!(!t.file_name.contains("movie"));
    assert_eq!(t.video_url, format!("/uploads/{}", t.file_name));
    let before = stamps.last;
    assert!(upload_target(1, "noextension", 1_700_000_001, &mut stamps).is_none());
    assert_eq!(stamps.last, before);
}

#[test]
fn payment_intent() {
    let r = create_payment_intent(&AuthenticatedUser { id: 8 }, &PaymentForm { movie_id: 21, amount: 499 });
    assert_eq!(r.amount, 499);
    assert_eq!(r.currency, "usd");
    assert_eq!(r.payment_method_types, vec!["card".to_string()]);
    assert_eq!(
        r.metadata,
        vec![
            ("user_id".to_string(), "8".to_string()),
            ("movie_id".to_string(), "21".to_string())
        ]
    );
}

#[test]
fn upload_target_exactly_when_the_name_has_an_extension() {
    for name in ["a.mp4", ".hidden", "dir.v2/file", "archive.tar.gz", "trailing.", "x/y.z/", "plain"] {
        let ext = std::path::Path::new(name).extension().and_then(|e| e.to_str());
        let t = upload_target(5, name, 42, &mut UploadStamps::new());
        assert_eq!(t.is_some(), ext.is_some(), "{}", name);
        if let (Some(t), Some(e)) = (t, ext) {
            assert!(t.file_name.starts_with("5-"));
            assert!(t.file_name.ends_with(&format!(".{}", e)));
        }
    }
}

#[test]
fn files_of_one_upload_get_distinct_names() {
    let mut stamps = UploadStamps::new();
    let a = upload_target(7, "a.mp4", 100, &mut stamps).unwrap();
    let b = upload_target(7, "b.mp4", 100, &mut stamps).unwrap();
    let c = upload_target(7, "c.mp4", 99, &mut stamps).unwrap();
    assert_ne!(a.file_name, b.file_name);
    assert_ne!(b.file_name, c.file_name);
    assert_ne!(a.disk_path, c.disk_path);
    assert_ne!(a.video_url, b.video_url);
}

#[test]
fn a_stamp_ahead_of_the_clock_is_bumped() {
    let mut stamps = UploadStamps { last: Some(i64::MAX - 1) };
    let t = upload_target(2, "x.avi", 5, &mut stamps).unwrap();
    assert_eq!(stamps.last, Some(i64::MAX));
    assert_eq!(t.file_name, format!("2-{}.avi", i64::MAX));
}

#[test]
fn upload_stamps_follow_the_clock() {
    assert_eq!(next_upload_stamp(None, 50), 50);
    assert_eq!(next_upload_stamp(Some(40), 50), 50);
    assert_eq!(next_upload_stamp(Some(50), 50), 51);
    assert_eq!(next_upload_stamp(Some(60), 50), 61);
    let mut stamps = UploadStamps::new();
    let t = upload_target(7, "clip.mp4", 1_700_000_000, &mut stamps).unwrap();
    assert_eq!(t.file_name, "7-1700000000.mp4");
    assert_eq!(stamps.last, Some(1_700_000_000));
    let u = upload_target(7, "more.mp4", 1_700_000_000, &mut stamps).unwrap();
    assert_eq!(u.file_name, "7-1700000001.mp4");
    let v = upload_target(7, "clip.", 1_700_000_005, &mut stamps).unwrap();
    assert_eq!(v.file_name, "7-1700000005.");
}
