//! Account, favourite, review, search, upload and payment handlers: the
//! decisions they take around their store calls.

use crate::api::{reply, Reply};
use crate::text::{
    concat3, decimal, decimal_string, is_digit_char, lemma_decimal_chars, lemma_decimal_injective,
    owned, push_decimal, push_str, str_eq,
};
use vstd::prelude::*;

verus! {

/// The user on whose behalf a handler acts.
#[derive(Debug, Clone, Copy)]
pub struct AuthenticatedUser {
    pub id: i32,
}

/// The plans a user may switch to.
pub open spec fn allowed_plan(plan: Seq<char>) -> bool {
    plan == "basic"@ || plan == "pro"@ || plan == "pro_plus_two"@
}

/// The plans a subscription may be set to.
pub open spec fn valid_plan(plan: Seq<char>) -> bool {
    plan == "basic"@ || plan == "standard"@ || plan == "premium"@
}

/// Whether a user may switch to `new_plan`; otherwise the 400 reply
/// `Invalid subscription plan`.
pub fn change_subscription(new_plan: &str) -> (r: Result<(), Reply>)
    ensures
        r is Ok <==> allowed_plan(new_plan@),
        r is Ok <==> (new_plan@ == "basic"@ || new_plan@ == "pro"@ || new_plan@ == "pro_plus_two"@),
        r matches Err(e) ==> e.status == 400 && e.body@ == "Invalid subscription plan"@,
{
    if str_eq(new_plan, "basic") || str_eq(new_plan, "pro") || str_eq(new_plan, "pro_plus_two") {
        Ok(())
    } else {
        Err(reply(400, "Invalid subscription plan"))
    }
}

/// Whether a subscription may be set to `plan`; otherwise the 400 reply
/// `Invalid plan`.
pub fn update_subscription(plan: &str) -> (r: Result<(), Reply>)
    ensures
        r is Ok <==> valid_plan(plan@),
        r is Ok <==> (plan@ == "basic"@ || plan@ == "standard"@ || plan@ == "premium"@),
        r matches Err(e) ==> e.status == 400 && e.body@ == "Invalid plan"@,
{
    if str_eq(plan, "basic") || str_eq(plan, "standard") || str_eq(plan, "premium") {
        Ok(())
    } else {
        Err(reply(400, "Invalid plan"))
    }
}

/// The one plan that a user may switch to and that a subscription may be set
/// to is `basic`: `pro` and `pro_plus_two` are for users only, `standard` and
/// `premium` for subscriptions only.
pub proof fn plans_shared_only_basic(plan: Seq<char>)
    ensures
        (allowed_plan(plan) && valid_plan(plan)) <==> plan == "basic"@,
        allowed_plan("pro"@) && !valid_plan("pro"@),
        allowed_plan("pro_plus_two"@) && !valid_plan("pro_plus_two"@),
        valid_plan("standard"@) && !allowed_plan("standard"@),
        valid_plan("premium"@) && !allowed_plan("premium"@),
{
    reveal_strlit("basic");
    reveal_strlit("pro");
    reveal_strlit("pro_plus_two");
    reveal_strlit("standard");
    reveal_strlit("premium");
    assert("pro"@.len() == 3 && "basic"@.len() == 5 && "premium"@.len() == 7);
    assert("standard"@.len() == 8 && "pro_plus_two"@.len() == 12);
}

/// The subscription found for a user, or the 404 reply with an empty body.
pub fn get_subscription<T>(found: Option<T>) -> (r: Result<T, Reply>)
    ensures
        match found {
            Some(s) => r == Ok::<T, Reply>(s),
            None => r matches Err(e) && e.status == 404 && e.body@ == ""@,
        },
{
    match found {
        Some(s) => Ok(s),
        None => Err(reply(404, "")),
    }
}

/// Where a guarded write stands.
#[derive(Debug, Clone, Copy, PartialEq, Eq, Structural)]
pub enum Stage {
    /// Waiting to learn whether the target (the movie) exists.
    AwaitTarget,
    /// Waiting to learn whether the record to write already exists.
    AwaitDuplicate,
    /// Waiting for the write to finish.
    AwaitWrite,
    /// Answered.
    Done,
}

/// What the store answered.
#[derive(Debug, Clone, Copy, PartialEq, Eq, Structural)]
pub enum Event {
    /// A lookup found (`true`) or did not find (`false`) a row.
    Found(bool),
    /// The write finished.
    Written,
}

/// What to do next.
#[derive(Debug, Clone)]
pub enum Action {
    LookUpTarget,
    LookUpDuplicate,
    Write,
    Respond(Reply),
}

/// Whether `event` is what a write at `stage` waits for.
pub open spec fn expects(stage: Stage, event: Event) -> bool {
    match stage {
        Stage::AwaitTarget => event is Found,
        Stage::AwaitDuplicate => event is Found,
        Stage::AwaitWrite => event is Written,
        Stage::Done => false,
    }
}

/// Where a write at `stage` goes on `event`.
pub open spec fn next_stage(stage: Stage, event: Event) -> Stage {
    match (stage, event) {
        (Stage::AwaitTarget, Event::Found(true)) => Stage::AwaitDuplicate,
        (Stage::AwaitDuplicate, Event::Found(false)) => Stage::AwaitWrite,
        _ => Stage::Done,
    }
}

/// The stage reached from `stage` through `events`, each expected in turn.
pub open spec fn run(stage: Stage, events: Seq<Event>) -> Stage
    decreases events.len(),
{
    if events.len() == 0 {
        stage
    } else {
        run(next_stage(stage, events[0]), events.drop_first())
    }
}

/// Whether every event of `events` is expected where it comes, from `stage` on.
pub open spec fn well_ordered(stage: Stage, events: Seq<Event>) -> bool
    decreases events.len(),
{
    events.len() == 0 || (expects(stage, events[0]) && well_ordered(
        next_stage(stage, events[0]),
        events.drop_first(),
    ))
}

/// A write guarded by lookups: favourites and reviews check that the movie
/// exists and that the record is not there yet; a profile update checks that
/// the email is not taken.
#[derive(Debug, Clone)]
pub struct GuardedWrite {
    pub stage: Stage,
    /// The 400 body answered when the record already exists.
    pub duplicate_body: String,
}

impl GuardedWrite {
    /// Adding a movie to the favourites: look up the movie first.
    pub fn add_to_favorite() -> (r: (GuardedWrite, Action))
        ensures
            r.0.stage == Stage::AwaitTarget,
            r.0.duplicate_body@ == "Movie already in favorite list"@,
            r.1 is LookUpTarget,
    {
        (
            GuardedWrite {
                stage: Stage::AwaitTarget,
                duplicate_body: owned("Movie already in favorite list"),
            },
            Action::LookUpTarget,
        )
    }

    /// Reviewing a movie: look up the movie first.
    pub fn add_review() -> (r: (GuardedWrite, Action))
        ensures
            r.0.stage == Stage::AwaitTarget,
            r.0.duplicate_body@ == "User has already reviewed this movie"@,
            r.1 is LookUpTarget,
    {
        (
            GuardedWrite {
                stage: Stage::AwaitTarget,
                duplicate_body: owned("User has already reviewed this movie"),
            },
            Action::LookUpTarget,
        )
    }

    /// Updating a profile: look up whether another user has the email.
    pub fn update_profile() -> (r: (GuardedWrite, Action))
        ensures
            r.0.stage == Stage::AwaitDuplicate,
            r.0.duplicate_body@ == "Email already exists"@,
            r.1 is LookUpDuplicate,
    {
        (
            GuardedWrite {
                stage: Stage::AwaitDuplicate,
                duplicate_body: owned("Email already exists"),
            },
            Action::LookUpDuplicate,
        )
    }

    /// Whether the write waits for `event`.
    pub fn expects(&self, event: Event) -> (r: bool)
        ensures
            r == expects(self.stage, event),
            r == (((self.stage is AwaitTarget || self.stage is AwaitDuplicate) && event is Found)
                || (self.stage is AwaitWrite && event is Written)),
    {
        let found = match event {
            Event::Found(_) => true,
            Event::Written => false,
        };
        match self.stage {
            Stage::AwaitTarget => found,
            Stage::AwaitDuplicate => found,
            Stage::AwaitWrite => !found,
            Stage::Done => false,
        }
    }

    /// Takes the store's answer and says what to do next: a missing movie is
    /// answered 404, an existing record 400 with the duplicate body, a
    /// finished write 200; otherwise the next lookup or the write.
    pub fn step(&mut self, event: Event) -> (r: Action)
        requires
            expects(old(self).stage, event),
        ensures
            final(self).stage == next_stage(old(self).stage, event),
            final(self).duplicate_body == old(self).duplicate_body,
            match (old(self).stage, event) {
                (Stage::AwaitTarget, Event::Found(true)) => r is LookUpDuplicate
                    && final(self).stage == Stage::AwaitDuplicate,
                (Stage::AwaitTarget, Event::Found(false)) => r matches Action::Respond(rep)
                    && rep.status == 404 && rep.body@ == ""@ && final(self).stage == Stage::Done,
                (Stage::AwaitDuplicate, Event::Found(false)) => r is Write && final(self).stage
                    == Stage::AwaitWrite,
                (Stage::AwaitDuplicate, Event::Found(true)) => r matches Action::Respond(rep)
                    && rep.status == 400 && rep.body@ == old(self).duplicate_body@
                    && final(self).stage == Stage::Done,
                _ => r matches Action::Respond(rep) && rep.status == 200 && rep.body@ == ""@
                    && final(self).stage == Stage::Done,
            },
    {
        match (self.stage, event) {
            (Stage::AwaitTarget, Event::Found(true)) => {
                self.stage = Stage::AwaitDuplicate;
                Action::LookUpDuplicate
            },
            (Stage::AwaitTarget, _) => {
                self.stage = Stage::Done;
                Action::Respond(reply(404, ""))
            },
            (Stage::AwaitDuplicate, Event::Found(false)) => {
                self.stage = Stage::AwaitWrite;
                Action::Write
            },
            (Stage::AwaitDuplicate, _) => {
                self.stage = Stage::Done;
                Action::Respond(Reply { status: 400, body: self.duplicate_body.clone() })
            },
            _ => {
                self.stage = Stage::Done;
                Action::Respond(reply(200, ""))
            },
        }
    }
}

/// A favourite or a review is written only after the movie was found and no
/// earlier record was: from the first lookup, the write is reached exactly by
/// the answers "found", then "not found".
pub proof fn write_needs_target_and_no_duplicate(events: Seq<Event>)
    requires
        well_ordered(Stage::AwaitTarget, events),
    ensures
        run(Stage::AwaitTarget, events) == Stage::AwaitWrite <==> events == seq![
            Event::Found(true),
            Event::Found(false),
        ],
{
    reveal_with_fuel(run, 3);
    reveal_with_fuel(well_ordered, 3);
    if events.len() >= 1 {
        let e1 = events.drop_first();
        if e1.len() >= 1 {
            let e2 = e1.drop_first();
            if e2.len() >= 1 {
                assert(run(Stage::AwaitTarget, events) == Stage::Done) by {
                    lemma_done_stays(e2);
                }
                assert(events.len() > 2);
            } else {
                assert(e2.len() == 0);
                if events =~= seq![Event::Found(true), Event::Found(false)] {
                } else {
                }
            }
        }
    }
}

/// A profile is updated only when the email was not found: from the lookup,
/// the write is reached exactly by the answer "not found".
pub proof fn profile_write_needs_free_email(events: Seq<Event>)
    requires
        well_ordered(Stage::AwaitDuplicate, events),
    ensures
        run(Stage::AwaitDuplicate, events) == Stage::AwaitWrite <==> events == seq![
            Event::Found(false),
        ],
{
    reveal_with_fuel(run, 2);
    reveal_with_fuel(well_ordered, 2);
    if events.len() >= 1 {
        let e1 = events.drop_first();
        if e1.len() >= 1 {
            assert(run(Stage::AwaitDuplicate, events) != Stage::AwaitWrite) by {
                let s1 = next_stage(Stage::AwaitDuplicate, events[0]);
                if s1 == Stage::AwaitWrite {
                    lemma_done_stays(e1.drop_first());
                } else {
                    lemma_done_stays(e1);
                }
            }
            assert(events.len() > 1);
        } else {
            if events =~= seq![Event::Found(false)] {
            } else {
            }
        }
    }
}

/// The filters of a movie search; absent ones do not filter.
#[derive(Debug, Clone)]
pub struct MovieSearchQuery {
    pub title: Option<String>,
    pub genre: Option<String>,
    pub year: Option<String>,
}

/// The SQL of a movie search: one `?` condition per filter given.
pub open spec fn search_sql(q: MovieSearchQuery) -> Seq<char> {
    "SELECT * FROM movies WHERE 1 = 1"@ + (if q.title is Some {
        " AND title LIKE ?"@
    } else {
        Seq::empty()
    }) + (if q.genre is Some {
        " AND genre = ?"@
    } else {
        Seq::empty()
    }) + (if q.year is Some {
        " AND year = ?"@
    } else {
        Seq::empty()
    })
}

/// The values bound to the `?` of a movie search, in order: the title
/// wrapped in `%` (a substring match), the genre, the year.
pub open spec fn search_params(q: MovieSearchQuery) -> Seq<Seq<char>> {
    optional_param(q.title, "%"@, "%"@) + optional_param(q.genre, ""@, ""@) + optional_param(
        q.year,
        ""@,
        ""@,
    )
}

/// One bound value for a given filter, wrapped in `before` and `after`; none
/// for an absent one.
pub open spec fn optional_param(f: Option<String>, before: Seq<char>, after: Seq<char>) -> Seq<
    Seq<char>,
> {
    match f {
        Some(v) => seq![before + v@ + after],
        None => Seq::empty(),
    }
}

/// The number of times `c` occurs in `s`.
pub open spec fn count_char(s: Seq<char>, c: char) -> nat
    decreases s.len(),
{
    if s.len() == 0 {
        0
    } else {
        count_char(s.drop_last(), c) + if s.last() == c {
            1nat
        } else {
            0nat
        }
    }
}

proof fn lemma_count_concat(a: Seq<char>, b: Seq<char>, c: char)
    ensures
        count_char(a + b, c) == count_char(a, c) + count_char(b, c),
    decreases b.len(),
{
    if b.len() == 0 {
        assert(a + b =~= a);
    } else {
        lemma_count_concat(a, b.drop_last(), c);
        assert((a + b).drop_last() =~= a + b.drop_last());
    }
}

proof fn lemma_count_no_char(s: Seq<char>, c: char)
    requires
        forall|i: int| 0 <= i < s.len() ==> s[i] != c,
    ensures
        count_char(s, c) == 0,
    decreases s.len(),
{
    if s.len() > 0 {
        lemma_count_no_char(s.drop_last(), c);
    }
}

proof fn lemma_count_one_last(s: Seq<char>, c: char)
    requires
        s.len() > 0,
        s.last() == c,
        forall|i: int| 0 <= i < s.len() - 1 ==> s[i] != c,
    ensures
        count_char(s, c) == 1,
{
    lemma_count_no_char(s.drop_last(), c);
}

/// The SQL text and bound values of a movie search.
pub fn search_movies(q: &MovieSearchQuery) -> (r: (String, Vec<String>))
    ensures
        r.0@ == search_sql(*q),
        r.0@ == "SELECT * FROM movies WHERE 1 = 1"@ + (if q.title is Some {
            " AND title LIKE ?"@
        } else {
            ""@
        }) + (if q.genre is Some {
            " AND genre = ?"@
        } else {
            ""@
        }) + (if q.year is Some {
            " AND year = ?"@
        } else {
            ""@
        }),
        r.1@.len() == search_params(*q).len(),
        forall|i: int| 0 <= i < r.1@.len() ==> #[trigger] r.1@[i]@ == search_params(*q)[i],
        r.1@.len() == (if q.title is Some { 1int } else { 0int }) + (if q.genre is Some {
            1int
        } else {
            0int
        }) + (if q.year is Some { 1int } else { 0int }),
        q.title matches Some(t) ==> r.1@[0]@ == "%"@ + t@ + "%"@,
        q.genre matches Some(g) ==> r.1@[if q.title is Some { 1int } else { 0int }]@ == g@,
        q.year matches Some(y) ==> r.1@[r.1@.len() - 1]@ == y@,
{
    let mut sql = owned("SELECT * FROM movies WHERE 1 = 1");
    let mut params: Vec<String> = Vec::new();
    let ghost p0 = params@;
    match &q.title {
        Some(t) => {
            push_str(&mut sql, " AND title LIKE ?");
            params.push(concat3("%", t.as_str(), "%"));
        },
        None => {},
    }
    let ghost s1 = sql@;
    let ghost p1 = params@;
    match &q.genre {
        Some(g) => {
            push_str(&mut sql, " AND genre = ?");
            params.push(g.clone());
        },
        None => {},
    }
    let ghost s2 = sql@;
    let ghost p2 = params@;
    match &q.year {
        Some(y) => {
            push_str(&mut sql, " AND year = ?");
            params.push(y.clone());
        },
        None => {},
    }
    proof {
        let sp = search_params(*q);
        let a = optional_param(q.title, "%"@, "%"@);
        let b = optional_param(q.genre, ""@, ""@);
        let c = optional_param(q.year, ""@, ""@);
        reveal_strlit("");
        assert(""@ =~= Seq::<char>::empty());
        assert(p1.len() == a.len());
        assert forall|i: int| 0 <= i < params@.len() implies #[trigger] params@[i]@ == sp[i] by {
            if i < a.len() {
                assert(params@[i] == p1[i]);
            } else if i < a.len() + b.len() {
                assert(params@[i] == p2[i]);
            }
        }
    }
    proof {
        search_binds_filters(*q);
    }
    (sql, params)
}

/// Whatever filters are given, a movie search binds one value per filter, in
/// the order title, genre, year: the title wrapped in `%` on both sides (so
/// that any title containing it matches), the genre and the year as given.
pub proof fn search_binds_filters(q: MovieSearchQuery)
    ensures
        search_params(q).len() == (if q.title is Some { 1int } else { 0int }) + (if q.genre is Some {
            1int
        } else {
            0int
        }) + (if q.year is Some { 1int } else { 0int }),
        q.title matches Some(t) ==> search_params(q)[0] == "%"@ + t@ + "%"@,
        q.genre matches Some(g) ==> search_params(q)[if q.title is Some { 1int } else { 0int }]
            == g@,
        q.year matches Some(y) ==> search_params(q)[search_params(q).len() - 1] == y@,
{
    reveal_strlit("");
    assert(""@ =~= Seq::<char>::empty());
    if let Some(g) = q.genre {
        assert(""@ + g@ + ""@ =~= g@);
    }
    if let Some(y) = q.year {
        assert(""@ + y@ + ""@ =~= y@);
    }
}

/// A movie search binds exactly one value for each `?` in its SQL.
pub proof fn search_placeholders_match_params(q: MovieSearchQuery)
    ensures
        count_char(search_sql(q), '?') == search_params(q).len(),
{
    let base = "SELECT * FROM movies WHERE 1 = 1"@;
    let t = " AND title LIKE ?"@;
    let g = " AND genre = ?"@;
    let y = " AND year = ?"@;
    reveal_strlit("SELECT * FROM movies WHERE 1 = 1");
    reveal_strlit(" AND title LIKE ?");
    reveal_strlit(" AND genre = ?");
    reveal_strlit(" AND year = ?");
    lemma_count_no_char(base, '?');
    lemma_count_one_last(t, '?');
    lemma_count_one_last(g, '?');
    lemma_count_one_last(y, '?');
    lemma_count_no_char(Seq::empty(), '?');
    let tt = if q.title is Some { t } else { Seq::empty() };
    let gg = if q.genre is Some { g } else { Seq::empty() };
    let yy = if q.year is Some { y } else { Seq::empty() };
    lemma_count_concat(base, tt, '?');
    lemma_count_concat(base + tt, gg, '?');
    lemma_count_concat(base + tt + gg, yy, '?');
}

/// The movies to recommend from: those watched, then the favourites, in the
/// order the store listed them.
pub fn get_recommendations(watch_history: &Vec<i32>, favorites: &Vec<i32>) -> (r: Vec<i32>)
    ensures
        r@ == watch_history@ + favorites@,
{
    let mut movie_ids: Vec<i32> = Vec::new();
    for i in 0..watch_history.len()
        invariant
            movie_ids@ == watch_history@.subrange(0, i as int),
    {
        movie_ids.push(watch_history[i]);
        assert(watch_history@.subrange(0, i + 1) =~= watch_history@.subrange(0, i as int).push(
            watch_history@[i as int],
        ));
    }
    assert(watch_history@.subrange(0, watch_history@.len() as int) =~= watch_history@);
    for i in 0..favorites.len()
        invariant
            movie_ids@ == watch_history@ + favorites@.subrange(0, i as int),
    {
        movie_ids.push(favorites[i]);
        assert(favorites@.subrange(0, i + 1) =~= favorites@.subrange(0, i as int).push(
            favorites@[i as int],
        ));
        assert(watch_history@ + favorites@.subrange(0, i + 1) =~= (watch_history@
            + favorites@.subrange(0, i as int)).push(favorites@[i as int]));
    }
    assert(favorites@.subrange(0, favorites@.len() as int) =~= favorites@);
    movie_ids
}

/// The parts of a multipart upload that the handler acts on.
#[derive(Debug, Clone, Copy, PartialEq, Eq, Structural)]
pub enum UploadPart {
    /// A `form-data` field (read and ignored).
    FormData,
    /// A `file` field: stored on disk and recorded as a movie.
    File,
    /// Anything else (ignored).
    Other,
}

/// How an upload part with the given disposition type is handled.
pub fn upload_part(disposition_type: &str) -> (r: UploadPart)
    ensures
        r == (if disposition_type@ == "form-data"@ {
            UploadPart::FormData
        } else if disposition_type@ == "file"@ {
            UploadPart::File
        } else {
            UploadPart::Other
        }),
{
    if str_eq(disposition_type, "form-data") {
        UploadPart::FormData
    } else if str_eq(disposition_type, "file") {
        UploadPart::File
    } else {
        UploadPart::Other
    }
}

/// Where an uploaded file goes and how it is recorded.
#[derive(Debug, Clone)]
pub struct UploadTarget {
    /// The stored name, also recorded as the movie's title.
    pub file_name: String,
    /// The path on disk.
    pub disk_path: String,
    /// The URL recorded for the video.
    pub video_url: String,
    /// The URL recorded for the thumbnail.
    pub thumbnail_url: String,
}

/// The stored name of a file that `user_id` uploaded at `now` with the given
/// extension: `<user id>-<now>.<extension>`.
pub open spec fn upload_name(user_id: i32, now: i64, extension: Seq<char>) -> Seq<char> {
    decimal(user_id as int) + "-"@ + decimal(now as int) + "."@ + extension
}

/// Files stored with different time stamps get different names, whatever
/// their extensions.
pub proof fn upload_names_distinct(user_id: i32, s1: i64, s2: i64, e1: Seq<char>, e2: Seq<char>)
    requires
        s1 != s2,
    ensures
        upload_name(user_id, s1, e1) != upload_name(user_id, s2, e2),
{
    reveal_strlit("-");
    reveal_strlit(".");
    let p = decimal(user_id as int) + "-"@;
    let d1 = decimal(s1 as int);
    let d2 = decimal(s2 as int);
    let n1 = upload_name(user_id, s1, e1);
    let n2 = upload_name(user_id, s2, e2);
    assert("."@ =~= seq!['.']);
    lemma_decimal_chars(s1 as int);
    lemma_decimal_chars(s2 as int);
    let k = p.len() as int;
    if n1 == n2 {
        assert(n1 =~= p + d1 + "."@ + e1);
        assert(n2 =~= p + d2 + "."@ + e2);
        if d1.len() < d2.len() {
            assert(n1[k + d1.len()] == '.');
            assert(n2[k + d1.len()] == d2[d1.len() as int]);
            assert(is_digit_char(d2[d1.len() as int]) || d2[d1.len() as int] == '-');
        } else if d2.len() < d1.len() {
            assert(n2[k + d2.len()] == '.');
            assert(n1[k + d2.len()] == d1[d2.len() as int]);
            assert(is_digit_char(d1[d2.len() as int]) || d1[d2.len() as int] == '-');
        } else {
            assert(n1.subrange(k, k + d1.len()) =~= d1);
            assert(n2.subrange(k, k + d2.len()) =~= d2);
            lemma_decimal_injective(s1 as int, s2 as int);
        }
    }
}

/// A stored name tells whose file it is, when it was stored and its
/// extension: two uploads get the same name only for the same user, the
/// same time stamp and the same extension.
pub proof fn upload_name_identifies(
    u1: i32,
    u2: i32,
    s1: i64,
    s2: i64,
    e1: Seq<char>,
    e2: Seq<char>,
)
    ensures
        upload_name(u1, s1, e1) == upload_name(u2, s2, e2) <==> (u1 == u2 && s1 == s2 && e1
            == e2),
{
    reveal_strlit("-");
    reveal_strlit(".");
    assert("-"@ =~= seq!['-']);
    assert("."@ =~= seq!['.']);
    let a1 = decimal(u1 as int);
    let a2 = decimal(u2 as int);
    let n1 = upload_name(u1, s1, e1);
    let n2 = upload_name(u2, s2, e2);
    lemma_decimal_chars(u1 as int);
    lemma_decimal_chars(u2 as int);
    if n1 == n2 {
        let r1 = decimal(s1 as int) + "."@ + e1;
        let r2 = decimal(s2 as int) + "."@ + e2;
        assert(n1 =~= a1 + "-"@ + r1);
        assert(n2 =~= a2 + "-"@ + r2);
        if a1.len() < a2.len() {
            assert(n1[a1.len() as int] == '-');
            assert(n2[a1.len() as int] == a2[a1.len() as int]);
            assert(is_digit_char(a2[a1.len() as int]));
        } else if a2.len() < a1.len() {
            assert(n2[a2.len() as int] == '-');
            assert(n1[a2.len() as int] == a1[a2.len() as int]);
            assert(is_digit_char(a1[a2.len() as int]));
        } else {
            assert(n1.subrange(0, a1.len() as int) =~= a1);
            assert(n2.subrange(0, a2.len() as int) =~= a2);
            lemma_decimal_injective(u1 as int, u2 as int);
            assert(upload_name(u1, s1, e1) =~= (a1 + "-"@) + decimal(s1 as int) + "."@ + e1);
            assert(upload_name(u1, s2, e2) =~= (a1 + "-"@) + decimal(s2 as int) + "."@ + e2);
            if s1 != s2 {
                upload_names_distinct(u1, s1, s2, e1, e2);
            }
            let j = (a1.len() + 1 + decimal(s1 as int).len() + 1) as int;
            assert(n1.subrange(j, n1.len() as int) =~= e1);
            assert(n2.subrange(j, n2.len() as int) =~= e2);
        }
    }
}

/// The time stamps handed to the files of one upload so far.
#[derive(Debug, Clone, Copy)]
pub struct UploadStamps {
    /// The last stamp handed out, if any.
    pub last: Option<i64>,
}

impl UploadStamps {
    /// No stamp handed out yet.
    pub fn new() -> (r: UploadStamps)
        ensures
            r.last is None,
    {
        UploadStamps { last: None }
    }
}

/// The stamp of the next file, given the clock reading: the reading itself,
/// or one past the last stamp when the clock has not moved past it, so that
/// each file of an upload gets its own name.
pub open spec fn next_stamp(last: Option<i64>, clock: i64) -> int {
    match last {
        Some(l) => if clock <= l {
            l + 1
        } else {
            clock as int
        },
        None => clock as int,
    }
}

/// A stamp is never behind the clock and always past the last stamp of the
/// same upload, and it is the clock reading unless that would not be past
/// the last stamp, in which case it is the last stamp plus one.
pub proof fn next_stamp_moves_on(last: Option<i64>, clock: i64)
    ensures
        next_stamp(last, clock) >= clock,
        last matches Some(l) ==> next_stamp(last, clock) > l,
        next_stamp(last, clock) == clock || (last matches Some(l) && next_stamp(last, clock) == l
            + 1),
{
}

/// Where a file that `user_id` uploaded at `now` goes: `uploads/<name>` on
/// disk, `/uploads/<name>` as its URL, and the fixed thumbnail `/thumbnail.jpg`.
pub fn upload_target_at(user_id: i32, now: i64, extension: &str) -> (r: UploadTarget)
    ensures
        r.file_name@ == upload_name(user_id, now, extension@),
        r.file_name@ == decimal(user_id as int) + "-"@ + decimal(now as int) + "."@ + extension@,
        r.disk_path@ == "uploads/"@ + upload_name(user_id, now, extension@),
        r.video_url@ == "/uploads/"@ + upload_name(user_id, now, extension@),
        r.thumbnail_url@ == "/thumbnail.jpg"@,
{
    let mut name = String::new();
    push_decimal(&mut name, user_id as i64);
    push_str(&mut name, "-");
    push_decimal(&mut name, now);
    push_str(&mut name, ".");
    push_str(&mut name, extension);
    let mut disk_path = owned("uploads/");
    push_str(&mut disk_path, name.as_str());
    let mut video_url = owned("/uploads/");
    push_str(&mut video_url, name.as_str());
    UploadTarget { file_name: name, disk_path, video_url, thumbnail_url: owned("/thumbnail.jpg") }
}

/// What `std::path::Path::extension` gives for a path written as `file_name`,
/// as text (`None` when the path has no extension). It depends on the
/// target's path syntax (`/` separates components; on Windows `\` does too,
/// and a `:` can start a drive prefix).
pub uninterp spec fn path_extension_of(file_name: Seq<char>) -> Option<Seq<char>>;

/// Whether `name` is a plain file name whose last `.` stands at `k`: no
/// separator (`/`, `\`) or drive colon in it, not starting with `.`, and
/// no `.` after position `k`.
pub open spec fn plain_last_dot(name: Seq<char>, k: int) -> bool {
    &&& 0 < k < name.len()
    &&& name[0] != '.'
    &&& name[k] == '.'
    &&& forall|j: int| 0 <= j < name.len() ==> name[j] != '/' && name[j] != '\\' && name[j] != ':'
    &&& forall|j: int| k < j < name.len() ==> name[j] != '.'
}

/// The text of an optional string.
pub open spec fn text_of(s: Option<String>) -> Option<Seq<char>> {
    match s {
        Some(t) => Some(t@),
        None => None,
    }
}

/// Calls `std::path::Path::extension` on `file_name` and reads the result as
/// text (a slice of a `str`, so always valid text). The result depends on
/// the name alone (and the target's path syntax) and is named
/// `path_extension_of`. Its documentation gives the extension as the part of
/// the file name after its final `.`, none when there is no `.` in it, and
/// none for a file name that begins with `.` and has no other `.`. The
/// contract states that for a plain file name (one component, not starting
/// with `.`) the extension is the text after its last `.`; that any
/// extension holds no `.` and no `/` and stands right after a `.` in the
/// name; and that a name without `.` has none. For other paths which
/// component and which `.` it is (leading `.`, trailing `/`, `..`) is left
/// unsaid.
#[verifier::external_body]
fn path_extension(file_name: &str) -> (r: Option<String>)
    ensures
        match r {
            Some(e) => path_extension_of(file_name@) == Some(e@),
            None => path_extension_of(file_name@) is None,
        },
        forall|k: int| #[trigger] plain_last_dot(file_name@, k) ==> text_of(r) == Some(file_name@.subrange(k + 1, file_name@.len() as int)),
        (forall|i: int| 0 <= i < file_name@.len() ==> file_name@[i] != '.') ==> r is None,
        r matches Some(e) ==> {
            &&& forall|i: int| 0 <= i < e@.len() ==> e@[i] != '.' && e@[i] != '/'
            &&& exists|k: int|
                1 <= k && k + e@.len() <= file_name@.len() && file_name@[k - 1] == '.'
                    && #[trigger] file_name@.subrange(k, k + e@.len()) == e@
        },
{
    match std::path::Path::new(file_name).extension() {
        Some(e) => match e.to_str() {
            Some(text) => Some(text.to_owned()),
            None => None,
        },
        None => None,
    }
}

/// The stamp of the next file of an upload, given the clock reading
/// (`next_stamp`).
pub fn next_upload_stamp(last: Option<i64>, clock: i64) -> (r: i64)
    requires
        last matches Some(l) ==> l < i64::MAX,
    ensures
        r == next_stamp(last, clock),
        r >= clock,
        last matches Some(l) ==> r > l,
        r == clock || (last matches Some(l) && r == l + 1),
{
    match last {
        Some(l) => if clock <= l {
            l + 1
        } else {
            clock
        },
        None => clock,
    }
}

/// Where a file named `file_name` that `user_id` uploads at the clock
/// reading `clock` goes: stored as `<user id>-<stamp>.<extension of the
/// name>`, where the stamp is `next_stamp` of the upload's last stamp and the
/// clock (the reading itself unless an earlier file of the same upload
/// already had that second or a later one); `None` exactly when the name has
/// no extension (always so for a name without `.`), and then no stamp is
/// used. A plain file name's extension is the text after its last `.`.
pub fn upload_target(user_id: i32, file_name: &str, clock: i64, stamps: &mut UploadStamps) -> (r:
    Option<UploadTarget>)
    requires
        old(stamps).last matches Some(l) ==> l < i64::MAX,
    ensures
        r is Some <==> path_extension_of(file_name@) is Some,
        (forall|i: int| 0 <= i < file_name@.len() ==> file_name@[i] != '.') ==> r is None,
        forall|k: int| #[trigger] plain_last_dot(file_name@, k) ==> (r is Some
            && path_extension_of(file_name@) == Some(
            file_name@.subrange(k + 1, file_name@.len() as int),
        )),
        r is None ==> final(stamps).last == old(stamps).last,
        r matches Some(t) ==> {
            let ext = path_extension_of(file_name@)->0;
            let stamp = next_stamp(old(stamps).last, clock);
            &&& forall|i: int| 0 <= i < ext.len() ==> ext[i] != '.' && ext[i] != '/'
            &&& final(stamps).last == Some(stamp as i64)
            &&& upload_name(user_id, stamp as i64, ext) == t.file_name@
            &&& t.disk_path@ == "uploads/"@ + t.file_name@
            &&& t.video_url@ == "/uploads/"@ + t.file_name@
            &&& t.thumbnail_url@ == "/thumbnail.jpg"@
        },
{
    match path_extension(file_name) {
        Some(ext) => {
            let stamp = next_upload_stamp(stamps.last, clock);
            stamps.last = Some(stamp);
            let t = upload_target_at(user_id, stamp, ext.as_str());
            assert(path_extension_of(file_name@)->0 == ext@);
            assert(upload_name(user_id, stamp, path_extension_of(file_name@)->0) == t.file_name@);
            Some(t)
        },
        None => None,
    }
}

/// The form of a payment.
#[derive(Debug, Clone, Copy)]
pub struct PaymentForm {
    pub movie_id: i32,
    pub amount: i32,
}

/// A payment intent to create with the payment provider.
#[derive(Debug, Clone)]
pub struct PaymentIntentRequest {
    pub amount: i32,
    pub currency: String,
    pub payment_method_types: Vec<String>,
    pub metadata: Vec<(String, String)>,
}

/// The payment intent for `user` paying `form.amount` for `form.movie_id`:
/// in US dollars, by card, with the user and movie ids (in decimal) as
/// metadata.
pub fn create_payment_intent(user: &AuthenticatedUser, form: &PaymentForm) -> (r:
    PaymentIntentRequest)
    ensures
        r.amount == form.amount,
        r.currency@ == "usd"@,
        r.payment_method_types@.len() == 1,
        r.payment_method_types@[0]@ == "card"@,
        r.metadata@.len() == 2,
        r.metadata@[0].0@ == "user_id"@,
        r.metadata@[0].1@ == decimal(user.id as int),
        r.metadata@[1].0@ == "movie_id"@,
        r.metadata@[1].1@ == decimal(form.movie_id as int),
{
    let mut types: Vec<String> = Vec::new();
    types.push(owned("card"));
    let mut metadata: Vec<(String, String)> = Vec::new();
    metadata.push((owned("user_id"), decimal_string(user.id as i64)));
    metadata.push((owned("movie_id"), decimal_string(form.movie_id as i64)));
    PaymentIntentRequest {
        amount: form.amount,
        currency: owned("usd"),
        payment_method_types: types,
        metadata,
    }
}

proof fn lemma_done_stays(events: Seq<Event>)
    ensures
        run(Stage::Done, events) == Stage::Done,
    decreases events.len(),
{
    if events.len() > 0 {
        lemma_done_stays(events.drop_first());
    }
}

} // verus!
