//! Sign-up and log-in: the form they read and the replies they give.

use crate::api::Reply;
use crate::services::user_service::UserServiceError;
use crate::text::{
    decimal, decimal_string, is_digit_char, lemma_decimal_chars, lemma_decimal_injective, owned,
    push_decimal, push_str,
};
use vstd::prelude::*;

verus! {

/// The sign-up and log-in form.
#[derive(Debug, Clone)]
pub struct NUser {
    pub email: String,
    pub pass: String,
}

/// The text of a successful sign-up.
pub open spec fn signup_text(id: i32, email: Seq<char>) -> Seq<char> {
    "user created with id "@ + decimal(id as int) + " and email "@ + email
}

/// A sign-up text names its user and email unambiguously: two sign-ups give
/// the same text only for the same id and the same email.
pub proof fn signup_text_identifies(id1: i32, id2: i32, e1: Seq<char>, e2: Seq<char>)
    ensures
        signup_text(id1, e1) == signup_text(id2, e2) <==> (id1 == id2 && e1 == e2),
{
    reveal_strlit("user created with id ");
    reveal_strlit(" and email ");
    let p = "user created with id "@;
    let m = " and email "@;
    let d1 = decimal(id1 as int);
    let d2 = decimal(id2 as int);
    let t1 = signup_text(id1, e1);
    let t2 = signup_text(id2, e2);
    lemma_decimal_chars(id1 as int);
    lemma_decimal_chars(id2 as int);
    let k = p.len() as int;
    assert(m[0] == ' ');
    if t1 == t2 {
        assert(t1 =~= p + d1 + m + e1);
        assert(t2 =~= p + d2 + m + e2);
        if d1.len() < d2.len() {
            assert(t1[k + d1.len()] == ' ');
            assert(t2[k + d1.len()] == d2[d1.len() as int]);
            assert(is_digit_char(d2[d1.len() as int]) || d2[d1.len() as int] == '-');
        } else if d2.len() < d1.len() {
            assert(t2[k + d2.len()] == ' ');
            assert(t1[k + d2.len()] == d1[d2.len() as int]);
            assert(is_digit_char(d1[d2.len() as int]) || d1[d2.len() as int] == '-');
        } else {
            assert(t1.subrange(k, k + d1.len()) =~= d1);
            assert(t2.subrange(k, k + d2.len()) =~= d2);
            lemma_decimal_injective(id1 as int, id2 as int);
            let j = k + d1.len() + m.len();
            assert(t1.subrange(j, t1.len() as int) =~= e1);
            assert(t2.subrange(j, t2.len() as int) =~= e2);
        }
    }
}

/// The 201 reply to a sign-up that created user `id`; a failed creation is
/// passed on.
pub fn signup(created: Result<i32, UserServiceError>, n_user: &NUser) -> (r: Result<
    Reply,
    UserServiceError,
>)
    ensures
        match created {
            Ok(id) => r matches Ok(rep) && rep.status == 201 && rep.body@ == signup_text(
                id,
                n_user.email@,
            ) && rep.body@ == "user created with id "@ + decimal(id as int) + " and email "@
                + n_user.email@,
            Err(e) => r == Err::<Reply, UserServiceError>(e),
        },
{
    match created {
        Ok(id) => {
            let mut msg = owned("user created with id ");
            push_decimal(&mut msg, id as i64);
            push_str(&mut msg, " and email ");
            push_str(&mut msg, n_user.email.as_str());
            Ok(Reply { status: 201, body: msg })
        },
        Err(e) => Err(e),
    }
}

/// A successful log-in: the identity to remember (the user id in decimal)
/// and the 200 reply carrying the token; a failed log-in is passed on.
pub fn login(logged_in: Result<(i64, String), UserServiceError>) -> (r: Result<
    (String, Reply),
    UserServiceError,
>)
    ensures
        match logged_in {
            Ok((id, token)) => r matches Ok((ident, rep)) && ident@ == decimal(id as int)
                && rep.status == 200 && rep.body@ == token@,
            Err(e) => r == Err::<(String, Reply), UserServiceError>(e),
        },
{
    match logged_in {
        Ok((id, token)) => {
            let ident = decimal_string(id);
            Ok((ident, Reply { status: 200, body: token }))
        },
        Err(e) => Err(e),
    }
}

} // verus!
