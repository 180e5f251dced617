//! The decisions of the HTTP handlers.

pub mod admin_routes;
pub mod auth_routes;
pub mod movie_routes;
pub mod user_routes;

use crate::text::{
    is_whitespace, owned, starts_with, starts_with_at, strip_all_prefixes, strip_all_prefixes_str,
    trim, trim_str,
};
use vstd::prelude::*;

verus! {

/// A plain-text HTTP answer: the status code and the body.
#[derive(Debug, Clone)]
pub struct Reply {
    pub status: u16,
    pub body: String,
}

/// A reply with the given status and body.
pub fn reply(status: u16, body: &str) -> (r: Reply)
    ensures
        r.status == status,
        r.body@ == body@,
{
    Reply { status, body: owned(body) }
}

/// `Bearer ` (with its space), the scheme that the `Authorization` header must start with.
pub open spec fn bearer_prefix() -> Seq<char> {
    seq!['B', 'e', 'a', 'r', 'e', 'r', ' ']
}

/// The token carried by an `Authorization` header value: the header must
/// start with `Bearer `; every leading `Bearer ` is then removed, the rest
/// trimmed, and an empty rest carries no token.
pub open spec fn bearer_token_of(header: Seq<char>) -> Option<Seq<char>> {
    if starts_with(header, bearer_prefix()) {
        let t = trim(strip_all_prefixes(header, bearer_prefix()));
        if t.len() > 0 {
            Some(t)
        } else {
            None
        }
    } else {
        None
    }
}

/// The bearer token of an optional `Authorization` header (already read as
/// text), or the 400 reply `no oauth provided`.
pub fn bearer_token(header: Option<&str>) -> (r: Result<String, Reply>)
    ensures
        match header {
            Some(h) if bearer_token_of(h@) is Some => r matches Ok(t) && t@ == bearer_token_of(
                h@,
            )->0,
            _ => r matches Err(e) && e.status == 400 && e.body@ == "no oauth provided"@,
        },
{
    let prefix = "Bearer ";
    proof {
        reveal_strlit("Bearer ");
    }
    assert(prefix@ =~= bearer_prefix());
    match header {
        Some(h) => {
            if starts_with_at(h, 0, prefix) {
                assert(h@.subrange(0, h@.len() as int) =~= h@);
                let rest = strip_all_prefixes_str(h, prefix);
                let t = trim_str(rest);
                if t.unicode_len() > 0 {
                    return Ok(owned(t));
                }
            } else {
                assert(h@.subrange(0, h@.len() as int) =~= h@);
            }
            Err(reply(400, "no oauth provided"))
        },
        None => Err(reply(400, "no oauth provided")),
    }
}

/// A header made of `Bearer ` and a token that is not blank at either end and
/// does not itself start with `Bearer ` gives back exactly that token.
pub proof fn bearer_token_round_trip(token: Seq<char>)
    requires
        token.len() > 0,
        !is_whitespace(token[0]),
        !is_whitespace(token.last()),
        !starts_with(token, bearer_prefix()),
    ensures
        bearer_token_of(bearer_prefix() + token) == Some(token),
{
    let h = bearer_prefix() + token;
    assert(h.subrange(0, 7) =~= bearer_prefix());
    assert(h.subrange(7, h.len() as int) =~= token);
    assert(strip_all_prefixes(h, bearer_prefix()) == strip_all_prefixes(token, bearer_prefix()));
    assert(strip_all_prefixes(token, bearer_prefix()) == token);
    assert(crate::text::trim_start(token) == token);
    assert(crate::text::trim_end(token) == token);
}

/// Repeating the scheme changes nothing: a header that already starts with
/// `Bearer ` carries the same token with one more `Bearer ` in front.
pub proof fn bearer_prefix_repeats_ignored(header: Seq<char>)
    requires
        starts_with(header, bearer_prefix()),
    ensures
        bearer_token_of(bearer_prefix() + header) == bearer_token_of(header),
{
    let h = bearer_prefix() + header;
    assert(h.subrange(0, 7) =~= bearer_prefix());
    assert(h.subrange(7, h.len() as int) =~= header);
    assert(strip_all_prefixes(h, bearer_prefix()) == strip_all_prefixes(header, bearer_prefix()));
}

/// Every token that `bearer_token_of` yields is non-empty and has no
/// whitespace at either end.
pub proof fn bearer_token_is_trimmed(header: Seq<char>)
    requires
        bearer_token_of(header) is Some,
    ensures
        bearer_token_of(header)->0.len() > 0,
        !is_whitespace(bearer_token_of(header)->0[0]),
        !is_whitespace(bearer_token_of(header)->0.last()),
{
    let s = strip_all_prefixes(header, bearer_prefix());
    crate::text::lemma_trim_bounds(s);
}

} // verus!
