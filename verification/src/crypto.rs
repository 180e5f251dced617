//! Password hashing with bcrypt.

use crate::text::starts_with;
use vstd::prelude::*;

verus! {

/// The error type of the bcrypt crate.
#[verifier::external_type_specification]
#[verifier::external_body]
pub struct ExBcryptError(bcrypt::BcryptError);

/// What `bcrypt::verify(password, hash)` returns: `Some(b)` for `Ok(b)` and
/// `None` for an error (a hash that does not parse).
pub uninterp spec fn bcrypt_verdict(password: Seq<char>, hash: Seq<char>) -> Option<bool>;

/// Calls `bcrypt::verify`. Its outcome depends on the password and the hash
/// alone (the salt and cost are read from the hash); the contract names it.
#[verifier::external_body]
pub(crate) fn bcrypt_verify(password: &str, hash: &str) -> (r: Result<bool, bcrypt::BcryptError>)
    ensures
        match r {
            Ok(b) => bcrypt_verdict(password@, hash@) == Some(b),
            Err(_) => bcrypt_verdict(password@, hash@) is None,
        },
{
    bcrypt::verify(password, hash)
}

/// A character of bcrypt's base-64 alphabet (`./A-Za-z0-9`).
pub open spec fn is_bcrypt_char(c: char) -> bool {
    c == '.' || c == '/' || ('A' <= c <= 'Z') || ('a' <= c <= 'z') || ('0' <= c <= '9')
}

/// The form of a hash made with `bcrypt::hash` at `DEFAULT_COST`: `$2b$12$`,
/// then 22 characters of salt and 31 of hash, all of bcrypt's alphabet.
pub open spec fn bcrypt_hash_form(h: Seq<char>) -> bool {
    &&& h.len() == 60
    &&& h.subrange(0, 7) == seq!['$', '2', 'b', '$', '1', '2', '$']
    &&& forall|i: int| 7 <= i < 60 ==> is_bcrypt_char(#[trigger] h[i])
}

/// Calls `bcrypt::hash` with `bcrypt::DEFAULT_COST` (12), handing back an
/// error by its `Display` text. The salt is drawn from the operating system,
/// so the hash itself is not determined; the contract states what holds of
/// every outcome, as the crate's source shows it: the hash is `$2b$12$`
/// followed by the base-64 salt (16 bytes, 22 characters) and hash (23
/// bytes, 31 characters), and `bcrypt::verify` accepts the password against
/// it. At this cost the one error that `hash` can return is
/// `BcryptError::Rand`, the random source failing, whose text begins with
/// `Rand error: `; whether it comes is left unsaid.
#[verifier::external_body]
pub(crate) fn bcrypt_hash(password: &str) -> (r: Result<String, String>)
    ensures
        r matches Ok(h) ==> bcrypt_verdict(password@, h@) == Some(true),
        r matches Ok(h) ==> bcrypt_hash_form(h@),
        r matches Err(t) ==> starts_with(t@, "Rand error: "@),
{
    match bcrypt::hash(password, bcrypt::DEFAULT_COST) {
        Ok(h) => Ok(h),
        Err(e) => Err(bcrypt_error_text(&e)),
    }
}

/// The `Display` text of a bcrypt error; nothing is stated of it.
#[verifier::external_body]
pub(crate) fn bcrypt_error_text(e: &bcrypt::BcryptError) -> String {
    e.to_string()
}

} // verus!
