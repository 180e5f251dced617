//! Time arithmetic on UNIX timestamps, with chrono.

use vstd::prelude::*;

verus! {

/// The first instant chrono represents: January 1 of the year -262143, in
/// UNIX seconds.
pub open spec fn first_instant() -> int {
    -8_334_601_228_800
}

/// The last whole second chrono represents: the end of December 31 of the
/// year 262142, in UNIX seconds.
pub open spec fn last_instant() -> int {
    8_210_266_876_799
}

/// Whether both instants lie within chrono's range.
pub open spec fn within_range(a: int, b: int) -> bool {
    first_instant() <= a <= last_instant() && first_instant() <= b <= last_instant()
}

/// Adds `minutes` to the UTC instant `ts` (UNIX seconds) with chrono's
/// `DateTime::checked_add_signed`, converting from and to timestamps
/// (`DateTime::from_timestamp`, `TimeDelta::try_minutes`,
/// `DateTime::timestamp`). Each step fails, with `None`, exactly when an
/// instant leaves chrono's range, so the sum comes back exactly when the
/// start and the sum both lie in it.
#[verifier::external_body]
pub(crate) fn timestamp_plus_minutes(ts: i64, minutes: i64) -> (r: Option<i64>)
    ensures
        r matches Some(t) ==> t == ts + 60 * minutes,
        r is Some <==> within_range(ts as int, ts + 60 * minutes),
{
    let start = chrono::DateTime::<chrono::Utc>::from_timestamp(ts, 0)?;
    let step = chrono::TimeDelta::try_minutes(minutes)?;
    match start.checked_add_signed(step) {
        Some(t) => Some(t.timestamp()),
        None => None,
    }
}

} // verus!
