use vstd::prelude::*;

verus! {

/// Earliest instant, in milliseconds since the Unix epoch, that the
/// calendar underlying the RFC 3339 rendering can place: midnight on
/// January 1 of year -262143.
pub const MIN_RFC3339_MILLIS: i64 = -8_334_601_228_800_000;

/// Latest such instant: the last millisecond of December 31 of year 262142.
pub const MAX_RFC3339_MILLIS: i64 = 8_210_266_876_799_999;

/// The RFC 3339 rendering of an instant given as milliseconds since the
/// Unix epoch. The rendering is a function of the millisecond value alone;
/// it is produced by the chrono crate and is not given a definition here.
pub uninterp spec fn rfc3339_of(millis: int) -> Seq<char>;

/// Relies on chrono's `From<SystemTime>` conversion for `DateTime<Utc>` and
/// on `DateTime::timestamp_millis`: the current time as milliseconds since
/// the Unix epoch. Nothing is promised of the value; the clock may move
/// arbitrarily between calls. The `From` conversion handles a clock set
/// before the epoch, so no realistic clock setting makes this panic.
#[verifier::external_body]
pub(crate) fn now_millis() -> i64 {
    chrono::DateTime::<chrono::Utc>::from(std::time::SystemTime::now()).timestamp_millis()
}

/// Relies on chrono's `DateTime::from_timestamp_millis` and `to_rfc3339`:
/// for a millisecond count that chrono's calendar can place — exactly the
/// counts from `MIN_RFC3339_MILLIS` through `MAX_RFC3339_MILLIS` — the
/// result is the RFC 3339 text of that UTC instant, and depends on the
/// millisecond value alone; outside that range the result is `None`.
#[verifier::external_body]
pub(crate) fn rfc3339_millis(millis: i64) -> (r: Option<String>)
    ensures
        r is Some <==> MIN_RFC3339_MILLIS <= millis <= MAX_RFC3339_MILLIS,
        r matches Some(s) ==> s@ == rfc3339_of(millis as int),
{
    chrono::DateTime::from_timestamp_millis(millis).map(|t| t.to_rfc3339())
}

} // verus!
