use vstd::prelude::*;
use crate::coords::Coordinate;
use crate::store::{latest_spec, LocationRecord, LocationStore};

verus! {

/// What an update reports back. The distance traveled is a floating-point
/// function of the previous and the newly submitted coordinate; the core
/// therefore reports the previous coordinate itself, and the caller derives
/// the kilometre figure from the two coordinates at the boundary.
#[derive(Clone, Copy, PartialEq, Eq, Structural, Debug)]
pub enum UpdateResponse {
    /// The user had no recorded position before this update.
    Initial,
    /// The user had a position; the payload is the coordinate recorded
    /// immediately before this update, the baseline of the distance
    /// traveled.
    Traveled(Coordinate),
}

/// What a query reports back.
#[derive(Clone, Copy, PartialEq, Eq, Structural, Debug)]
pub enum QueryResponse {
    /// The user has no recorded position; absence of history is normal,
    /// not an error.
    Missing,
    /// The user's most recently recorded fix.
    Location(LocationRecord),
}

/// Records a new position for `user_id` and reports how it relates to the
/// position recorded immediately before it: `Initial` for a first-ever fix,
/// otherwise the previous coordinate as the baseline for the distance
/// traveled. The previous position is read strictly before the new record
/// is appended, so the baseline never observes the record just written.
pub fn update_location(store: &mut LocationStore, user_id: u64, location: Coordinate) -> (r:
    UpdateResponse)
    ensures
        exists|t: i64|
            final(store)@ == #[trigger] old(store)@.push(
                LocationRecord { user_id, timestamp: t, coordinate: location },
            ),
        match latest_spec(old(store)@, user_id) {
            None => r == UpdateResponse::Initial,
            Some(prev) => r == UpdateResponse::Traveled(prev.coordinate),
        },
{
    let prev = store.latest(user_id);
    let timestamp = store.insert(user_id, location);
    proof {
        assert(final(store)@ == old(store)@.push(
            LocationRecord { user_id, timestamp, coordinate: location },
        ));
    }
    match prev {
        Some(p) => UpdateResponse::Traveled(p.coordinate),
        None => UpdateResponse::Initial,
    }
}

/// Reports the most recently recorded position of `user_id`, or `Missing`
/// when the user has no history. Never changes the store.
pub fn query_location(store: &LocationStore, user_id: u64) -> (r: QueryResponse)
    ensures
        match latest_spec(store@, user_id) {
            None => r == QueryResponse::Missing,
            Some(rec) => r == QueryResponse::Location(rec),
        },
{
    match store.latest(user_id) {
        Some(rec) => QueryResponse::Location(rec),
        None => QueryResponse::Missing,
    }
}

} // verus!
