use loctrack::clock::{MAX_RFC3339_MILLIS, MIN_RFC3339_MILLIS};
use loctrack::coords::Coordinate;
use loctrack::store::{LocationRecord, LocationStore};

fn coord(lat_udeg: i64, lng_udeg: i64) -> Coordinate {
    Coordinate::new(lat_udeg, lng_udeg).expect("coordinate in range")
}

fn rec(user_id: u64, timestamp: i64, lat_udeg: i64, lng_udeg: i64) -> LocationRecord {
    LocationRecord { user_id, timestamp, coordinate: coord(lat_udeg, lng_udeg) }
}

#[test]
fn latest_on_empty_store() {
    let store = LocationStore::new();
    assert_eq!(store.latest(1), None);
    assert_eq!(store.len(), 0);
}

#[test]
fn latest_picks_max_timestamp_regardless_of_insertion_order() {
    let a = rec(1, 100, 10_000_000, 20_000_000);
    let b = rec(1, 300, 30_000_000, 40_000_000);
    let c = rec(1, 200, 50_000_000, 60_000_000);

    let mut ascending = LocationStore::new();
    ascending.insert_record(a);
    ascending.insert_record(c);
    ascending.insert_record(b);
    assert_eq!(ascending.latest(1), Some(b));

    let mut descending = LocationStore::new();
    descending.insert_record(b);
    descending.insert_record(c);
    descending.insert_record(a);
    assert_eq!(descending.latest(1), Some(b));
}

#[test]
fn latest_breaks_timestamp_ties_toward_last_inserted() {
    let first = rec(1, 100, 1_000_000, 2_000_000);
    let second = rec(1, 100, 3_000_000, 4_000_000);
    let mut store = LocationStore::new();
    store.insert_record(first);
    store.insert_record(second);
    assert_eq!(store.latest(1), Some(second));
}

#[test]
fn latest_separates_users() {
    let mut store = LocationStore::new();
    store.insert_record(rec(1, 100, 1_000_000, 1_000_000));
    store.insert_record(rec(2, 900, 2_000_000, 2_000_000));
    store.insert_record(rec(1, 200, 3_000_000, 3_000_000));
    assert_eq!(store.latest(1), Some(rec(1, 200, 3_000_000, 3_000_000)));
    assert_eq!(store.latest(2), Some(rec(2, 900, 2_000_000, 2_000_000)));
    assert_eq!(store.latest(3), None);
    assert_eq!(store.len(), 3);
}

#[test]
fn insert_stamps_records_itself() {
    let mut store = LocationStore::new();
    let before = chrono::Utc::now().timestamp_millis();
    let stamped = store.insert(5, coord(7_000_000, 8_000_000));
    let after = chrono::Utc::now().timestamp_millis();
    assert!(before <= stamped && stamped <= after);
    let latest = store.latest(5).expect("record was just inserted");
    assert_eq!(latest.timestamp, stamped);
    assert_eq!(latest.coordinate, coord(7_000_000, 8_000_000));
}

#[test]
fn timestamp_renders_as_rfc3339() {
    let epoch = rec(1, 0, 0, 0);
    assert_eq!(epoch.timestamp_rfc3339().as_deref(), Some("1970-01-01T00:00:00+00:00"));
    let next_day = rec(1, 86_400_000, 0, 0);
    assert_eq!(next_day.timestamp_rfc3339().as_deref(), Some("1970-01-02T00:00:00+00:00"));
    let far_out = rec(1, i64::MAX, 0, 0);
    assert_eq!(far_out.timestamp_rfc3339(), None);
}

#[test]
fn timestamp_rendering_succeeds_exactly_on_the_calendar_range() {
    assert!(rec(1, MIN_RFC3339_MILLIS, 0, 0).timestamp_rfc3339().is_some());
    assert_eq!(rec(1, MIN_RFC3339_MILLIS - 1, 0, 0).timestamp_rfc3339(), None);
    assert!(rec(1, MAX_RFC3339_MILLIS, 0, 0).timestamp_rfc3339().is_some());
    assert_eq!(rec(1, MAX_RFC3339_MILLIS + 1, 0, 0).timestamp_rfc3339(), None);
}

#[test]
fn coordinate_range_is_checked() {
    assert!(Coordinate::new(90_000_000, 180_000_000).is_some());
    assert!(Coordinate::new(-90_000_000, -180_000_000).is_some());
    assert!(Coordinate::new(90_000_001, 0).is_none());
    assert!(Coordinate::new(-90_000_001, 0).is_none());
    assert!(Coordinate::new(0, 180_000_001).is_none());
    assert!(Coordinate::new(0, -180_000_001).is_none());
}
