use vstd::prelude::*;
use crate::clock;
use crate::coords::Coordinate;

verus! {

/// One historical GPS fix. A record is immutable once written: the store
/// only ever appends, and the current position of a user is the record with
/// the greatest timestamp among that user's records.
#[derive(Clone, Copy, PartialEq, Eq, Structural, Debug)]
pub struct LocationRecord {
    /// The identity whose trail this record belongs to.
    pub user_id: u64,
    /// Server-assigned capture time, milliseconds since the Unix epoch.
    pub timestamp: i64,
    /// The recorded position.
    pub coordinate: Coordinate,
}

impl LocationRecord {
    /// The RFC 3339 rendering of this record's server-assigned timestamp.
    /// `None` exactly for timestamps outside the representable calendar
    /// range.
    pub fn timestamp_rfc3339(&self) -> (r: Option<String>)
        ensures
            r is Some <==> clock::MIN_RFC3339_MILLIS <= self.timestamp
                <= clock::MAX_RFC3339_MILLIS,
            r matches Some(s) ==> s@ == clock::rfc3339_of(self.timestamp as int),
    {
        clock::rfc3339_millis(self.timestamp)
    }
}

/// The record of `s` with the greatest timestamp among those belonging to
/// `user_id`, ties resolved toward the record appended last; `None` when
/// the user has no record.
pub open spec fn latest_spec(s: Seq<LocationRecord>, user_id: u64) -> Option<LocationRecord>
    decreases s.len(),
{
    if s.len() == 0 {
        None
    } else {
        let rest = latest_spec(s.drop_last(), user_id);
        let last = s.last();
        if last.user_id != user_id {
            rest
        } else {
            match rest {
                None => Some(last),
                Some(b) => if last.timestamp >= b.timestamp {
                    Some(last)
                } else {
                    Some(b)
                },
            }
        }
    }
}

/// How many records of `s` belong to `user_id`.
pub open spec fn user_record_count(s: Seq<LocationRecord>, user_id: u64) -> nat
    decreases s.len(),
{
    if s.len() == 0 {
        0
    } else {
        user_record_count(s.drop_last(), user_id) + if s.last().user_id == user_id {
            1nat
        } else {
            0nat
        }
    }
}

/// A user's latest record is absent exactly when the user has no record,
/// and otherwise is one of that user's records and carries the greatest
/// timestamp among them.
pub proof fn lemma_latest_is_max(s: Seq<LocationRecord>, user_id: u64)
    ensures
        (latest_spec(s, user_id) is None) <==> (forall|i: int|
            0 <= i < s.len() ==> (#[trigger] s[i]).user_id != user_id),
        latest_spec(s, user_id) matches Some(r) ==> {
            &&& s.contains(r)
            &&& r.user_id == user_id
            &&& forall|i: int|
                0 <= i < s.len() && (#[trigger] s[i]).user_id == user_id ==> s[i].timestamp
                    <= r.timestamp
        },
    decreases s.len(),
{
    if s.len() > 0 {
        lemma_latest_is_max(s.drop_last(), user_id);
        assert forall|i: int| 0 <= i < s.len() - 1 implies s.drop_last()[i] == s[i] by {}
        if latest_spec(s, user_id) is Some {
            let r = latest_spec(s, user_id)->Some_0;
            if s.drop_last().contains(r) {
                let w = choose|w: int| 0 <= w < s.len() - 1 && s.drop_last()[w] == r;
                assert(s[w] == r);
            }
        }
    }
}

/// Whichever order the records were appended in, when one record of a user
/// carries a strictly greater timestamp than every other record of that
/// user, that record is the user's latest.
pub proof fn lemma_latest_unique_max(s: Seq<LocationRecord>, r: LocationRecord)
    requires
        s.contains(r),
        forall|i: int|
            0 <= i < s.len() && (#[trigger] s[i]).user_id == r.user_id && s[i] != r ==> s[i].timestamp
                < r.timestamp,
    ensures
        latest_spec(s, r.user_id) == Some(r),
{
    lemma_latest_is_max(s, r.user_id);
    let ri = choose|ri: int| 0 <= ri < s.len() && s[ri] == r;
    assert(s[ri].user_id == r.user_id);
    let m = latest_spec(s, r.user_id)->Some_0;
    let mi = choose|mi: int| 0 <= mi < s.len() && s[mi] == m;
    assert(s[ri].timestamp <= m.timestamp);
    assert(m == r);
}

/// A user has no latest record exactly when that user's record count is
/// zero.
pub proof fn lemma_latest_none_iff_count_zero(s: Seq<LocationRecord>, user_id: u64)
    ensures
        (latest_spec(s, user_id) is None) <==> user_record_count(s, user_id) == 0,
    decreases s.len(),
{
    if s.len() > 0 {
        lemma_latest_none_iff_count_zero(s.drop_last(), user_id);
    }
}

/// A first update for a user: appending a record for a user who had none
/// leaves exactly one record for that user, and it becomes the latest.
pub proof fn lemma_first_update(s: Seq<LocationRecord>, rec: LocationRecord)
    requires
        latest_spec(s, rec.user_id) is None,
    ensures
        user_record_count(s.push(rec), rec.user_id) == 1,
        latest_spec(s.push(rec), rec.user_id) == Some(rec),
{
    lemma_latest_none_iff_count_zero(s, rec.user_id);
    assert(s.push(rec).drop_last() =~= s);
}

/// A subsequent update: appending a record grows that user's record count
/// by exactly one and leaves every other user's trail untouched.
pub proof fn lemma_subsequent_update(s: Seq<LocationRecord>, rec: LocationRecord, other: u64)
    ensures
        user_record_count(s.push(rec), rec.user_id) == user_record_count(s, rec.user_id) + 1,
        other != rec.user_id ==> user_record_count(s.push(rec), other) == user_record_count(
            s,
            other,
        ) && latest_spec(s.push(rec), other) == latest_spec(s, other),
{
    assert(s.push(rec).drop_last() =~= s);
}

/// The append-only store of location records, the one shared mutable
/// resource of the service. It holds the full trail of every user; reads
/// never change it.
pub struct LocationStore {
    records: Vec<LocationRecord>,
}

impl View for LocationStore {
    type V = Seq<LocationRecord>;

    closed spec fn view(&self) -> Seq<LocationRecord> {
        self.records@
    }
}

impl LocationStore {
    /// An empty store with no history at all.
    pub fn new() -> (r: LocationStore)
        ensures
            r@ == Seq::<LocationRecord>::empty(),
    {
        LocationStore { records: Vec::new() }
    }

    /// Appends `rec` as given, trusting its timestamp. This is the primitive
    /// for reloading an existing trail; a live update goes through `insert`,
    /// which stamps the record itself.
    pub fn insert_record(&mut self, rec: LocationRecord)
        ensures
            final(self)@ == old(self)@.push(rec),
    {
        self.records.push(rec);
    }

    /// Appends a new fix for `user_id`, stamping it with the clock at the
    /// moment of the call — a caller never supplies the timestamp. Returns
    /// the stamped timestamp.
    pub fn insert(&mut self, user_id: u64, coordinate: Coordinate) -> (timestamp: i64)
        ensures
            final(self)@ == old(self)@.push(
                LocationRecord { user_id, timestamp, coordinate },
            ),
    {
        let timestamp = clock::now_millis();
        self.insert_record(LocationRecord { user_id, timestamp, coordinate });
        timestamp
    }

    /// The single most recent record for `user_id`, or `None` when that
    /// user has no history. Read-only.
    pub fn latest(&self, user_id: u64) -> (r: Option<LocationRecord>)
        ensures
            r == latest_spec(self@, user_id),
    {
        let n = self.records.len();
        let mut best: Option<LocationRecord> = None;
        let mut i: usize = 0;
        while i < n
            invariant
                n == self@.len(),
                0 <= i <= n,
                best == latest_spec(self@.take(i as int), user_id),
            decreases n - i,
        {
            let rec = self.records[i];
            proof {
                assert(self@.take(i + 1).drop_last() =~= self@.take(i as int));
                assert(self@.take(i + 1).last() == self@[i as int]);
            }
            if rec.user_id == user_id {
                best = match best {
                    None => Some(rec),
                    Some(b) => if rec.timestamp >= b.timestamp {
                        Some(rec)
                    } else {
                        Some(b)
                    },
                };
            }
            i = i + 1;
        }
        proof {
            assert(self@.take(n as int) =~= self@);
        }
        best
    }

    /// How many records the store holds in all, over every user.
    pub fn len(&self) -> (n: usize)
        ensures
            n == self@.len(),
    {
        self.records.len()
    }
}

} // verus!
