use vstd::prelude::*;

verus! {

/// Largest representable latitude, in microdegrees (90 degrees).
pub const MAX_LAT_UDEG: i64 = 90_000_000;

/// Largest representable longitude, in microdegrees (180 degrees).
pub const MAX_LNG_UDEG: i64 = 180_000_000;

/// A geodetic coordinate on the reference ellipsoid, held as integer
/// microdegrees (one millionth of a degree, about 0.11 m of latitude).
///
/// Integer microdegrees are the one representation used for storage and
/// for all verified logic; callers convert to floating-point degrees only
/// where a geodesic distance is actually computed.
#[derive(Clone, Copy, PartialEq, Eq, Structural, Debug)]
pub struct Coordinate {
    /// Latitude in microdegrees, northward positive.
    pub lat_udeg: i64,
    /// Longitude in microdegrees, eastward positive.
    pub lng_udeg: i64,
}

impl Coordinate {
    /// The coordinate lies on the ellipsoid: latitude within +/-90 degrees,
    /// longitude within +/-180 degrees.
    pub open spec fn valid(self) -> bool {
        &&& -(MAX_LAT_UDEG as int) <= self.lat_udeg as int <= MAX_LAT_UDEG as int
        &&& -(MAX_LNG_UDEG as int) <= self.lng_udeg as int <= MAX_LNG_UDEG as int
    }

    /// Builds a coordinate after range-checking both components, so that
    /// out-of-range input is rejected before it ever reaches a distance
    /// computation.
    pub fn new(lat_udeg: i64, lng_udeg: i64) -> (r: Option<Coordinate>)
        ensures
            r is Some <==> (Coordinate { lat_udeg, lng_udeg }).valid(),
            r matches Some(c) ==> c == (Coordinate { lat_udeg, lng_udeg }),
    {
        if -MAX_LAT_UDEG <= lat_udeg && lat_udeg <= MAX_LAT_UDEG && -MAX_LNG_UDEG <= lng_udeg
            && lng_udeg <= MAX_LNG_UDEG {
            Some(Coordinate { lat_udeg, lng_udeg })
        } else {
            None
        }
    }
}

} // verus!
