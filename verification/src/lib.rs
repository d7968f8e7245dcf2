//! A minimal location-tracking core: clients are identified by a numeric
//! API key, submit geodetic coordinates, and read back their most recently
//! recorded position. Each submission also reports the coordinate recorded
//! immediately before it, from which the distance traveled is derived.
//!
//! Coordinates are held as integer microdegrees throughout, so range checks
//! and equality are exact; conversion to floating-point degrees happens only
//! at the unverified boundary.

pub mod clock;
pub mod coords;
pub mod credential;
pub mod handlers;
pub mod store;
