//! Deterministic Hebrew-calendar and zmanim core.
use vstd::prelude::*;

pub mod calendar;
pub mod couplings;
pub mod daf_yomi;
pub mod events;
pub mod kiddush_levana;
pub mod optics;
pub mod params;
pub mod tekufa;
pub mod wire;

verus! {

/// An absolute instant: nanoseconds since the Unix epoch, UTC, timezone-free.
#[derive(Clone, Copy, PartialEq, Eq, Debug)]
pub struct AbsoluteInstant {
    /// Nanoseconds since the Unix epoch, UTC.
    pub unix_nanos: i64,
}

} // verus!
