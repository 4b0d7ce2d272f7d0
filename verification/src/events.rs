//! The vocabulary of the altitude-curve reads that the calendar and the knobs speak of: which body
//! a crossing is solved against and in which sense it crosses. The reads themselves are floating
//! point and run in the application layer.
use vstd::prelude::*;

verus! {

/// Which body's altitude curve a crossing is solved against.
#[derive(Clone, Copy, PartialEq, Eq, Debug)]
pub enum Body {
    /// The Sun.
    Sun,
    /// The Moon.
    Moon,
}

/// Sense of an altitude crossing.
#[derive(Clone, Copy, PartialEq, Eq, Debug)]
pub enum Direction {
    /// Ascending (morning).
    Rising,
    /// Descending (evening).
    Setting,
}

} // verus!
