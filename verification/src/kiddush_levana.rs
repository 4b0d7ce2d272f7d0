//! The Kiddush Levana window: the period in which the blessing over the moon may be recited,
//! measured from the molad under the start and end knobs. The molad's projection to an absolute
//! instant happens upstream; here the window is placed around a given molad instant, in exact
//! nanoseconds.
use crate::params::{KiddushLevanaEnd, KiddushLevanaStart};
use crate::AbsoluteInstant;
use vstd::prelude::*;

verus! {

/// Nanoseconds in one day.
pub const NANOS_PER_DAY: i64 = 86_400_000_000_000;

/// Half a mean synodic month (765433 / 2 chalakim, 14d 18h 22m 1⅔s) in nanoseconds, rounded to
/// the nearest nanosecond.
pub const HALF_MONTH_NANOS: i64 = 1_275_721_666_666_667;

/// Offset of the window's opening from the molad, in nanoseconds, under the start knob.
pub open spec fn spec_start_offset(start: KiddushLevanaStart) -> int {
    match start {
        KiddushLevanaStart::ThreeDays => 3 * 86_400_000_000_000int,
        KiddushLevanaStart::SevenDays => 7 * 86_400_000_000_000int,
        KiddushLevanaStart::Molad => 0,
    }
}

/// Offset of the window's close from the molad, in nanoseconds, under the end knob: half a mean
/// synodic month is `765433 / 2` chalakim of `10^10 / 3` ns each, rounded to the nearest ns.
pub open spec fn spec_end_offset(end: KiddushLevanaEnd) -> int {
    match end {
        KiddushLevanaEnd::HalfMonth => (765_433 * 10_000_000_000int + 3) / 6,
        KiddushLevanaEnd::FifteenDays => 15 * 86_400_000_000_000int,
    }
}

/// `t + offset` nanoseconds, clamped to the top of the `i64` nanosecond domain (near 2262 CE).
pub open spec fn spec_shift(t: int, offset: int) -> int {
    if t + offset > i64::MAX {
        i64::MAX as int
    } else {
        t + offset
    }
}

fn start_offset_nanos(start: KiddushLevanaStart) -> (off: i64)
    ensures
        off == spec_start_offset(start),
{
    match start {
        KiddushLevanaStart::ThreeDays => 3 * NANOS_PER_DAY,
        KiddushLevanaStart::SevenDays => 7 * NANOS_PER_DAY,
        KiddushLevanaStart::Molad => 0,
    }
}

fn end_offset_nanos(end: KiddushLevanaEnd) -> (off: i64)
    ensures
        off == spec_end_offset(end),
{
    match end {
        KiddushLevanaEnd::HalfMonth => HALF_MONTH_NANOS,
        KiddushLevanaEnd::FifteenDays => 15 * NANOS_PER_DAY,
    }
}

/// Shift an instant forward by `offset` nanoseconds, saturating at the top of the domain: a
/// far-future molad clamps to the bound rather than overflowing.
fn shift_nanos(t: AbsoluteInstant, offset: i64) -> (shifted: AbsoluteInstant)
    requires
        offset >= 0,
    ensures
        shifted.unix_nanos == spec_shift(t.unix_nanos as int, offset as int),
{
    if t.unix_nanos > i64::MAX - offset {
        AbsoluteInstant { unix_nanos: i64::MAX }
    } else {
        AbsoluteInstant { unix_nanos: t.unix_nanos + offset }
    }
}

/// The Kiddush Levana window `[earliest, latest]` around the molad instant `molad` under the
/// knobs: `earliest = molad + start`, `latest = molad + end`, each saturating at the top of the
/// nanosecond domain.
pub fn kiddush_levana_window(
    molad: AbsoluteInstant,
    start: KiddushLevanaStart,
    end: KiddushLevanaEnd,
) -> (window: (AbsoluteInstant, AbsoluteInstant))
    ensures
        window.0.unix_nanos == spec_shift(molad.unix_nanos as int, spec_start_offset(start)),
        window.1.unix_nanos == spec_shift(molad.unix_nanos as int, spec_end_offset(end)),
{
    (shift_nanos(molad, start_offset_nanos(start)), shift_nanos(molad, end_offset_nanos(end)))
}

/// Every knob setting opens the window before it closes: the opening is at most seven days after
/// the molad and the close at least half a synodic month after it. Where the close does not
/// saturate, the window is exactly `end − start` long, and the molad itself is never after the
/// opening.
pub proof fn lemma_window_well_formed(
    molad: AbsoluteInstant,
    start: KiddushLevanaStart,
    end: KiddushLevanaEnd,
)
    requires
        molad.unix_nanos + spec_end_offset(end) <= i64::MAX,
    ensures
        molad.unix_nanos <= spec_shift(molad.unix_nanos as int, spec_start_offset(start)),
        spec_shift(molad.unix_nanos as int, spec_start_offset(start)) < spec_shift(
            molad.unix_nanos as int,
            spec_end_offset(end),
        ),
        spec_shift(molad.unix_nanos as int, spec_end_offset(end)) - spec_shift(
            molad.unix_nanos as int,
            spec_start_offset(start),
        ) == spec_end_offset(end) - spec_start_offset(start),
        7 * 86_400_000_000_000 < spec_end_offset(end) - spec_start_offset(start) <= 15
            * 86_400_000_000_000,
{
}

/// The window ∩ night bracket: `[max(open, dusk), min(close, dawn)]`, or `None` when it is empty.
pub fn window_night_bracket(
    window: (AbsoluteInstant, AbsoluteInstant),
    dusk: AbsoluteInstant,
    dawn: AbsoluteInstant,
) -> (bracket: Option<(AbsoluteInstant, AbsoluteInstant)>)
    ensures
        ({
            let lo = if window.0.unix_nanos >= dusk.unix_nanos {
                window.0.unix_nanos
            } else {
                dusk.unix_nanos
            };
            let hi = if window.1.unix_nanos <= dawn.unix_nanos {
                window.1.unix_nanos
            } else {
                dawn.unix_nanos
            };
            match bracket {
                None => lo >= hi,
                Some((a, b)) => lo < hi && a.unix_nanos == lo && b.unix_nanos == hi,
            }
        }),
{
    let lo = if window.0.unix_nanos >= dusk.unix_nanos {
        window.0.unix_nanos
    } else {
        dusk.unix_nanos
    };
    let hi = if window.1.unix_nanos <= dawn.unix_nanos {
        window.1.unix_nanos
    } else {
        dawn.unix_nanos
    };
    if lo >= hi {
        None
    } else {
        Some((AbsoluteInstant { unix_nanos: lo }, AbsoluteInstant { unix_nanos: hi }))
    }
}

/// Whether `t` lies inside the closed window `[open, close]`.
pub fn within_window(t: AbsoluteInstant, window: (AbsoluteInstant, AbsoluteInstant)) -> (inside: bool)
    ensures
        inside <==> window.0.unix_nanos <= t.unix_nanos <= window.1.unix_nanos,
{
    !(t.unix_nanos < window.0.unix_nanos || t.unix_nanos > window.1.unix_nanos)
}

} // verus!
