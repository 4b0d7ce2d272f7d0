//! Couplings between the solar day and the calendar: the outcome of the sun-defined day roll, and
//! the date on which tal-u-matar begins. The roll itself and the instants are floating-point reads
//! and run in the application layer; the date arithmetic here is exact.
use vstd::prelude::*;
use crate::calendar::{
    hebrew_from_fixed, spec_hebrew_date_of, HebrewDate, RataDie, MAX_RATA_DIE, MIN_RATA_DIE,
};
use crate::params::{TalUmatarBasis, TekufaMethod};
use crate::tekufa::{spec_regaim_civil, spec_tekufa_regaim, tekufa_civil, Season};

verus! {

/// Outcome of a day-roll. `BoundaryDoesNotOccur` is the high-latitude does-not-occur signal: the
/// core surfaces it rather than silently falling back to civil midnight.
#[derive(Clone, Copy, PartialEq, Eq, Debug)]
pub enum DayRoll {
    /// The Hebrew date current at the instant, the boundary having resolved normally.
    Resolved(HebrewDate),
    /// A day-boundary read in the determining window did-not-occur (polar day/night).
    BoundaryDoesNotOccur,
}

/// Day number of the 60th day of the tal-u-matar count from Tekufat Tishrei of `y`: the tekufa's
/// day is day 1 unless the tekufa falls at or after 18:00, when the count starts the next day.
pub open spec fn spec_tal_umatar_tekufa_day(y: int, method: TekufaMethod) -> int {
    let civil = spec_regaim_civil(spec_tekufa_regaim(y, Season::Tishrei, method));
    civil.0 + (if civil.1 >= 18 { 1int } else { 0int }) + 59
}

/// The Hebrew day that holds an instant `rg` regaim after RD 0 midnight: the Hebrew day begins
/// at 18:00 mean time, six hours (492_480 regaim) before the civil midnight of its civil day.
proof fn lemma_hebrew_day_of_regaim(rg: int)
    ensures
        ({
            let civil = spec_regaim_civil(rg);
            civil.0 + (if civil.1 >= 18 { 1int } else { 0int }) == (rg + 492_480) / 1_969_920
        }),
{
    let day = 1_969_920int;
    vstd::arithmetic::div_mod::lemma_fundamental_div_mod(rg, day);
    vstd::arithmetic::div_mod::lemma_fundamental_div_mod(rg + 492_480, day);
    let r = rg % day;
    let a = r / 76;
    vstd::arithmetic::div_mod::lemma_fundamental_div_mod(r, 76);
    vstd::arithmetic::div_mod::lemma_fundamental_div_mod(a, 1_080);
}

/// Tal-u-matar is counted from the Hebrew day of Tekufat Tishrei: that day is day 1, and the
/// Hebrew day rolls at 18:00 mean time, so a tekufa at or after 18:00 counts from the next civil
/// day. The 60th day is 59 days after the Hebrew day holding the tekufa.
pub proof fn lemma_tal_umatar_counts_from_the_tekufa_day(y: int, method: TekufaMethod)
    ensures
        spec_tal_umatar_tekufa_day(y, method) == (spec_tekufa_regaim(y, Season::Tishrei, method) + 492_480)
            / 1_969_920 + 59,
{
    lemma_hebrew_day_of_regaim(spec_tekufa_regaim(y, Season::Tishrei, method));
}

/// The Hebrew date on which tal-u-matar begins: 7 Cheshvan on the fixed basis, else the 60th day
/// counted from Tekufat Tishrei of `y`.
pub open spec fn spec_tal_umatar_start_date(y: int, basis: TalUmatarBasis, method: TekufaMethod) -> (int, int, int) {
    match basis {
        TalUmatarBasis::Fixed7Cheshvan => (y, 8, 7),
        TalUmatarBasis::TekufaBased => spec_hebrew_date_of(spec_tal_umatar_tekufa_day(y, method)),
    }
}

/// The Hebrew date on which tal-u-matar (she'elat geshamim) begins, under the basis knob.
/// `year` is the Hebrew year; the realm selects the basis upstream.
pub fn tal_umatar_start_date(year: i32, basis: TalUmatarBasis, method: TekufaMethod) -> (date: HebrewDate)
    requires
        basis == TalUmatarBasis::TekufaBased ==> MIN_RATA_DIE <= spec_tal_umatar_tekufa_day(year as int, method)
            <= MAX_RATA_DIE,
    ensures
        (date.year as int, date.month as int, date.day as int) == spec_tal_umatar_start_date(
            year as int,
            basis,
            method,
        ),
{
    match basis {
        TalUmatarBasis::Fixed7Cheshvan => HebrewDate { year, month: 8, day: 7 },
        TalUmatarBasis::TekufaBased => {
            let (tekufa_rd, hour, _, _) = tekufa_civil(year, Season::Tishrei, method);
            // The counting day rolls at 18:00 mean time: a tekufa after nightfall belongs to the
            // next day. The tekufa day counts as day 1, so the start (60th day) is day 1 + 59.
            let day1 = tekufa_rd.0 + if hour >= 18 {
                1
            } else {
                0
            };
            hebrew_from_fixed(RataDie(day1 + 59))
        },
    }
}

} // verus!

verus! {

/// The civil day whose day-boundary read opens tal-u-matar: the Hebrew start date begins at the
/// boundary of the civil day before it, so maariv entering the start date is read on this day.
pub fn tal_umatar_eve(year: i32, basis: TalUmatarBasis, method: TekufaMethod) -> (eve: RataDie)
    requires
        basis == TalUmatarBasis::Fixed7Cheshvan ==> crate::calendar::spec_new_year_in_range(year as int),
        basis == TalUmatarBasis::TekufaBased ==> MIN_RATA_DIE <= spec_tal_umatar_tekufa_day(year as int, method)
            <= MAX_RATA_DIE,
    ensures
        ({
            let d = spec_tal_umatar_start_date(year as int, basis, method);
            eve.0 == crate::calendar::spec_fixed_from_hebrew(d.0, d.1, d.2) - 1
        }),
        basis == TalUmatarBasis::TekufaBased ==> eve.0 == spec_tal_umatar_tekufa_day(year as int, method) - 1,
{
    match basis {
        TalUmatarBasis::Fixed7Cheshvan => {
            proof {
                crate::calendar::year_length::lemma_new_year_linear_bounds(year as int);
                crate::calendar::date_laws::lemma_days_before_bounded(year as int, 8);
            }
            let rd = crate::calendar::fixed_from_hebrew(HebrewDate { year, month: 8, day: 7 });
            RataDie(rd.0 - 1)
        },
        TalUmatarBasis::TekufaBased => {
            let (tekufa_rd, hour, _, _) = tekufa_civil(year, Season::Tishrei, method);
            let day = tekufa_rd.0 + if hour >= 18 {
                1
            } else {
                0
            } + 59;
            // The start date is the Hebrew date of `day`; its day number is `day` itself.
            let _start = hebrew_from_fixed(RataDie(day));
            RataDie(day - 1)
        },
    }
}

} // verus!

verus! {

/// What a civil day's boundary read gave, relative to the instant whose Hebrew date is sought.
#[derive(Clone, Copy, PartialEq, Eq, Debug)]
pub enum BoundaryOutcome {
    /// The boundary does not occur on that day (polar day or night).
    DoesNotOccur,
    /// The boundary falls at or before the instant.
    NotAfter,
    /// The boundary falls strictly after the instant.
    After,
}

/// The day whose Hebrew date labels the instant, given the boundary outcomes of the consecutive
/// civil days from `first_day` on: the first day whose boundary is after the instant, unless a
/// boundary that does not occur comes first (or none is after it), in which case there is none.
pub open spec fn spec_day_roll(first_day: int, reads: Seq<BoundaryOutcome>) -> Option<int>
    decreases reads.len(),
{
    if reads.len() == 0 {
        None
    } else {
        match reads[0] {
            BoundaryOutcome::DoesNotOccur => None,
            BoundaryOutcome::After => Some(first_day),
            BoundaryOutcome::NotAfter => spec_day_roll(first_day + 1, reads.drop_first()),
        }
    }
}

/// The Hebrew date current at an instant (the day roll): the Hebrew date labelling civil day `D`
/// covers `[boundary(D−1), boundary(D))`, so it is the date of the least scanned day whose
/// boundary is strictly after the instant. `reads[i]` is the outcome for day `first_day + i`; a
/// boundary that does not occur before the deciding day makes the roll undefined.
pub fn day_roll(first_day: RataDie, reads: &[BoundaryOutcome]) -> (roll: DayRoll)
    requires
        MIN_RATA_DIE <= first_day.0,
        first_day.0 + reads@.len() <= MAX_RATA_DIE + 1,
    ensures
        match spec_day_roll(first_day.0 as int, reads@) {
            None => roll == DayRoll::BoundaryDoesNotOccur,
            Some(d) => roll matches DayRoll::Resolved(date) && (date.year as int, date.month as int, date.day as int)
                == spec_hebrew_date_of(d),
        },
{
    let mut i: usize = 0;
    assert(reads@.subrange(0, reads@.len() as int) =~= reads@);
    while i < reads.len()
        invariant
            0 <= i <= reads@.len(),
            MIN_RATA_DIE <= first_day.0,
            first_day.0 + reads@.len() <= MAX_RATA_DIE + 1,
            spec_day_roll(first_day.0 as int, reads@) == spec_day_roll(
                first_day.0 + i,
                reads@.subrange(i as int, reads@.len() as int),
            ),
        decreases reads@.len() - i,
    {
        let ghost rest = reads@.subrange(i as int, reads@.len() as int);
        assert(rest.drop_first() =~= reads@.subrange(i + 1, reads@.len() as int));
        assert(rest[0] == reads@[i as int]);
        match reads[i] {
            BoundaryOutcome::DoesNotOccur => {
                return DayRoll::BoundaryDoesNotOccur;
            },
            BoundaryOutcome::After => {
                return DayRoll::Resolved(hebrew_from_fixed(RataDie(first_day.0 + i as i64)));
            },
            BoundaryOutcome::NotAfter => {},
        }
        i = i + 1;
    }
    assert(reads@.subrange(i as int, reads@.len() as int).len() == 0);
    DayRoll::BoundaryDoesNotOccur
}

} // verus!

verus! {

/// Whether the 60th day of the tal-u-matar count from Tekufat Tishrei of `year` is a day the
/// calendar converts (`MIN_RATA_DIE ..= MAX_RATA_DIE`); false only for years at the far ends of
/// the `i32` range.
pub fn tal_umatar_tekufa_day_in_range(year: i32, method: TekufaMethod) -> (in_range: bool)
    ensures
        in_range <==> MIN_RATA_DIE <= spec_tal_umatar_tekufa_day(year as int, method) <= MAX_RATA_DIE,
{
    let (tekufa_rd, hour, _, _) = tekufa_civil(year, Season::Tishrei, method);
    if hour >= 18 {
        MIN_RATA_DIE - 60 <= tekufa_rd.0 && tekufa_rd.0 <= MAX_RATA_DIE - 60
    } else {
        MIN_RATA_DIE - 59 <= tekufa_rd.0 && tekufa_rd.0 <= MAX_RATA_DIE - 59
    }
}

} // verus!
