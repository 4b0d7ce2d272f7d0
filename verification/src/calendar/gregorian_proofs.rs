//! Lemmas behind the proleptic-Gregorian conversions: the 400/100/4/1-year cycle decomposition
//! of the day count and the month/day recovery from the day of the year.
use vstd::prelude::*;
use super::{spec_fixed_from_gregorian, spec_gregorian_leap, spec_gregorian_month_length};

verus! {

/// Days in the proleptic-Gregorian years `1..=y` (for `y >= 0`), extended to all integers.
pub open spec fn days_through_year(y: int) -> int {
    365 * y + y / 4 - y / 100 + y / 400
}

/// The cycle decomposition of a year count into 400-, 100-, 4- and 1-year blocks.
pub proof fn lemma_days_through_year_cycles(a: int, c: int, k: int, f: int)
    requires
        0 <= c <= 3,
        0 <= k <= 24,
        0 <= f <= 3,
    ensures
        days_through_year(400 * a + 100 * c + 4 * k + f) == 146097 * a + 36524 * c + 1461 * k + 365 * f,
{
    let y = 400 * a + 100 * c + 4 * k + f;
    assert(y / 4 == 100 * a + 25 * c + k);
    assert(y / 100 == 4 * a + c);
    assert(y / 400 == a);
}

/// The first day of year `y` is one past the days through year `y - 1`.
pub proof fn lemma_new_year_day(y: int)
    ensures
        spec_fixed_from_gregorian(y, 1, 1) == days_through_year(y - 1) + 1,
        spec_fixed_from_gregorian(y + 1, 1, 1) == days_through_year(y) + 1,
        spec_fixed_from_gregorian(y + 1, 1, 1) - spec_fixed_from_gregorian(y, 1, 1)
            == if spec_gregorian_leap(y) { 366int } else { 365int },
{
    let z = y - 1;
    assert(y / 4 - z / 4 == if y % 4 == 0 { 1int } else { 0int });
    assert(y / 100 - z / 100 == if y % 100 == 0 { 1int } else { 0int });
    assert(y / 400 - z / 400 == if y % 400 == 0 { 1int } else { 0int });
}

/// Month and day recovered from the day of the year lie in range and invert the month offsets.
pub proof fn lemma_month_from_prior(y: int, prior: int)
    requires
        0 <= prior < if spec_gregorian_leap(y) { 366int } else { 365int },
    ensures
        ({
            let leap = spec_gregorian_leap(y);
            let corr = if prior < (if leap { 60int } else { 59int }) { 0int } else if leap { 1int } else { 2int };
            let m = (12 * (prior + corr) + 373) / 367;
            let mcorr = if m <= 2 { 0int } else if leap { -1int } else { -2int };
            let day = prior - ((367 * m - 362) / 12 + mcorr) + 1;
            &&& 1 <= m <= 12
            &&& 1 <= day <= spec_gregorian_month_length(y, m)
        }),
{
    let leap = spec_gregorian_leap(y);
    let corr = if prior < (if leap { 60int } else { 59int }) { 0int } else if leap { 1int } else { 2int };
    let m = (12 * (prior + corr) + 373) / 367;
    assert(1 <= m <= 12);
    if m == 1 {
    } else if m == 2 {
    } else if m == 3 {
    } else if m == 4 {
    } else if m == 5 {
    } else if m == 6 {
    } else if m == 7 {
    } else if m == 8 {
    } else if m == 9 {
    } else if m == 10 {
    } else if m == 11 {
    } else {
    }
}

} // verus!

verus! {

/// Each Gregorian month starts where the previous one ends, and December ends the year.
pub proof fn lemma_month_starts(y: int, m: int)
    requires
        1 <= m <= 12,
    ensures
        m < 12 ==> spec_fixed_from_gregorian(y, m + 1, 1) == spec_fixed_from_gregorian(y, m, 1)
            + spec_gregorian_month_length(y, m),
        m == 12 ==> spec_fixed_from_gregorian(y + 1, 1, 1) == spec_fixed_from_gregorian(y, m, 1)
            + spec_gregorian_month_length(y, m),
        spec_fixed_from_gregorian(y, 1, 1) <= spec_fixed_from_gregorian(y, m, 1),
{
    lemma_new_year_day(y);
    if m == 1 {
    } else if m == 2 {
    } else if m == 3 {
    } else if m == 4 {
    } else if m == 5 {
    } else if m == 6 {
    } else if m == 7 {
    } else if m == 8 {
    } else if m == 9 {
    } else if m == 10 {
    } else if m == 11 {
    } else {
    }
}

/// Later months start after every day of earlier months of the same year.
pub proof fn lemma_months_ordered(y: int, m1: int, m2: int)
    requires
        1 <= m1 < m2 <= 12,
    ensures
        spec_fixed_from_gregorian(y, m1, 1) + spec_gregorian_month_length(y, m1) <= spec_fixed_from_gregorian(y, m2, 1),
    decreases m2 - m1,
{
    lemma_month_starts(y, m1);
    if m1 + 1 < m2 {
        lemma_months_ordered(y, m1 + 1, m2);
        lemma_month_starts(y, m1 + 1);
    }
}

/// Every real Gregorian date lies in its own year.
pub proof fn lemma_gregorian_date_in_its_year(y: int, m: int, d: int)
    requires
        super::spec_valid_gregorian(y, m, d),
    ensures
        spec_fixed_from_gregorian(y, 1, 1) <= spec_fixed_from_gregorian(y, m, d) < spec_fixed_from_gregorian(y + 1, 1, 1),
{
    lemma_month_starts(y, m);
    lemma_month_starts(y, 12);
    if m < 12 {
        lemma_months_ordered(y, m, 12);
    }
}

/// New Year's Day is strictly increasing in the year.
pub proof fn lemma_gregorian_new_year_increasing(a: int, b: int)
    requires
        a < b,
    ensures
        spec_fixed_from_gregorian(a, 1, 1) + 365 * (b - a) <= spec_fixed_from_gregorian(b, 1, 1),
    decreases b - a,
{
    lemma_new_year_day(b - 1);
    if a < b - 1 {
        lemma_gregorian_new_year_increasing(a, b - 1);
    }
}

/// The day number of a real Gregorian date determines the date.
pub proof fn lemma_fixed_from_gregorian_injective(y1: int, m1: int, d1: int, y2: int, m2: int, d2: int)
    requires
        super::spec_valid_gregorian(y1, m1, d1),
        super::spec_valid_gregorian(y2, m2, d2),
        spec_fixed_from_gregorian(y1, m1, d1) == spec_fixed_from_gregorian(y2, m2, d2),
    ensures
        y1 == y2 && m1 == m2 && d1 == d2,
{
    lemma_gregorian_date_in_its_year(y1, m1, d1);
    lemma_gregorian_date_in_its_year(y2, m2, d2);
    if y1 + 1 < y2 {
        lemma_gregorian_new_year_increasing(y1 + 1, y2);
    } else if y2 + 1 < y1 {
        lemma_gregorian_new_year_increasing(y2 + 1, y1);
    }
    if m1 < m2 {
        lemma_months_ordered(y1, m1, m2);
    } else if m2 < m1 {
        lemma_months_ordered(y1, m2, m1);
    }
}

} // verus!
