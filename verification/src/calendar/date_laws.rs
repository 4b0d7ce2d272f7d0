//! Laws of the Hebrew date arithmetic: every real date falls inside its own year, the day number
//! of a real date determines the date, and conversion in either direction undoes the other.
use vstd::prelude::*;
use super::{
    spec_days_before_month, spec_fixed_from_hebrew, spec_hebrew_new_year, spec_hebrew_year_length,
    spec_last_day_of_month, spec_last_month_of_year, spec_month_days, spec_valid_hebrew,
};
use super::year_length::{lemma_months_fill_year, lemma_new_year_increasing};

verus! {

/// Month lengths add up monotonically: a longer run of months has at least as many days.
pub proof fn lemma_month_days_monotone(y: int, from: int, a: int, b: int)
    requires
        from <= a <= b,
    ensures
        spec_month_days(y, from, a) <= spec_month_days(y, from, b),
        spec_month_days(y, from, b) - spec_month_days(y, from, a) >= 29 * (b - a),
    decreases b - a,
{
    if a < b {
        lemma_month_days_monotone(y, from, a, b - 1);
    }
}

/// Rosh Hashanah is strictly increasing in the year.
pub proof fn lemma_new_year_strictly_increasing(a: int, b: int)
    requires
        a < b,
    ensures
        spec_hebrew_new_year(a) + 353 * (b - a) <= spec_hebrew_new_year(b),
    decreases b - a,
{
    lemma_new_year_increasing(b - 1);
    if a < b - 1 {
        lemma_new_year_strictly_increasing(a, b - 1);
    }
}

/// Position of month `m` in the year's order Tishrei … last month, Nisan … Elul (0-based).
pub open spec fn month_position(y: int, m: int) -> int {
    if m >= 7 {
        m - 7
    } else {
        m + spec_last_month_of_year(y) - 6
    }
}

/// A month's first day comes after every day of every earlier month of the year.
pub proof fn lemma_days_before_ordered(y: int, m1: int, m2: int)
    requires
        1 <= m1 <= spec_last_month_of_year(y),
        1 <= m2 <= spec_last_month_of_year(y),
        month_position(y, m1) < month_position(y, m2),
    ensures
        spec_days_before_month(y, m1) + spec_last_day_of_month(y, m1) <= spec_days_before_month(y, m2),
{
    let last = spec_last_month_of_year(y);
    if m1 >= 7 && m2 >= 7 {
        lemma_month_days_monotone(y, 7, m1 + 1, m2);
    } else if m1 >= 7 {
        lemma_month_days_monotone(y, 7, m1 + 1, last + 1);
        lemma_month_days_monotone(y, 1, 1, m2);
    } else {
        lemma_month_days_monotone(y, 1, m1 + 1, m2);
    }
}

/// Every real date lies in its own year: between that year's Rosh Hashanah and the next.
pub proof fn lemma_date_in_its_year(y: int, m: int, d: int)
    requires
        spec_valid_hebrew(y, m, d),
    ensures
        spec_hebrew_new_year(y) <= spec_fixed_from_hebrew(y, m, d) < spec_hebrew_new_year(y + 1),
{
    let last = spec_last_month_of_year(y);
    lemma_months_fill_year(y);
    if m >= 7 {
        lemma_month_days_monotone(y, 7, 7, m);
        lemma_month_days_monotone(y, 7, m + 1, last + 1);
        lemma_month_days_monotone(y, 1, 1, 7);
    } else {
        lemma_month_days_monotone(y, 7, 7, last + 1);
        lemma_month_days_monotone(y, 1, 1, m);
        lemma_month_days_monotone(y, 1, m + 1, 7);
    }
}

/// The day number of a real Hebrew date determines the date.
pub proof fn lemma_fixed_from_hebrew_injective(y1: int, m1: int, d1: int, y2: int, m2: int, d2: int)
    requires
        spec_valid_hebrew(y1, m1, d1),
        spec_valid_hebrew(y2, m2, d2),
        spec_fixed_from_hebrew(y1, m1, d1) == spec_fixed_from_hebrew(y2, m2, d2),
    ensures
        y1 == y2 && m1 == m2 && d1 == d2,
{
    lemma_date_in_its_year(y1, m1, d1);
    lemma_date_in_its_year(y2, m2, d2);
    if y1 < y2 {
        lemma_new_year_strictly_increasing(y1 + 1, y2);
        if y1 + 1 == y2 {
        }
    } else if y2 < y1 {
        lemma_new_year_strictly_increasing(y2 + 1, y1);
    }
    assert(y1 == y2) by {
        if y1 < y2 {
            if y1 + 1 < y2 {
                lemma_new_year_strictly_increasing(y1 + 1, y2);
            }
        } else if y2 < y1 {
            if y2 + 1 < y1 {
                lemma_new_year_strictly_increasing(y2 + 1, y1);
            }
        }
    }
    if month_position(y1, m1) < month_position(y1, m2) {
        lemma_days_before_ordered(y1, m1, m2);
    } else if month_position(y1, m2) < month_position(y1, m1) {
        lemma_days_before_ordered(y1, m2, m1);
    }
}

} // verus!

verus! {

/// A real date is the Hebrew date of its own day number.
pub proof fn lemma_date_of_its_day(y: int, m: int, d: int)
    requires
        spec_valid_hebrew(y, m, d),
    ensures
        super::spec_hebrew_date_of(spec_fixed_from_hebrew(y, m, d)) == (y, m, d),
{
    let rd = spec_fixed_from_hebrew(y, m, d);
    let w = (y, m, d);
    assert(super::spec_is_date_of(w, rd));
    let t = super::spec_hebrew_date_of(rd);
    assert(super::spec_is_date_of(t, rd));
    lemma_fixed_from_hebrew_injective(y, m, d, t.0, t.1, t.2);
}

} // verus!

verus! {

/// Months of any number add at most 30 days each before the given month.
pub proof fn lemma_days_before_bounded(y: int, m: int)
    requires
        0 <= m <= 255,
    ensures
        0 <= spec_days_before_month(y, m) <= 30 * 255 + 30 * 14,
{
    let last = spec_last_month_of_year(y);
    lemma_month_days_bounded(y, 7, last + 1);
    lemma_month_days_bounded(y, 1, m);
    lemma_month_days_bounded(y, 7, m);
}

/// A run of months has at most 30 days per month.
pub proof fn lemma_month_days_bounded(y: int, from: int, to: int)
    ensures
        0 <= spec_month_days(y, from, to),
        from <= to ==> spec_month_days(y, from, to) <= 30 * (to - from),
    decreases to - from,
{
    if from < to {
        lemma_month_days_bounded(y, from, to - 1);
    }
}

/// The Hebrew date following `(y, m, d)`: the next day of the month, else the 1st of the next
/// month in year order (Tishrei … the last month, then Nisan … Elul), Elul running into Tishrei
/// of the next year.
pub open spec fn spec_next_hebrew_date(y: int, m: int, d: int) -> (int, int, int) {
    if d < spec_last_day_of_month(y, m) {
        (y, m, d + 1)
    } else if m == 6 {
        (y + 1, 7, 1)
    } else if m == spec_last_month_of_year(y) {
        (y, 1, 1)
    } else {
        (y, m + 1, 1)
    }
}

/// The day after a real date is its successor date: it is a real date, one day later by day
/// number — so the Hebrew date advances by exactly one day per civil day, across month ends, the
/// Adar/Nisan seam and Rosh Hashanah alike.
pub proof fn lemma_successor_date(y: int, m: int, d: int)
    requires
        spec_valid_hebrew(y, m, d),
    ensures
        ({
            let n = spec_next_hebrew_date(y, m, d);
            &&& spec_valid_hebrew(n.0, n.1, n.2)
            &&& spec_fixed_from_hebrew(n.0, n.1, n.2) == spec_fixed_from_hebrew(y, m, d) + 1
        }),
{
    let last = spec_last_month_of_year(y);
    if d < spec_last_day_of_month(y, m) {
    } else if m == 6 {
        lemma_months_fill_year(y);
        assert(spec_month_days(y, 1, 7) == spec_month_days(y, 1, 6) + spec_last_day_of_month(y, 6));
        assert(spec_days_before_month(y + 1, 7) == 0);
    } else if m == last {
        lemma_months_fill_year(y);
        assert(spec_month_days(y, 7, last + 1) == spec_month_days(y, 7, last) + spec_last_day_of_month(y, last));
    } else if m >= 7 {
        assert(spec_month_days(y, 7, m + 1) == spec_month_days(y, 7, m) + spec_last_day_of_month(y, m));
    } else {
        assert(spec_month_days(y, 1, m + 1) == spec_month_days(y, 1, m) + spec_last_day_of_month(y, m));
    }
}

/// Day by day: the Hebrew date of the day after `rd` is the successor of the Hebrew date of `rd`
/// (for every day whose date `hebrew_from_fixed` returns).
pub proof fn lemma_day_after(rd: int)
    requires
        ({
            let t = super::spec_hebrew_date_of(rd);
            spec_valid_hebrew(t.0, t.1, t.2) && spec_fixed_from_hebrew(t.0, t.1, t.2) == rd
        }),
    ensures
        ({
            let t = super::spec_hebrew_date_of(rd);
            super::spec_hebrew_date_of(rd + 1) == spec_next_hebrew_date(t.0, t.1, t.2)
        }),
{
    let t = super::spec_hebrew_date_of(rd);
    lemma_successor_date(t.0, t.1, t.2);
    let n = spec_next_hebrew_date(t.0, t.1, t.2);
    lemma_date_of_its_day(n.0, n.1, n.2);
}

} // verus!
