//! The year-length theorem of the fixed calendar: with the four postponements, every Hebrew year
//! has 353, 354 or 355 days when common and 383, 384 or 385 when leap.
use vstd::prelude::*;
use super::{
    spec_elapsed_days, spec_hebrew_new_year, spec_hebrew_year_length, spec_is_hebrew_leap,
    spec_molad_day, spec_months_elapsed, spec_permitted_year_length, spec_year_length_correction,
    spec_month_days, spec_last_month_of_year, spec_days_before_month, spec_molad_chalakim,
};

verus! {

/// Rosh Hashanah postponed by a day when the molad day falls on a forbidden weekday.
spec fn adu(d: int) -> int {
    if (3 * (d + 1)) % 7 < 3 {
        d + 1
    } else {
        d
    }
}

spec fn correction(e0: int, e1: int, e2: int) -> int {
    if e2 - e1 == 356 {
        2
    } else if e1 - e0 == 382 {
        1
    } else {
        0
    }
}

/// Whole days a year of 12 (common) or 13 (leap) mean months advances the molad day, before the
/// carry of the parts.
spec fn advance(leap: bool) -> int {
    if leap {
        383
    } else {
        354
    }
}

/// The carry of the parts into one more day over a year of mean months.
spec fn carry(r: int, leap: bool) -> int {
    if leap {
        if r + 23_269 >= 25_920 { 1 } else { 0 }
    } else {
        if r + 9_516 >= 25_920 { 1 } else { 0 }
    }
}

spec fn next_parts(r: int, leap: bool) -> int {
    if leap {
        (r + 23_269) % 25_920
    } else {
        (r + 9_516) % 25_920
    }
}

spec fn parts(m: int) -> int {
    (12_084 + 13_753 * m) % 25_920
}

spec fn months_in(leap: bool) -> int {
    if leap {
        13
    } else {
        12
    }
}

/// The year-length theorem over the abstract state: weekday of the molad day, parts past the day
/// boundary, and the leap pattern of three consecutive years (no two consecutive leap years).
proof fn lemma_length_from_state(t: int, w: int, r0: int, l0: bool, l1: bool, l2: bool)
    requires
        !(l0 && l1),
        !(l1 && l2),
        0 <= w < 7,
        0 <= r0 < 25_920,
    ensures
        ({
            let d0 = 7 * t + w;
            let d1 = d0 + advance(l0) + carry(r0, l0);
            let r1 = next_parts(r0, l0);
            let d2 = d1 + advance(l1) + carry(r1, l1);
            let r2 = next_parts(r1, l1);
            let d3 = d2 + advance(l2) + carry(r2, l2);
            let len = adu(d2) + correction(adu(d1), adu(d2), adu(d3)) - adu(d1) - correction(
                adu(d0),
                adu(d1),
                adu(d2),
            );
            if l1 {
                383 <= len <= 385
            } else {
                353 <= len <= 355
            }
        }),
{
    if w == 0 {
    } else if w == 1 {
    } else if w == 2 {
    } else if w == 3 {
    } else if w == 4 {
    } else if w == 5 {
    } else {
    }
}

/// A year of mean months advances the months count by 12 or, in a leap year, 13.
pub proof fn lemma_months_step(y: int)
    ensures
        spec_months_elapsed(y + 1) == spec_months_elapsed(y) + if spec_is_hebrew_leap(y) { 13int } else { 12int },
{
    let a = 7 * y + 1;
    assert(235 * (y + 1) - 234 == 19 * (12 * y) + a);
    assert(235 * y - 234 == 19 * (12 * y - 12) + (a - 7));
    assert((19 * (12 * y) + a) / 19 == 12 * y + a / 19);
    assert((19 * (12 * y - 12) + (a - 7)) / 19 == 12 * y - 12 + (a - 7) / 19);
}

/// No two consecutive years are leap years.
pub proof fn lemma_no_consecutive_leaps(y: int)
    ensures
        !(spec_is_hebrew_leap(y) && spec_is_hebrew_leap(y + 1)),
{
    assert(7 * (y + 1) + 1 == (7 * y + 1) + 7);
}

proof fn lemma_molad_step(m: int, leap: bool)
    ensures
        spec_molad_day(m + months_in(leap)) == spec_molad_day(m) + advance(leap) + carry(parts(m), leap),
        parts(m + months_in(leap)) == next_parts(parts(m), leap),
        0 <= parts(m) < 25_920,
{
    let p = 12_084 + 13_753 * m;
    let q = p / 25_920;
    let r = p % 25_920;
    vstd::arithmetic::div_mod::lemma_fundamental_div_mod(p, 25_920);
    let p2 = 12_084 + 13_753 * (m + months_in(leap));
    if leap {
        assert(p2 == p + 155_520 + 23_269);
        assert(p2 == 25_920 * (q + 6) + (r + 23_269));
    } else {
        assert(p2 == p + 155_520 + 9_516);
        assert(p2 == 25_920 * (q + 6) + (r + 9_516));
    }
}

/// The year-length theorem: every Hebrew year has one of the six permitted lengths.
pub proof fn lemma_year_length_permitted(y: int)
    ensures
        spec_permitted_year_length(y, spec_hebrew_year_length(y)),
{
    let l0 = spec_is_hebrew_leap(y - 1);
    let l1 = spec_is_hebrew_leap(y);
    let l2 = spec_is_hebrew_leap(y + 1);
    lemma_no_consecutive_leaps(y - 1);
    lemma_no_consecutive_leaps(y);
    lemma_months_step(y - 1);
    lemma_months_step(y);
    lemma_months_step(y + 1);
    let m0 = spec_months_elapsed(y - 1);
    let m1 = spec_months_elapsed(y);
    let m2 = spec_months_elapsed(y + 1);
    let m3 = spec_months_elapsed(y + 2);
    assert(m1 == m0 + months_in(l0));
    assert(m2 == m1 + months_in(l1));
    assert(m3 == m2 + months_in(l2));
    lemma_molad_step(m0, l0);
    lemma_molad_step(m1, l1);
    lemma_molad_step(m2, l2);
    let d0 = spec_molad_day(m0);
    vstd::arithmetic::div_mod::lemma_fundamental_div_mod(d0, 7);
    lemma_length_from_state(d0 / 7, d0 % 7, parts(m0), l0, l1, l2);
    assert(spec_elapsed_days(y - 1) == adu(spec_molad_day(m0)));
    assert(spec_elapsed_days(y) == adu(spec_molad_day(m1)));
    assert(spec_elapsed_days(y + 1) == adu(spec_molad_day(m2)));
    assert(spec_elapsed_days(y + 2) == adu(spec_molad_day(m3)));
}

/// Rosh Hashanah over the abstract state of two consecutive years: it is at most two days after
/// the civil day of its molad, and never before it. `r1 < 12_960` is a molad after civil noon,
/// where the molad day of the postponement frame is already the next civil day.
proof fn lemma_new_year_from_state(t: int, w: int, r0: int, l0: bool, l1: bool)
    requires
        !(l0 && l1),
        0 <= w < 7,
        0 <= r0 < 25_920,
    ensures
        ({
            let d0 = 7 * t + w;
            let d1 = d0 + advance(l0) + carry(r0, l0);
            let r1 = next_parts(r0, l0);
            let d2 = d1 + advance(l1) + carry(r1, l1);
            let civil = d1 - (if r1 < 12_960 { 1int } else { 0int });
            let rh = adu(d1) + correction(adu(d0), adu(d1), adu(d2));
            civil <= rh <= civil + 2
        }),
{
    if w == 0 {
    } else if w == 1 {
    } else if w == 2 {
    } else if w == 3 {
    } else if w == 4 {
    } else if w == 5 {
    } else {
    }
}

/// `x` is `k` whole days and `s` parts past them, `s` possibly negative by less than a day.
proof fn lemma_day_of_parts(x: int, k: int, s: int)
    requires
        x == 25_920 * k + s,
        -25_920 <= s < 25_920,
    ensures
        x / 25_920 == k + (if s < 0 { -1int } else { 0int }),
{
    vstd::arithmetic::div_mod::lemma_fundamental_div_mod(x, 25_920);
}

/// Rosh Hashanah is tied to the molad of Tishrei: it falls on the civil day of the molad or at
/// most two days after it (the postponements — molad zaken, Lo ADU Rosh, GaTaRaD and BeTUTaKPaT —
/// never add up to more than two days).
pub proof fn lemma_new_year_follows_molad(y: int)
    ensures
        spec_molad_chalakim(y, 7) / 25_920 <= spec_hebrew_new_year(y) <= spec_molad_chalakim(y, 7) / 25_920
            + 2,
{
    let l0 = spec_is_hebrew_leap(y - 1);
    let l1 = spec_is_hebrew_leap(y);
    lemma_no_consecutive_leaps(y - 1);
    lemma_months_step(y - 1);
    lemma_months_step(y);
    let m0 = spec_months_elapsed(y - 1);
    let m1 = spec_months_elapsed(y);
    let m2 = spec_months_elapsed(y + 1);
    assert(m1 == m0 + months_in(l0));
    assert(m2 == m1 + months_in(l1));
    lemma_molad_step(m0, l0);
    lemma_molad_step(m1, l1);
    let d0 = spec_molad_day(m0);
    vstd::arithmetic::div_mod::lemma_fundamental_div_mod(d0, 7);
    lemma_new_year_from_state(d0 / 7, d0 % 7, parts(m0), l0, l1);
    assert(spec_elapsed_days(y - 1) == adu(spec_molad_day(m0)));
    assert(spec_elapsed_days(y) == adu(spec_molad_day(m1)));
    assert(spec_elapsed_days(y + 1) == adu(spec_molad_day(m2)));
    let pp = 12_084 + 13_753 * m1;
    vstd::arithmetic::div_mod::lemma_fundamental_div_mod(pp, 25_920);
    let q = pp / 25_920;
    let r1 = parts(m1);
    assert(spec_molad_day(m1) == 29 * m1 + q);
    assert(spec_molad_chalakim(y, 7) == 25_920 * (-1_373_427 + 29 * m1 + q) + (r1 - 12_960));
    lemma_day_of_parts(spec_molad_chalakim(y, 7), -1_373_427 + 29 * m1 + q, r1 - 12_960);
}

/// Rosh Hashanah strictly advances: consecutive new years are at least 353 days apart.
pub proof fn lemma_new_year_increasing(y: int)
    ensures
        spec_hebrew_new_year(y) + 353 <= spec_hebrew_new_year(y + 1) <= spec_hebrew_new_year(y) + 385,
{
    lemma_year_length_permitted(y);
}

} // verus!

verus! {

/// Rosh Hashanah grows linearly with the year at the mean rate of 179876755/492480 days per year.
pub proof fn lemma_new_year_linear_bounds(y: int)
    ensures
        179_876_755 * y - 676_385_328_960 - 200_000_000 <= 492_480 * spec_hebrew_new_year(y),
        492_480 * spec_hebrew_new_year(y) <= 179_876_755 * y - 676_385_328_960 - 170_000_000,
{
    let m = spec_months_elapsed(y);
    let p = 12_084 + 13_753 * m;
    vstd::arithmetic::div_mod::lemma_fundamental_div_mod(235 * y - 234, 19);
    vstd::arithmetic::div_mod::lemma_fundamental_div_mod(p, 25_920);
    let ny = spec_hebrew_new_year(y);
    assert(0 <= spec_year_length_correction(y) <= 2);
    assert(0 <= spec_elapsed_days(y) - spec_molad_day(m) <= 1);
}

} // verus!

verus! {

/// The months of a year add up to the year: Tishrei … the last month plus Nisan … Elul.
pub proof fn lemma_months_fill_year(y: int)
    ensures
        spec_month_days(y, 7, spec_last_month_of_year(y) + 1) + spec_month_days(y, 1, 7) == spec_hebrew_year_length(y),
        spec_days_before_month(y, 1) == spec_month_days(y, 7, spec_last_month_of_year(y) + 1),
{
    lemma_year_length_permitted(y);
    reveal_with_fuel(spec_month_days, 8);
    assert(spec_month_days(y, 1, 7) == 177);
    if spec_is_hebrew_leap(y) {
        assert(spec_month_days(y, 7, 14) == spec_month_days(y, 7, 10) + 29 + 30 + 30 + 29);
    } else {
        assert(spec_month_days(y, 7, 13) == spec_month_days(y, 7, 10) + 29 + 30 + 29);
    }
}

} // verus!

verus! {

proof fn lemma_weekday_from_state(t: int, w: int, r0: int, l0: bool, l1: bool)
    requires
        !(l0 && l1),
        0 <= w < 7,
        0 <= r0 < 25_920,
    ensures
        ({
            let d0 = 7 * t + w;
            let d1 = d0 + advance(l0) + carry(r0, l0);
            let r1 = next_parts(r0, l0);
            let d2 = d1 + advance(l1) + carry(r1, l1);
            let ny = -1_373_427 + adu(d1) + correction(adu(d0), adu(d1), adu(d2));
            ny % 7 != 0 && ny % 7 != 3 && ny % 7 != 5
        }),
{
    if w == 0 {
    } else if w == 1 {
    } else if w == 2 {
    } else if w == 3 {
    } else if w == 4 {
    } else if w == 5 {
    } else {
    }
}

/// Lo ADU Rosh: Rosh Hashanah never falls on Sunday, Wednesday or Friday (weekdays 0, 3, 5 with
/// 0 = Sunday).
pub proof fn lemma_new_year_weekday(y: int)
    ensures
        spec_hebrew_new_year(y) % 7 != 0,
        spec_hebrew_new_year(y) % 7 != 3,
        spec_hebrew_new_year(y) % 7 != 5,
{
    let l0 = spec_is_hebrew_leap(y - 1);
    let l1 = spec_is_hebrew_leap(y);
    lemma_no_consecutive_leaps(y - 1);
    lemma_months_step(y - 1);
    lemma_months_step(y);
    let m0 = spec_months_elapsed(y - 1);
    let m1 = spec_months_elapsed(y);
    let m2 = spec_months_elapsed(y + 1);
    assert(m1 == m0 + months_in(l0));
    assert(m2 == m1 + months_in(l1));
    lemma_molad_step(m0, l0);
    lemma_molad_step(m1, l1);
    let d0 = spec_molad_day(m0);
    vstd::arithmetic::div_mod::lemma_fundamental_div_mod(d0, 7);
    lemma_weekday_from_state(d0 / 7, d0 % 7, parts(m0), l0, l1);
    assert(spec_elapsed_days(y - 1) == adu(spec_molad_day(m0)));
    assert(spec_elapsed_days(y) == adu(spec_molad_day(m1)));
    assert(spec_elapsed_days(y + 1) == adu(spec_molad_day(m2)));
}

} // verus!
