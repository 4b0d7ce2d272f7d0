//! The Hebrew calendar as fixed arithmetic on Rata Die day numbers, with the proleptic Gregorian
//! calendar as the civil pivot.
use vstd::prelude::*;

pub mod gregorian_proofs;
pub mod year_length;
pub mod date_laws;
pub mod day_laws;

use crate::params::{AdarAnniversaryRule, Realm};
use gregorian_proofs::{lemma_days_through_year_cycles, lemma_new_year_day, lemma_month_from_prior};

verus! {

/// Rata Die: integer day number; RD 1 = proleptic-Gregorian 0001-01-01.
#[derive(Clone, Copy, PartialEq, Eq, PartialOrd, Ord, Debug)]
pub struct RataDie(pub i64);

/// Smallest Rata Die the Hebrew and Gregorian conversions from a day number accept: every date
/// from here on has a year that fits an `i32` with room for the neighbouring years.
pub const MIN_RATA_DIE: i64 = -784_350_000_000;
/// Largest Rata Die the conversions from a day number accept.
pub const MAX_RATA_DIE: i64 = 784_350_000_000;

/// Euclidean quotient `a div b` for a positive divisor.
fn quotient(a: i64, b: i64) -> (q: i64)
    requires
        b > 0,
    ensures
        q == a as int / b as int,
{
    proof {
        let (x, d) = (a as int, b as int);
        vstd::arithmetic::div_mod::lemma_fundamental_div_mod(x, d);
        vstd::arithmetic::div_mod::lemma_mod_bound(x, d);
        let q = x / d;
        let r = x % d;
        assert(x <= q <= 0 || 0 <= q <= x) by (nonlinear_arith)
            requires
                x == d * q + r,
                0 <= r < d,
                d >= 1,
        ;
    }
    match a.checked_div_euclid(b) {
        Some(q) => q,
        None => 0,
    }
}

/// Euclidean remainder `a mod b` for a positive divisor (always in `0..b`).
fn amod(a: i64, b: i64) -> (r: i64)
    requires
        b > 0,
    ensures
        r == a as int % b as int,
        0 <= r < b,
{
    proof {
        vstd::arithmetic::div_mod::lemma_mod_bound(a as int, b as int);
    }
    match a.checked_rem_euclid(b) {
        Some(r) => r,
        None => 0,
    }
}

// ── Proleptic Gregorian ─────────────────────────────────────────────────────────────────────

/// The Gregorian leap-year rule.
pub open spec fn spec_gregorian_leap(y: int) -> bool {
    (y % 4 == 0 && y % 100 != 0) || y % 400 == 0
}

/// Days in Gregorian month `m` (1..=12) of year `y`.
pub open spec fn spec_gregorian_month_length(y: int, m: int) -> int {
    if m == 2 {
        if spec_gregorian_leap(y) { 29 } else { 28 }
    } else if m == 4 || m == 6 || m == 9 || m == 11 {
        30
    } else {
        31
    }
}

/// A real Gregorian calendar date.
pub open spec fn spec_valid_gregorian(y: int, m: int, d: int) -> bool {
    1 <= m <= 12 && 1 <= d <= spec_gregorian_month_length(y, m)
}

/// Rata Die of the Gregorian `(y, m, d)`: the days of the whole years before `y`, the whole
/// months before `m` (each 30 or 31 days, with February counted as 30 and corrected by the
/// leap rule), and the day of the month.
pub open spec fn spec_fixed_from_gregorian(y: int, m: int, d: int) -> int {
    365 * (y - 1) + (y - 1) / 4 - (y - 1) / 100 + (y - 1) / 400 + (367 * m - 362) / 12 + (if m <= 2 {
        0
    } else if spec_gregorian_leap(y) {
        -1
    } else {
        -2
    }) + d
}

fn gregorian_leap(y: i64) -> (b: bool)
    ensures
        b == spec_gregorian_leap(y as int),
{
    (amod(y, 4) == 0 && amod(y, 100) != 0) || amod(y, 400) == 0
}

/// RD of a proleptic-Gregorian date.
pub fn fixed_from_gregorian(year: i32, month: u8, day: u8) -> (rd: RataDie)
    ensures
        rd.0 == spec_fixed_from_gregorian(year as int, month as int, day as int),
{
    let (y, m, d) = (year as i64, month as i64, day as i64);
    let corr: i64 = if m <= 2 {
        0
    } else if gregorian_leap(y) {
        -1
    } else {
        -2
    };
    RataDie(
        365 * (y - 1) + quotient(y - 1, 4) - quotient(y - 1, 100) + quotient(y - 1, 400) + quotient(
            367 * m - 362,
            12,
        ) + corr + d,
    )
}

/// The Gregorian year containing day `rd`.
fn gregorian_year_from_fixed(rd: i64) -> (year: i64)
    requires
        MIN_RATA_DIE <= rd <= MAX_RATA_DIE,
    ensures
        spec_fixed_from_gregorian(year as int, 1, 1) <= rd < spec_fixed_from_gregorian(year + 1, 1, 1),
        -2_147_480_000 <= year <= 2_147_480_000,
{
    let d0 = rd - 1;
    let n400 = quotient(d0, 146_097);
    let d1 = amod(d0, 146_097);
    let n100 = quotient(d1, 36_524);
    let d2 = amod(d1, 36_524);
    let n4 = quotient(d2, 1_461);
    let d3 = amod(d2, 1_461);
    let n1 = quotient(d3, 365);
    let year = 400 * n400 + 100 * n100 + 4 * n4 + n1;
    proof {
        vstd::arithmetic::div_mod::lemma_fundamental_div_mod(d0 as int, 146_097);
        vstd::arithmetic::div_mod::lemma_fundamental_div_mod(d1 as int, 36_524);
        vstd::arithmetic::div_mod::lemma_fundamental_div_mod(d2 as int, 1_461);
        vstd::arithmetic::div_mod::lemma_fundamental_div_mod(d3 as int, 365);
        let g = d3 - 365 * n1;
        if n100 == 4 {
            lemma_days_through_year_cycles(n400 as int, 3, 24, 3);
            lemma_days_through_year_cycles(n400 + 1, 0, 0, 0);
            lemma_new_year_day(year as int);
        } else if n1 == 4 {
            lemma_days_through_year_cycles(n400 as int, n100 as int, n4 as int, 3);
            if n4 < 24 {
                lemma_days_through_year_cycles(n400 as int, n100 as int, n4 + 1, 0);
            }
            lemma_new_year_day(year as int);
        } else {
            lemma_days_through_year_cycles(n400 as int, n100 as int, n4 as int, n1 as int);
            if n1 < 3 {
                lemma_days_through_year_cycles(n400 as int, n100 as int, n4 as int, n1 + 1);
            } else if n4 < 24 {
                lemma_days_through_year_cycles(n400 as int, n100 as int, n4 + 1, 0);
            } else if n100 < 3 {
                lemma_days_through_year_cycles(n400 as int, n100 + 1, 0, 0);
            } else {
                lemma_days_through_year_cycles(n400 + 1, 0, 0, 0);
            }
            lemma_new_year_day(year + 1);
        }
    }
    if n100 == 4 || n1 == 4 {
        year
    } else {
        year + 1
    }
}

/// Proleptic-Gregorian `(year, month, day)` from RD.
pub fn gregorian_from_fixed(rd: RataDie) -> (ymd: (i32, u8, u8))
    requires
        MIN_RATA_DIE <= rd.0 <= MAX_RATA_DIE,
    ensures
        spec_valid_gregorian(ymd.0 as int, ymd.1 as int, ymd.2 as int),
        spec_fixed_from_gregorian(ymd.0 as int, ymd.1 as int, ymd.2 as int) == rd.0,
{
    let rd = rd.0;
    let year = gregorian_year_from_fixed(rd);
    proof {
        lemma_new_year_day(year as int);
    }
    let prior = rd - fixed_from_gregorian(year as i32, 1, 1).0;
    let corr: i64 = if rd < fixed_from_gregorian(year as i32, 3, 1).0 {
        0
    } else if gregorian_leap(year) {
        1
    } else {
        2
    };
    proof {
        lemma_month_from_prior(year as int, prior as int);
    }
    let month = quotient(12 * (prior + corr) + 373, 367);
    let day = rd - fixed_from_gregorian(year as i32, month as u8, 1).0 + 1;
    (year as i32, month as u8, day as u8)
}

} // verus!

verus! {

// ── Hebrew calendar: the year ───────────────────────────────────────────────────────────────

/// The 19-year Metonic leap rule: years 3, 6, 8, 11, 14, 17 and 19 of each cycle are leap.
pub open spec fn spec_is_hebrew_leap(y: int) -> bool {
    (7 * y + 1) % 19 < 7
}

/// Number of the last month of the year: 12 (Adar) or, in a leap year, 13 (Adar II).
pub open spec fn spec_last_month_of_year(y: int) -> int {
    if spec_is_hebrew_leap(y) {
        13
    } else {
        12
    }
}

/// Mean lunar months from the epoch to the molad of Tishrei of year `y`.
pub open spec fn spec_months_elapsed(y: int) -> int {
    (235 * y - 234) / 19
}

/// Day, counted from the epoch, of the molad `m` months after the epoch molad, in the frame
/// where the day begins six hours after noon of the molad frame (which folds in Molad Zaken).
pub open spec fn spec_molad_day(m: int) -> int {
    29 * m + (12_084 + 13_753 * m) / 25_920
}

/// Days from the epoch to the molad-based Rosh Hashanah of year `y`, with the ADU postponement
/// (never Sunday, Wednesday or Friday) applied.
pub open spec fn spec_elapsed_days(y: int) -> int {
    let d = spec_molad_day(spec_months_elapsed(y));
    if (3 * (d + 1)) % 7 < 3 {
        d + 1
    } else {
        d
    }
}

/// The GaTaRaD / BeTUTaKPaT postponement of year `y`, read off the neighbouring year lengths.
pub open spec fn spec_year_length_correction(y: int) -> int {
    let ny0 = spec_elapsed_days(y - 1);
    let ny1 = spec_elapsed_days(y);
    let ny2 = spec_elapsed_days(y + 1);
    if ny2 - ny1 == 356 {
        2
    } else if ny1 - ny0 == 382 {
        1
    } else {
        0
    }
}

/// RD of 1 Tishrei (Rosh Hashanah) of year `y`, all four postponements applied.
pub open spec fn spec_hebrew_new_year(y: int) -> int {
    -1_373_427 + spec_elapsed_days(y) + spec_year_length_correction(y)
}

/// Days in Hebrew year `y`.
pub open spec fn spec_hebrew_year_length(y: int) -> int {
    spec_hebrew_new_year(y + 1) - spec_hebrew_new_year(y)
}

/// The six permitted year lengths: 353/354/355 days in a common year, 383/384/385 in a leap year.
pub open spec fn spec_permitted_year_length(y: int, len: int) -> bool {
    if spec_is_hebrew_leap(y) {
        383 <= len <= 385
    } else {
        353 <= len <= 355
    }
}

} // verus!

verus! {

// ── Hebrew calendar: months and dates ───────────────────────────────────────────────────────

/// A Hebrew calendar date. `month`: Nisan=1 … Tishrei=7 … Adar=12 (common); Adar I=12 / Adar II=13 (leap).
#[derive(Clone, Copy, PartialEq, Eq, Debug)]
pub struct HebrewDate {
    /// Anno Mundi year.
    pub year: i32,
    /// Month, Nisan=1 … Adar(II)=12/13.
    pub month: u8,
    /// Day of month, 1..=30.
    pub day: u8,
}

/// Cheshvan has 30 days (a "complete" year of 355 or 385 days).
pub open spec fn spec_long_marcheshvan(y: int) -> bool {
    let len = spec_hebrew_year_length(y);
    len == 355 || len == 385
}

/// Kislev has 29 days (a "deficient" year of 353 or 383 days).
pub open spec fn spec_short_kislev(y: int) -> bool {
    let len = spec_hebrew_year_length(y);
    len == 353 || len == 383
}

/// Days in month `m` of year `y`: Iyar, Tammuz, Elul, Tevet and Adar II have 29 days, Adar has
/// 29 in a common year, Cheshvan and Kislev follow the year length, every other month has 30.
pub open spec fn spec_last_day_of_month(y: int, m: int) -> int {
    if m == 2 || m == 4 || m == 6 || m == 10 || m == 13 {
        29
    } else if m == 12 && !spec_is_hebrew_leap(y) {
        29
    } else if m == 8 && !spec_long_marcheshvan(y) {
        29
    } else if m == 9 && spec_short_kislev(y) {
        29
    } else {
        30
    }
}

/// Total days of months `from .. to` (exclusive) of year `y`.
pub open spec fn spec_month_days(y: int, from: int, to: int) -> int
    decreases to - from,
{
    if to <= from {
        0
    } else {
        spec_month_days(y, from, to - 1) + spec_last_day_of_month(y, to - 1)
    }
}

/// Days from 1 Tishrei to the 1st of month `m`: the year runs Tishrei (7) … the last month, then
/// Nisan (1) … Elul (6).
pub open spec fn spec_days_before_month(y: int, m: int) -> int {
    if m < 7 {
        spec_month_days(y, 7, spec_last_month_of_year(y) + 1) + spec_month_days(y, 1, m)
    } else {
        spec_month_days(y, 7, m)
    }
}

/// RD of the Hebrew `(y, m, d)`.
pub open spec fn spec_fixed_from_hebrew(y: int, m: int, d: int) -> int {
    spec_hebrew_new_year(y) + spec_days_before_month(y, m) + d - 1
}

/// A real Hebrew date: a month of the year and a day of that month.
pub open spec fn spec_valid_hebrew(y: int, m: int, d: int) -> bool {
    1 <= m <= spec_last_month_of_year(y) && 1 <= d <= spec_last_day_of_month(y, m)
}

/// The Hebrew date whose day number is `rd` — unique by `lemma_fixed_from_hebrew_injective`.
pub open spec fn spec_hebrew_date_of(rd: int) -> (int, int, int) {
    choose|t: (int, int, int)| spec_is_date_of(t, rd)
}

/// `t` is a real Hebrew date whose day number is `rd`.
pub open spec fn spec_is_date_of(t: (int, int, int), rd: int) -> bool {
    spec_valid_hebrew(t.0, t.1, t.2) && spec_fixed_from_hebrew(t.0, t.1, t.2) == rd
}

/// The years whose Rosh Hashanah the engine computes in `i32` arithmetic (the year before and
/// after must be representable too).
pub open spec fn spec_new_year_in_range(y: int) -> bool {
    i32::MIN < y < i32::MAX
}

/// The years whose length the engine computes (Rosh Hashanah of the next year in range too).
pub open spec fn spec_year_length_in_range(y: int) -> bool {
    i32::MIN < y < i32::MAX - 1
}

/// `fixed_from_hebrew` needs the year length exactly when it counts past Cheshvan.
pub open spec fn spec_fixed_from_hebrew_in_range(y: int, m: int) -> bool {
    spec_new_year_in_range(y) && ((m < 7 || m > 8) ==> spec_year_length_in_range(y))
}

/// Years `hebrew_from_fixed` can return for a day in `MIN_RATA_DIE ..= MAX_RATA_DIE`.
pub open spec fn spec_supported_year(y: int) -> bool {
    -2_147_460_000 <= y <= 2_147_460_000
}

const HEBREW_EPOCH: i64 = -1_373_427;

/// 19-year Metonic leap rule.
pub fn is_hebrew_leap_year(year: i32) -> (leap: bool)
    ensures
        leap == spec_is_hebrew_leap(year as int),
{
    amod(7 * (year as i64) + 1, 19) < 7
}

/// Last month number of the Hebrew year (12 common, 13 leap = Adar II).
pub fn last_month_of_year(year: i32) -> (m: u8)
    ensures
        m == spec_last_month_of_year(year as int),
{
    if is_hebrew_leap_year(year) {
        13
    } else {
        12
    }
}

fn hebrew_calendar_elapsed_days(year: i32) -> (days: i64)
    ensures
        days == spec_elapsed_days(year as int),
        -800_000_000_000 <= days <= 800_000_000_000,
{
    let months_elapsed = quotient(235 * (year as i64) - 234, 19);
    let parts_elapsed = 12_084 + 13_753 * months_elapsed;
    let days = 29 * months_elapsed + quotient(parts_elapsed, 25_920);
    if amod(3 * (days + 1), 7) < 3 {
        days + 1
    } else {
        days
    }
}

fn hebrew_year_length_correction(year: i32) -> (corr: i64)
    requires
        spec_new_year_in_range(year as int),
    ensures
        corr == spec_year_length_correction(year as int),
        0 <= corr <= 2,
{
    let ny0 = hebrew_calendar_elapsed_days(year - 1);
    let ny1 = hebrew_calendar_elapsed_days(year);
    let ny2 = hebrew_calendar_elapsed_days(year + 1);
    if ny2 - ny1 == 356 {
        2
    } else if ny1 - ny0 == 382 {
        1
    } else {
        0
    }
}

/// RD of 1 Tishrei of the Hebrew `year` (Rosh Hashanah), all four dechiyot applied.
pub fn hebrew_new_year(year: i32) -> (rd: RataDie)
    requires
        spec_new_year_in_range(year as int),
    ensures
        rd.0 == spec_hebrew_new_year(year as int),
{
    proof {
        year_length::lemma_new_year_linear_bounds(year as int);
    }
    RataDie(HEBREW_EPOCH + hebrew_calendar_elapsed_days(year) + hebrew_year_length_correction(year))
}

/// Days in the Hebrew year (353/354/355 common; 383/384/385 leap).
pub fn hebrew_year_length(year: i32) -> (len: i64)
    requires
        spec_year_length_in_range(year as int),
    ensures
        len == spec_hebrew_year_length(year as int),
        spec_permitted_year_length(year as int, len as int),
{
    proof {
        year_length::lemma_year_length_permitted(year as int);
        year_length::lemma_new_year_linear_bounds(year as int);
        year_length::lemma_new_year_linear_bounds(year + 1);
    }
    hebrew_new_year(year + 1).0 - hebrew_new_year(year).0
}

fn long_marcheshvan(year: i32) -> (long: bool)
    requires
        spec_year_length_in_range(year as int),
    ensures
        long == spec_long_marcheshvan(year as int),
{
    let len = hebrew_year_length(year);
    len == 355 || len == 385
}

fn short_kislev(year: i32) -> (short: bool)
    requires
        spec_year_length_in_range(year as int),
    ensures
        short == spec_short_kislev(year as int),
{
    let len = hebrew_year_length(year);
    len == 353 || len == 383
}

/// Days in the given Hebrew month of the year.
pub fn last_day_of_month(year: i32, month: u8) -> (days: u8)
    requires
        month == 8 || month == 9 ==> spec_year_length_in_range(year as int),
    ensures
        days == spec_last_day_of_month(year as int, month as int),
{
    if month == 2 || month == 4 || month == 6 || month == 10 || month == 13 {
        29
    } else if month == 12 && !is_hebrew_leap_year(year) {
        29
    } else if month == 8 && !long_marcheshvan(year) {
        29
    } else if month == 9 && short_kislev(year) {
        29
    } else {
        30
    }
}

/// RD of a Hebrew date.
pub fn fixed_from_hebrew(date: HebrewDate) -> (rd: RataDie)
    requires
        spec_fixed_from_hebrew_in_range(date.year as int, date.month as int),
    ensures
        rd.0 == spec_fixed_from_hebrew(date.year as int, date.month as int, date.day as int),
{
    let year = date.year;
    let month = date.month;
    let day = date.day;
    proof {
        year_length::lemma_new_year_linear_bounds(year as int);
    }
    let base = hebrew_new_year(year).0 + day as i64 - 1;
    let mut rd = base;
    if month < 7 {
        // Nisan..Elul are in the second (spring/summer) half of the Hebrew year's RD span.
        let last = last_month_of_year(year);
        let mut m: u8 = 7;
        while m <= last
            invariant
                7 <= m <= last + 1,
                last == spec_last_month_of_year(year as int),
                spec_year_length_in_range(year as int),
                rd == base + spec_month_days(year as int, 7, m as int),
                0 <= spec_month_days(year as int, 7, m as int) <= 30 * (m - 7),
                -800_000_000_000 <= base <= 800_000_000_000,
            decreases last + 1 - m,
        {
            rd += last_day_of_month(year, m) as i64;
            m += 1;
        }
        let mid = rd;
        let mut m: u8 = 1;
        while m < month
            invariant
                1 <= m,
                m <= month || m == 1,
                month < 7,
                rd == mid + spec_month_days(year as int, 1, m as int),
                0 <= spec_month_days(year as int, 1, m as int) <= 30 * (m - 1),
                mid == base + spec_month_days(year as int, 7, spec_last_month_of_year(year as int) + 1),
                -800_000_000_000 <= base <= 800_000_000_000,
                0 <= mid - base <= 30 * 7,
            decreases month - m,
        {
            rd += last_day_of_month(year, m) as i64;
            m += 1;
        }
    } else {
        let mut m: u8 = 7;
        while m < month
            invariant
                7 <= m <= month,
                month > 8 ==> spec_year_length_in_range(year as int),
                rd == base + spec_month_days(year as int, 7, m as int),
                0 <= spec_month_days(year as int, 7, m as int) <= 30 * (m - 7),
                -800_000_000_000 <= base <= 800_000_000_000,
            decreases month - m,
        {
            rd += last_day_of_month(year, m) as i64;
            m += 1;
        }
    }
    RataDie(rd)
}

} // verus!

verus! {

/// Hebrew date from RD.
pub fn hebrew_from_fixed(rd: RataDie) -> (date: HebrewDate)
    requires
        MIN_RATA_DIE <= rd.0 <= MAX_RATA_DIE,
    ensures
        spec_valid_hebrew(date.year as int, date.month as int, date.day as int),
        spec_fixed_from_hebrew(date.year as int, date.month as int, date.day as int) == rd.0,
        spec_hebrew_new_year(date.year as int) <= rd.0 < spec_hebrew_new_year(date.year + 1),
        spec_supported_year(date.year as int),
        (date.year as int, date.month as int, date.day as int) == spec_hebrew_date_of(rd.0 as int),
{
    let approx = quotient((rd.0 - HEBREW_EPOCH) * 98_496, 35_975_351) + 1;
    let mut year = approx as i32;
    while hebrew_new_year(year + 1).0 <= rd.0
        invariant
            spec_supported_year(year as int),
            MIN_RATA_DIE <= rd.0 <= MAX_RATA_DIE,
        decreases 2_147_460_000 - year,
    {
        proof {
            year_length::lemma_new_year_linear_bounds(year + 1);
        }
        year += 1;
    }
    while hebrew_new_year(year).0 > rd.0
        invariant
            spec_supported_year(year as int),
            MIN_RATA_DIE <= rd.0 <= MAX_RATA_DIE,
            spec_hebrew_new_year(year + 1) > rd.0,
        decreases year + 2_147_460_000,
    {
        proof {
            year_length::lemma_new_year_linear_bounds(year as int);
        }
        year -= 1;
    }
    proof {
        year_length::lemma_months_fill_year(year as int);
        year_length::lemma_year_length_permitted(year as int);
    }
    let start: u8 = if rd.0 < fixed_from_hebrew(HebrewDate { year, month: 1, day: 1 }).0 {
        7
    } else {
        1
    };
    let ghost last = spec_last_month_of_year(year as int);
    let mut month = start;
    loop
        invariant
            spec_supported_year(year as int),
            last == spec_last_month_of_year(year as int),
            spec_hebrew_new_year(year as int) <= rd.0 < spec_hebrew_new_year(year + 1),
            spec_month_days(year as int, 7, last + 1) + spec_month_days(year as int, 1, 7)
                == spec_hebrew_year_length(year as int),
            spec_days_before_month(year as int, 1) == spec_month_days(year as int, 7, last + 1),
            start == 7 ==> 7 <= month <= last && rd.0 < spec_fixed_from_hebrew(year as int, 1, 1),
            start == 1 ==> 1 <= month <= 6,
            start == 7 || start == 1,
            rd.0 >= spec_fixed_from_hebrew(year as int, month as int, 1),
        ensures
            1 <= month <= last,
            spec_fixed_from_hebrew(year as int, month as int, 1) <= rd.0,
            rd.0 <= spec_fixed_from_hebrew(year as int, month as int, 1) + spec_last_day_of_month(
                year as int,
                month as int,
            ) - 1,
        decreases 13 - month,
    {
        let month_end = fixed_from_hebrew(
            HebrewDate { year, month, day: last_day_of_month(year, month) },
        ).0;
        if rd.0 <= month_end {
            break;
        }
        month += 1;
    }
    let day = (rd.0 - fixed_from_hebrew(HebrewDate { year, month, day: 1 }).0 + 1) as u8;
    proof {
        date_laws::lemma_date_of_its_day(year as int, month as int, day as int);
    }
    HebrewDate { year, month, day }
}

} // verus!

verus! {

// ── Festivals and day classification ────────────────────────────────────────────────────────

/// A festival / fast / Rosh Chodesh anchor — a structural token; localized names are downstream.
#[derive(Clone, Copy, PartialEq, Eq, Debug)]
pub enum Festival {
    /// 1 Tishrei.
    RoshHashanah,
    /// 10 Tishrei.
    YomKippur,
    /// 15 Tishrei.
    Sukkot,
    /// 15 Nisan.
    Pesach,
    /// 6 Sivan.
    Shavuot,
    /// 14 Adar (common) / 14 Adar II (leap).
    Purim,
    /// 25 Kislev.
    Chanukah,
}

/// The `(month, day)` of a festival anchor in year `y`.
pub open spec fn spec_festival_month_day(y: int, fest: Festival) -> (int, int) {
    match fest {
        Festival::RoshHashanah => (7, 1),
        Festival::YomKippur => (7, 10),
        Festival::Sukkot => (7, 15),
        Festival::Pesach => (1, 15),
        Festival::Shavuot => (3, 6),
        Festival::Purim => (spec_last_month_of_year(y), 14),
        Festival::Chanukah => (9, 25),
    }
}

/// RD of a festival/fast/RC anchor in the given Hebrew year.
pub fn festival_date(year: i32, fest: Festival) -> (rd: RataDie)
    requires
        spec_fixed_from_hebrew_in_range(year as int, spec_festival_month_day(year as int, fest).0),
    ensures
        rd.0 == spec_fixed_from_hebrew(
            year as int,
            spec_festival_month_day(year as int, fest).0,
            spec_festival_month_day(year as int, fest).1,
        ),
{
    match fest {
        Festival::RoshHashanah => {
            proof {
                reveal_with_fuel(spec_month_days, 1);
            }
            hebrew_new_year(year)
        },
        Festival::YomKippur => fixed_from_hebrew(HebrewDate { year, month: 7, day: 10 }),
        Festival::Sukkot => fixed_from_hebrew(HebrewDate { year, month: 7, day: 15 }),
        Festival::Pesach => fixed_from_hebrew(HebrewDate { year, month: 1, day: 15 }),
        Festival::Shavuot => fixed_from_hebrew(HebrewDate { year, month: 3, day: 6 }),
        Festival::Purim => fixed_from_hebrew(
            HebrewDate { year, month: last_month_of_year(year), day: 14 },
        ),
        Festival::Chanukah => fixed_from_hebrew(HebrewDate { year, month: 9, day: 25 }),
    }
}

/// A single dominant day-kind token, by the precedence
/// `YomTov > Shabbat > CholHaMoed > FastDay > RoshChodesh > Erev > Weekday`.
#[derive(Clone, Copy, PartialEq, Eq, Debug)]
pub enum DayKind {
    /// Ordinary weekday.
    Weekday,
    /// Shabbat.
    Shabbat,
    /// A melacha-forbidden festival day (incl. the diaspora second day, and Yom Kippur).
    YomTov,
    /// Chol HaMoed (intermediate days of Pesach / Sukkot).
    CholHaMoed,
    /// Erev Shabbat or Erev Yom Tov (the day whose evening enters a Shabbat/Yom-Tov).
    Erev,
    /// Rosh Chodesh.
    RoshChodesh,
    /// A public fast day.
    FastDay,
}

/// The full classification of one Hebrew day as a set of co-holding flags.
#[derive(Clone, Copy, PartialEq, Eq, Debug, Default)]
pub struct DayClass {
    /// Shabbat (Saturday by the Hebrew day).
    pub shabbat: bool,
    /// A melacha-forbidden festival day (incl. diaspora Yom Tov Sheni, and Yom Kippur).
    pub yom_tov: bool,
    /// Chol HaMoed.
    pub chol_hamoed: bool,
    /// Erev Shabbat / Erev Yom Tov (candle-lighting relevance).
    pub erev: bool,
    /// Rosh Chodesh.
    pub rosh_chodesh: bool,
    /// A public fast day, with the standard Shabbat-deferral applied.
    pub fast_day: bool,
}

/// The dominant kind of a classified day, by the documented precedence.
pub open spec fn spec_primary(c: DayClass) -> DayKind {
    if c.yom_tov {
        DayKind::YomTov
    } else if c.shabbat {
        DayKind::Shabbat
    } else if c.chol_hamoed {
        DayKind::CholHaMoed
    } else if c.fast_day {
        DayKind::FastDay
    } else if c.rosh_chodesh {
        DayKind::RoshChodesh
    } else if c.erev {
        DayKind::Erev
    } else {
        DayKind::Weekday
    }
}

impl DayClass {
    /// The dominant [`DayKind`] for display selection, by the documented precedence.
    pub fn primary(self) -> (kind: DayKind)
        ensures
            kind == spec_primary(self),
    {
        if self.yom_tov {
            DayKind::YomTov
        } else if self.shabbat {
            DayKind::Shabbat
        } else if self.chol_hamoed {
            DayKind::CholHaMoed
        } else if self.fast_day {
            DayKind::FastDay
        } else if self.rosh_chodesh {
            DayKind::RoshChodesh
        } else if self.erev {
            DayKind::Erev
        } else {
            DayKind::Weekday
        }
    }
}

/// Day-of-week from a Rata Die: 0 = Sunday … 6 = Saturday (RD 1 = 0001-01-01 = Monday).
pub fn weekday_from_fixed(rd: RataDie) -> (weekday: u8)
    ensures
        weekday == rd.0 as int % 7,
        weekday <= 6,
{
    amod(rd.0, 7) as u8
}

/// A melacha-forbidden festival day under the realm: Rosh Hashanah (both days), Yom Kippur, the
/// first day of Sukkot, Shmini Atzeret, the first and seventh days of Pesach and the first day of
/// Shavuot everywhere; in the diaspora also the second day of each festival and Simchat Torah.
pub open spec fn spec_is_yom_tov(m: int, d: int, realm: Realm) -> bool {
    ||| m == 7 && (d == 1 || d == 2 || d == 10 || d == 15 || d == 22)
    ||| m == 1 && (d == 15 || d == 21)
    ||| m == 3 && d == 6
    ||| realm == Realm::Diaspora && (m == 7 && (d == 16 || d == 23) || m == 1 && (d == 16 || d == 22)
        || m == 3 && d == 7)
}

/// Chol HaMoed: Sukkot 16–21 Tishrei and Pesach 16–20 Nisan in Eretz Yisrael, from the 17th in
/// the diaspora (where the 16th is Yom Tov Sheni).
pub open spec fn spec_is_chol_hamoed(m: int, d: int, diaspora: bool) -> bool {
    let lo = if diaspora { 17int } else { 16int };
    (m == 7 && lo <= d <= 21) || (m == 1 && lo <= d <= 20)
}

/// The day `rd` is Shabbat or, by its Hebrew date, a Yom Tov.
pub open spec fn spec_is_yt_or_shabbat(rd: int, realm: Realm) -> bool {
    rd % 7 == 6 || spec_is_yom_tov(spec_hebrew_date_of(rd).1, spec_hebrew_date_of(rd).2, realm)
}

/// Observed day of a fast nominally on `(m, d)` of year `y`: off Shabbat forward to Sunday, or
/// (Ta'anit Esther) back to Thursday.
pub open spec fn spec_fast_observed(y: int, m: int, d: int, defer_forward: bool) -> int {
    let base = spec_fixed_from_hebrew(y, m, d);
    if base % 7 == 6 {
        if defer_forward {
            base + 1
        } else {
            base - 2
        }
    } else {
        base
    }
}

/// A public fast falls on the day `rd` of Hebrew year `y`: Yom Kippur, or the observed Tzom
/// Gedaliah, Asarah b'Tevet, Ta'anit Esther, 17 Tammuz or Tisha b'Av.
pub open spec fn spec_is_fast_day(y: int, m: int, d: int, rd: int) -> bool {
    ||| m == 7 && d == 10
    ||| rd == spec_fast_observed(y, 7, 3, true)
    ||| rd == spec_fixed_from_hebrew(y, 10, 10)
    ||| rd == spec_fast_observed(y, spec_last_month_of_year(y), 13, false)
    ||| rd == spec_fast_observed(y, 4, 17, true)
    ||| rd == spec_fast_observed(y, 5, 9, true)
}

/// The classification of the Hebrew day `(y, m, d)` under the realm.
pub open spec fn spec_classify_day(y: int, m: int, d: int, realm: Realm) -> DayClass {
    let rd = spec_fixed_from_hebrew(y, m, d);
    DayClass {
        shabbat: rd % 7 == 6,
        yom_tov: spec_is_yom_tov(m, d, realm),
        chol_hamoed: spec_is_chol_hamoed(m, d, realm == Realm::Diaspora),
        erev: spec_is_yt_or_shabbat(rd + 1, realm),
        rosh_chodesh: d == 30 || (d == 1 && m != 7),
        fast_day: spec_is_fast_day(y, m, d, rd),
    }
}

/// The dates the day classification and festival identities work on: the year's length is
/// computable and the days around the date are in the convertible range.
pub open spec fn spec_classifiable(y: int, m: int, d: int) -> bool {
    spec_year_length_in_range(y) && MIN_RATA_DIE <= spec_fixed_from_hebrew(y, m, d) - 1
        && spec_fixed_from_hebrew(y, m, d) + 1 <= MAX_RATA_DIE
}

fn is_yom_tov_md(month: u8, day: u8, realm: Realm) -> (yom_tov: bool)
    ensures
        yom_tov == spec_is_yom_tov(month as int, day as int, realm),
{
    let diaspora = matches!(realm, Realm::Diaspora);
    match (month, day) {
        (7, 1) | (7, 2) | (7, 10) | (7, 15) | (7, 22) => true,
        (7, 16) | (7, 23) => diaspora,
        (1, 15) | (1, 21) | (3, 6) => true,
        (1, 16) | (1, 22) | (3, 7) => diaspora,
        _ => false,
    }
}

fn is_chol_hamoed_md(month: u8, day: u8, diaspora: bool) -> (chol_hamoed: bool)
    ensures
        chol_hamoed == spec_is_chol_hamoed(month as int, day as int, diaspora),
{
    let lo = if diaspora {
        17
    } else {
        16
    };
    match month {
        7 => day >= lo && day <= 21,
        1 => day >= lo && day <= 20,
        _ => false,
    }
}

fn is_yt_or_shabbat(rd: RataDie, realm: Realm) -> (holy: bool)
    requires
        MIN_RATA_DIE <= rd.0 <= MAX_RATA_DIE,
    ensures
        holy == spec_is_yt_or_shabbat(rd.0 as int, realm),
{
    if weekday_from_fixed(rd) == 6 {
        return true;
    }
    let d = hebrew_from_fixed(rd);
    is_yom_tov_md(d.month, d.day, realm)
}

fn fast_observed(year: i32, base_month: u8, base_day: u8, defer_forward: bool) -> (rd: RataDie)
    requires
        spec_year_length_in_range(year as int),
    ensures
        rd.0 == spec_fast_observed(year as int, base_month as int, base_day as int, defer_forward),
{
    proof {
        year_length::lemma_new_year_linear_bounds(year as int);
        date_laws::lemma_days_before_bounded(year as int, base_month as int);
    }
    let base = fixed_from_hebrew(HebrewDate { year, month: base_month, day: base_day });
    if weekday_from_fixed(base) == 6 {
        RataDie(
            if defer_forward {
                base.0 + 1
            } else {
                base.0 - 2
            },
        )
    } else {
        base
    }
}

/// Classify the Hebrew day at `date` under `realm`. Realm gates Yom Tov Sheni and the Chol HaMoed
/// boundary; fasts carry the standard Shabbat-deferral.
pub fn classify_day(date: HebrewDate, realm: Realm) -> (class: DayClass)
    requires
        spec_classifiable(date.year as int, date.month as int, date.day as int),
    ensures
        class == spec_classify_day(date.year as int, date.month as int, date.day as int, realm),
{
    let rd = fixed_from_hebrew(date);
    let diaspora = matches!(realm, Realm::Diaspora);
    let last_month = last_month_of_year(date.year);
    let shabbat = weekday_from_fixed(rd) == 6;
    let yom_tov = is_yom_tov_md(date.month, date.day, realm);
    let chol_hamoed = is_chol_hamoed_md(date.month, date.day, diaspora);
    let rosh_chodesh = date.day == 30 || (date.day == 1 && date.month != 7);
    let erev = is_yt_or_shabbat(RataDie(rd.0 + 1), realm);
    let fast_day = (date.month == 7 && date.day == 10) || rd.0 == fast_observed(
        date.year,
        7,
        3,
        true,
    ).0 || rd.0 == fixed_from_hebrew(HebrewDate { year: date.year, month: 10, day: 10 }).0
        || rd.0 == fast_observed(date.year, last_month, 13, false).0 || rd.0 == fast_observed(
        date.year,
        4,
        17,
        true,
    ).0 || rd.0 == fast_observed(date.year, 5, 9, true).0;
    DayClass { shabbat, yom_tov, chol_hamoed, erev, rosh_chodesh, fast_day }
}

} // verus!

verus! {

/// A specific moed (festival / fast / special day) identity — the fine-grained companion to
/// [`DayClass`]'s coarse flags. One identity per date; realm gates only the diaspora-second-day
/// identities.
#[derive(Clone, Copy, PartialEq, Eq, Debug)]
#[allow(missing_docs)]
pub enum Moed {
    ErevRoshHashana,
    RoshHashana,
    TzomGedaliah,
    ErevYomKippur,
    YomKippur,
    ErevSukkos,
    Sukkos,
    CholHamoedSukkos,
    HoshanaRabba,
    ShminiAtzeres,
    SimchasTorah,
    Chanukah,
    AsaraBeteves,
    TuBishvat,
    TaanisEsther,
    Purim,
    ShushanPurim,
    ErevPesach,
    Pesach,
    CholHamoedPesach,
    PesachSheni,
    LagBaomer,
    ErevShavuos,
    Shavuos,
    TzomTammuz,
    ErevTishaBav,
    TishaBav,
    TuBeav,
}

/// The chag a Yom Tov `(m, d)` belongs to.
pub open spec fn spec_yom_tov_identity(m: int, d: int) -> Option<Moed> {
    if m == 7 && (d == 1 || d == 2) {
        Some(Moed::RoshHashana)
    } else if m == 7 && d == 10 {
        Some(Moed::YomKippur)
    } else if m == 7 && (d == 15 || d == 16) {
        Some(Moed::Sukkos)
    } else if m == 7 && d == 22 {
        Some(Moed::ShminiAtzeres)
    } else if m == 7 && d == 23 {
        Some(Moed::SimchasTorah)
    } else if m == 1 && (d == 15 || d == 16 || d == 21 || d == 22) {
        Some(Moed::Pesach)
    } else if m == 3 && (d == 6 || d == 7) {
        Some(Moed::Shavuos)
    } else {
        None
    }
}

/// The named day of the erev-of-chag and fixed minor days `(m, d)`, if any.
pub open spec fn spec_fixed_named_day(m: int, d: int) -> Option<Moed> {
    if m == 6 && d == 29 {
        Some(Moed::ErevRoshHashana)
    } else if m == 7 && d == 9 {
        Some(Moed::ErevYomKippur)
    } else if m == 7 && d == 14 {
        Some(Moed::ErevSukkos)
    } else if m == 1 && d == 14 {
        Some(Moed::ErevPesach)
    } else if m == 3 && d == 5 {
        Some(Moed::ErevShavuos)
    } else {
        None
    }
}

/// The minor named days fixed by `(m, d)`.
pub open spec fn spec_minor_day(m: int, d: int) -> Option<Moed> {
    if m == 11 && d == 15 {
        Some(Moed::TuBishvat)
    } else if m == 2 && d == 14 {
        Some(Moed::PesachSheni)
    } else if m == 2 && d == 18 {
        Some(Moed::LagBaomer)
    } else if m == 5 && d == 15 {
        Some(Moed::TuBeav)
    } else {
        None
    }
}

/// The moed identity of the Hebrew day `(y, m, d)` under the realm: Yom Tov days map to their
/// chag, Hoshana Rabba and Chol HaMoed to themselves, then the erev-of-chag days, the observed
/// fasts (Tisha b'Av and its erev shifted together), the eight days of Chanukah from 25 Kislev,
/// Purim and Shushan Purim in the last month, and the minor named days.
pub open spec fn spec_moed_of(y: int, m: int, d: int, realm: Realm) -> Option<Moed> {
    let rd = spec_fixed_from_hebrew(y, m, d);
    let last = spec_last_month_of_year(y);
    let tisha_bav = spec_fast_observed(y, 5, 9, true);
    let chanukah_start = spec_fixed_from_hebrew(y, 9, 25);
    if spec_is_yom_tov(m, d, realm) {
        spec_yom_tov_identity(m, d)
    } else if m == 7 && d == 21 {
        Some(Moed::HoshanaRabba)
    } else if spec_is_chol_hamoed(m, d, realm == Realm::Diaspora) {
        Some(if m == 7 { Moed::CholHamoedSukkos } else { Moed::CholHamoedPesach })
    } else if spec_fixed_named_day(m, d) is Some {
        spec_fixed_named_day(m, d)
    } else if rd == spec_fast_observed(y, 7, 3, true) {
        Some(Moed::TzomGedaliah)
    } else if m == 10 && d == 10 {
        Some(Moed::AsaraBeteves)
    } else if rd == spec_fast_observed(y, last, 13, false) {
        Some(Moed::TaanisEsther)
    } else if rd == spec_fast_observed(y, 4, 17, true) {
        Some(Moed::TzomTammuz)
    } else if rd == tisha_bav {
        Some(Moed::TishaBav)
    } else if rd == tisha_bav - 1 {
        Some(Moed::ErevTishaBav)
    } else if 0 <= rd - chanukah_start < 8 {
        Some(Moed::Chanukah)
    } else if m == last && d == 14 {
        Some(Moed::Purim)
    } else if m == last && d == 15 {
        Some(Moed::ShushanPurim)
    } else {
        spec_minor_day(m, d)
    }
}

/// The specific [`Moed`] identity of the Hebrew day at `date` under `realm`, or `None` for an
/// ordinary day.
pub fn moed_of(date: HebrewDate, realm: Realm) -> (moed: Option<Moed>)
    requires
        spec_year_length_in_range(date.year as int),
    ensures
        moed == spec_moed_of(date.year as int, date.month as int, date.day as int, realm),
{
    proof {
        year_length::lemma_new_year_linear_bounds(date.year as int);
        date_laws::lemma_days_before_bounded(date.year as int, date.month as int);
        date_laws::lemma_days_before_bounded(date.year as int, 9);
    }
    let rd = fixed_from_hebrew(date);
    let (m, d) = (date.month, date.day);
    let last = last_month_of_year(date.year);
    let diaspora = matches!(realm, Realm::Diaspora);

    if is_yom_tov_md(m, d, realm) {
        return match (m, d) {
            (7, 1) | (7, 2) => Some(Moed::RoshHashana),
            (7, 10) => Some(Moed::YomKippur),
            (7, 15) | (7, 16) => Some(Moed::Sukkos),
            (7, 22) => Some(Moed::ShminiAtzeres),
            (7, 23) => Some(Moed::SimchasTorah),
            (1, 15) | (1, 16) | (1, 21) | (1, 22) => Some(Moed::Pesach),
            (3, 6) | (3, 7) => Some(Moed::Shavuos),
            _ => None,
        };
    }
    if m == 7 && d == 21 {
        return Some(Moed::HoshanaRabba);
    }
    if is_chol_hamoed_md(m, d, diaspora) {
        return Some(
            if m == 7 {
                Moed::CholHamoedSukkos
            } else {
                Moed::CholHamoedPesach
            },
        );
    }
    match (m, d) {
        (6, 29) => return Some(Moed::ErevRoshHashana),
        (7, 9) => return Some(Moed::ErevYomKippur),
        (7, 14) => return Some(Moed::ErevSukkos),
        (1, 14) => return Some(Moed::ErevPesach),
        (3, 5) => return Some(Moed::ErevShavuos),
        _ => {},
    }
    if rd.0 == fast_observed(date.year, 7, 3, true).0 {
        return Some(Moed::TzomGedaliah);
    }
    if m == 10 && d == 10 {
        return Some(Moed::AsaraBeteves);
    }
    if rd.0 == fast_observed(date.year, last, 13, false).0 {
        return Some(Moed::TaanisEsther);
    }
    if rd.0 == fast_observed(date.year, 4, 17, true).0 {
        return Some(Moed::TzomTammuz);
    }
    let tisha_bav = fast_observed(date.year, 5, 9, true);
    if rd.0 == tisha_bav.0 {
        return Some(Moed::TishaBav);
    }
    if rd.0 == tisha_bav.0 - 1 {
        return Some(Moed::ErevTishaBav);
    }
    let chanukah_start = fixed_from_hebrew(HebrewDate { year: date.year, month: 9, day: 25 }).0;
    if 0 <= rd.0 - chanukah_start && rd.0 - chanukah_start < 8 {
        return Some(Moed::Chanukah);
    }
    if m == last && d == 14 {
        return Some(Moed::Purim);
    }
    if m == last && d == 15 {
        return Some(Moed::ShushanPurim);
    }
    match (m, d) {
        (11, 15) => return Some(Moed::TuBishvat),
        (2, 14) => return Some(Moed::PesachSheni),
        (2, 18) => return Some(Moed::LagBaomer),
        (5, 15) => return Some(Moed::TuBeav),
        _ => {},
    }
    None
}

/// `date` lies in the nominal span `(m1, d1) ..= (m2, d2)` of its own year.
pub open spec fn spec_in_span(y: int, m: int, d: int, m1: int, d1: int, m2: int, d2: int) -> bool {
    spec_fixed_from_hebrew(y, m1, d1) <= spec_fixed_from_hebrew(y, m, d) <= spec_fixed_from_hebrew(y, m2, d2)
}

/// True if `date` is within the **Three Weeks** (17 Tammuz … 9 Av, nominal).
pub fn in_three_weeks(date: HebrewDate) -> (within: bool)
    requires
        spec_year_length_in_range(date.year as int),
    ensures
        within == spec_in_span(date.year as int, date.month as int, date.day as int, 4, 17, 5, 9),
{
    let rd = fixed_from_hebrew(date).0;
    let start = fixed_from_hebrew(HebrewDate { year: date.year, month: 4, day: 17 }).0;
    let end = fixed_from_hebrew(HebrewDate { year: date.year, month: 5, day: 9 }).0;
    start <= rd && rd <= end
}

/// True if `date` is within the **Nine Days** (1 Av … 9 Av, nominal).
pub fn in_nine_days(date: HebrewDate) -> (within: bool)
    requires
        spec_year_length_in_range(date.year as int),
    ensures
        within == spec_in_span(date.year as int, date.month as int, date.day as int, 5, 1, 5, 9),
{
    let rd = fixed_from_hebrew(date).0;
    let start = fixed_from_hebrew(HebrewDate { year: date.year, month: 5, day: 1 }).0;
    let end = fixed_from_hebrew(HebrewDate { year: date.year, month: 5, day: 9 }).0;
    start <= rd && rd <= end
}

} // verus!

verus! {

// ── Molad (mean lunar conjunction) ──────────────────────────────────────────────────────────

/// Chalakim (1/1080 hour) per day.
pub const CHALAKIM_PER_DAY: i64 = 25_920;

/// Chalakim in one mean synodic month = 29d 12h 793p (= 29 × 25920 + 12 × 1080 + 793).
pub const CHALAKIM_PER_MONTH: i64 = 765_433;

/// The molad of Tishrei AM 1 (BaHaRaD) is this many chalakim before the start of the epoch day.
const MOLAD_EPOCH_OFFSET_CHALAKIM: i64 = 876;

/// Lunar months from the BaHaRaD epoch to the molad of `(y, m)`. The year number rolls at Tishrei,
/// so Nisan … Elul count against the molad sequence of year `y + 1`.
pub open spec fn spec_molad_months_elapsed(y: int, m: int) -> int {
    let yy = if m < 7 { y + 1 } else { y };
    (m - 7) + spec_months_elapsed(yy)
}

/// The molad of `(y, m)` in exact chalakim since RD 0 (molad mean-time frame).
pub open spec fn spec_molad_chalakim(y: int, m: int) -> int {
    -1_373_427 * 25_920 - 876 + spec_molad_months_elapsed(y, m) * 765_433
}

fn molad_months_elapsed(year: i32, month: u8) -> (months: i64)
    ensures
        months == spec_molad_months_elapsed(year as int, month as int),
        -26_600_000_000 <= months <= 26_600_000_000,
{
    let y: i64 = if month < 7 {
        year as i64 + 1
    } else {
        year as i64
    };
    (month as i64 - 7) + quotient(235 * y - 234, 19)
}

/// Molad of `(year, month)` as **exact-integer chalakim since RD 0** in the molad mean-time frame.
/// The interval between consecutive molads is exactly [`CHALAKIM_PER_MONTH`].
pub fn molad_chalakim(year: i32, month: u8) -> (chalakim: i64)
    ensures
        chalakim == spec_molad_chalakim(year as int, month as int),
{
    HEBREW_EPOCH * CHALAKIM_PER_DAY - MOLAD_EPOCH_OFFSET_CHALAKIM + molad_months_elapsed(year, month)
        * CHALAKIM_PER_MONTH
}

/// A chalakim count rendered as `(day, hour, minute, chalakim)`: the day it falls in, the hour
/// from midnight, the minute, and the chalakim (18 per minute) past the minute.
pub open spec fn spec_chalakim_civil(ch: int) -> (int, int, int, int) {
    let in_day = ch % 25_920;
    (ch / 25_920, in_day / 1_080, (in_day % 1_080) / 18, (in_day % 1_080) % 18)
}

/// Molad of `(year, month)` rendered as `(civil RD, hour, minute, chalakim)` — meridian-free and
/// exact (hour 0..24 from civil midnight).
pub fn molad_civil(year: i32, month: u8) -> (civil: (RataDie, u8, u8, u16))
    ensures
        (civil.0.0 as int, civil.1 as int, civil.2 as int, civil.3 as int) == spec_chalakim_civil(
            spec_molad_chalakim(year as int, month as int),
        ),
{
    let ch = molad_chalakim(year, month);
    let rd = quotient(ch, CHALAKIM_PER_DAY);
    let in_day = amod(ch, CHALAKIM_PER_DAY);
    let hour = in_day / 1_080;
    let rem = in_day % 1_080;
    (RataDie(rd), hour as u8, (rem / 18) as u8, (rem % 18) as u16)
}

/// Consecutive months of the year's order — Tishrei … the last month, then Nisan … Elul — have
/// molads exactly one mean synodic month apart.
pub proof fn lemma_molad_interval(y: int, m: int)
    requires
        1 <= m <= spec_last_month_of_year(y),
        m != 6,
    ensures
        m == spec_last_month_of_year(y) ==> spec_molad_chalakim(y, 1) - spec_molad_chalakim(y, m) == 765_433,
        m != spec_last_month_of_year(y) ==> spec_molad_chalakim(y, m + 1) - spec_molad_chalakim(y, m) == 765_433,
{
    year_length::lemma_months_step(y);
}

/// The molad of Tishrei of the next year is exactly one mean synodic month after the molad of Elul.
pub proof fn lemma_molad_interval_at_new_year(y: int)
    ensures
        spec_molad_chalakim(y + 1, 7) - spec_molad_chalakim(y, 6) == 765_433,
{
}

} // verus!

verus! {

// ── Anniversaries, the omer and the Israeli national days ───────────────────────────────────

/// The month a death-in-`dm` anniversary falls in, in `target_year`, under the Adar knob: Adar of
/// a common year observed in a leap year goes to Adar II (or Adar I under that rule), Adar II
/// observed in a common year goes to the single Adar, and every other month is kept.
pub open spec fn spec_anniversary_month(dm: int, death_year: int, target_year: int, rule: AdarAnniversaryRule) -> int {
    if dm == 12 && spec_is_hebrew_leap(target_year) && !spec_is_hebrew_leap(death_year) {
        if rule == AdarAnniversaryRule::AdarI {
            12
        } else {
            13
        }
    } else if dm == 13 && !spec_is_hebrew_leap(target_year) {
        12
    } else {
        dm
    }
}

/// Yahrzeit RD in `target_year` for a death on `(dy, dm, dd)`: 30 Cheshvan and 30 Kislev fall back
/// to the day before the 1st of the next month when the target month is short; otherwise the
/// anniversary month under the Adar knob, with the day clamped to that month's length.
pub open spec fn spec_yahrzeit(dy: int, dm: int, dd: int, target_year: int, rule: AdarAnniversaryRule) -> int {
    if dm == 8 && dd == 30 && !spec_long_marcheshvan(target_year) {
        spec_fixed_from_hebrew(target_year, 9, 1) - 1
    } else if dm == 9 && dd == 30 && spec_short_kislev(target_year) {
        spec_fixed_from_hebrew(target_year, 10, 1) - 1
    } else {
        let month = spec_anniversary_month(dm, dy, target_year, rule);
        let last = spec_last_day_of_month(target_year, month);
        spec_fixed_from_hebrew(target_year, month, if dd < last { dd } else { last })
    }
}

fn adar_anniversary_month(death: HebrewDate, target_year: i32, rule: AdarAnniversaryRule) -> (month: u8)
    ensures
        month == spec_anniversary_month(death.month as int, death.year as int, target_year as int, rule),
{
    let target_leap = is_hebrew_leap_year(target_year);
    match (death.month, target_leap) {
        (12, true) if !is_hebrew_leap_year(death.year) => match rule {
            AdarAnniversaryRule::AdarI => 12,
            AdarAnniversaryRule::AdarII | AdarAnniversaryRule::Both => 13,
        },
        (13, false) => 12,
        (m, _) => m,
    }
}

/// Yahrzeit / anniversary date in `target_year` for a death on `death`, under the Adar knob.
/// `AdarAnniversaryRule::Both` returns the Adar II date (the primary observance).
pub fn yahrzeit(death: HebrewDate, target_year: i32, rule: AdarAnniversaryRule) -> (rd: RataDie)
    requires
        spec_year_length_in_range(target_year as int),
    ensures
        rd.0 == spec_yahrzeit(death.year as int, death.month as int, death.day as int, target_year as int, rule),
{
    proof {
        year_length::lemma_new_year_linear_bounds(target_year as int);
        date_laws::lemma_days_before_bounded(target_year as int, 9);
        date_laws::lemma_days_before_bounded(target_year as int, 10);
    }
    if death.month == 8 && death.day == 30 && !long_marcheshvan(target_year) {
        return RataDie(fixed_from_hebrew(HebrewDate { year: target_year, month: 9, day: 1 }).0 - 1);
    }
    if death.month == 9 && death.day == 30 && short_kislev(target_year) {
        return RataDie(fixed_from_hebrew(HebrewDate { year: target_year, month: 10, day: 1 }).0 - 1);
    }
    let month = adar_anniversary_month(death, target_year, rule);
    let last = last_day_of_month(target_year, month);
    let day = if death.day < last {
        death.day
    } else {
        last
    };
    fixed_from_hebrew(HebrewDate { year: target_year, month, day })
}

/// The omer count on `(y, m, d)`: days since 16 Nisan plus one, while that is 1..=49.
pub open spec fn spec_omer_day(y: int, m: int, d: int) -> Option<int> {
    let n = spec_fixed_from_hebrew(y, m, d) - spec_fixed_from_hebrew(y, 1, 16);
    if 0 <= n < 49 {
        Some(n + 1)
    } else {
        None
    }
}

/// Sefiras-haomer day count (1..=49) on the Hebrew `date`, or `None` outside the omer. Day 1 is 16
/// Nisan through day 49 = 5 Sivan; realm-invariant.
pub fn omer_day(date: HebrewDate) -> (count: Option<u16>)
    requires
        spec_year_length_in_range(date.year as int),
    ensures
        count matches Some(c) ==> spec_omer_day(date.year as int, date.month as int, date.day as int) == Some(c as int),
        count is None ==> spec_omer_day(date.year as int, date.month as int, date.day as int) is None,
{
    proof {
        year_length::lemma_new_year_linear_bounds(date.year as int);
        date_laws::lemma_days_before_bounded(date.year as int, date.month as int);
        date_laws::lemma_days_before_bounded(date.year as int, 1);
    }
    let start = fixed_from_hebrew(HebrewDate { year: date.year, month: 1, day: 16 }).0;
    let n = fixed_from_hebrew(date).0 - start;
    if 0 <= n && n < 49 {
        Some((n + 1) as u16)
    } else {
        None
    }
}

/// A modern Israeli national day.
#[derive(Clone, Copy, PartialEq, Eq, Debug)]
pub enum IsraeliDay {
    /// Yom HaShoah — Holocaust Remembrance (nominal 27 Nisan).
    YomHaShoah,
    /// Yom HaZikaron — Memorial Day (nominal 4 Iyar).
    YomHaZikaron,
    /// Yom HaAtzmaut — Independence Day (the day after Yom HaZikaron).
    YomHaAtzmaut,
    /// Yom Yerushalayim — Jerusalem Day (28 Iyar, unshifted).
    YomYerushalayim,
}

/// Observed Yom HaShoah: 27 Nisan, moved back to Thursday from a Friday and on to Monday from a
/// Sunday.
pub open spec fn spec_yom_hashoah_observed(y: int) -> int {
    let base = spec_fixed_from_hebrew(y, 1, 27);
    if base % 7 == 5 {
        base - 1
    } else if base % 7 == 0 {
        base + 1
    } else {
        base
    }
}

/// Observed Yom HaZikaron: 4 Iyar, moved back to Wednesday from a Thursday or Friday and on to
/// Monday from a Sunday.
pub open spec fn spec_yom_hazikaron_observed(y: int) -> int {
    let base = spec_fixed_from_hebrew(y, 2, 4);
    if base % 7 == 4 {
        base - 1
    } else if base % 7 == 5 {
        base - 2
    } else if base % 7 == 0 {
        base + 1
    } else {
        base
    }
}

/// The Israeli national day observed on `(y, m, d)`, if any.
pub open spec fn spec_israeli_national_day(y: int, m: int, d: int) -> Option<IsraeliDay> {
    let rd = spec_fixed_from_hebrew(y, m, d);
    if rd == spec_yom_hashoah_observed(y) {
        Some(IsraeliDay::YomHaShoah)
    } else if rd == spec_yom_hazikaron_observed(y) {
        Some(IsraeliDay::YomHaZikaron)
    } else if rd == spec_yom_hazikaron_observed(y) + 1 {
        Some(IsraeliDay::YomHaAtzmaut)
    } else if rd == spec_fixed_from_hebrew(y, 2, 28) {
        Some(IsraeliDay::YomYerushalayim)
    } else {
        None
    }
}

fn yom_hashoah_observed(year: i32) -> (rd: RataDie)
    requires
        spec_year_length_in_range(year as int),
    ensures
        rd.0 == spec_yom_hashoah_observed(year as int),
{
    proof {
        year_length::lemma_new_year_linear_bounds(year as int);
        date_laws::lemma_days_before_bounded(year as int, 1);
    }
    let base = fixed_from_hebrew(HebrewDate { year, month: 1, day: 27 });
    match weekday_from_fixed(base) {
        5 => RataDie(base.0 - 1),
        0 => RataDie(base.0 + 1),
        _ => base,
    }
}

fn yom_hazikaron_observed(year: i32) -> (rd: RataDie)
    requires
        spec_year_length_in_range(year as int),
    ensures
        rd.0 == spec_yom_hazikaron_observed(year as int),
        -800_000_000_000 <= rd.0 <= 800_000_000_000,
{
    proof {
        year_length::lemma_new_year_linear_bounds(year as int);
        date_laws::lemma_days_before_bounded(year as int, 2);
    }
    let base = fixed_from_hebrew(HebrewDate { year, month: 2, day: 4 });
    match weekday_from_fixed(base) {
        4 => RataDie(base.0 - 1),
        5 => RataDie(base.0 - 2),
        0 => RataDie(base.0 + 1),
        _ => base,
    }
}

/// The Israeli national day observed on `date`, if any — the Knesset Shabbat-shift applied.
pub fn israeli_national_day(date: HebrewDate) -> (day: Option<IsraeliDay>)
    requires
        spec_year_length_in_range(date.year as int),
    ensures
        day == spec_israeli_national_day(date.year as int, date.month as int, date.day as int),
{
    let rd = fixed_from_hebrew(date);
    let zikaron = yom_hazikaron_observed(date.year);
    if rd.0 == yom_hashoah_observed(date.year).0 {
        Some(IsraeliDay::YomHaShoah)
    } else if rd.0 == zikaron.0 {
        Some(IsraeliDay::YomHaZikaron)
    } else if rd.0 == zikaron.0 + 1 {
        Some(IsraeliDay::YomHaAtzmaut)
    } else if rd.0 == fixed_from_hebrew(HebrewDate { year: date.year, month: 2, day: 28 }).0 {
        Some(IsraeliDay::YomYerushalayim)
    } else {
        None
    }
}

} // verus!
