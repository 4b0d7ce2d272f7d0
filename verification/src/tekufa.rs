//! Arithmetic tekufot (seasons): pure calendar arithmetic, not astronomy. Shmuel's tekufa is the
//! Julian 365¼-day construct; Rav Ada's is the 19-year Metonic mean (235 synodic months / 19).
//! Both are exact integers worked in **regaim** (1/76 of a chelek), because Rav Ada's year is not
//! a whole number of chalakim.
//!
//! The creation phase — Tekufat Nisan of year 1 — is placed by the Rambam's relation to the
//! BaHaRaD molad and calibrated to the published Tekufat Tishrei dates; only the integer phase is
//! pinned, the season length is exact.
use vstd::prelude::*;
use crate::calendar::{molad_chalakim, spec_molad_chalakim, RataDie};
use crate::params::TekufaMethod;

verus! {

/// Regaim (the smallest tekufa unit) per chelek.
const REGAIM_PER_CHALAKIM: i64 = 76;

/// Regaim per day = 76 × 25920.
const REGAIM_PER_DAY: i64 = 1_969_920;

/// Shmuel's solar year in regaim = 365¼ d = 9_467_280 chalakim × 76.
const SHMUEL_YEAR_REGAIM: i64 = 719_513_280;

/// Rav Ada's solar year in regaim = 235 synodic months / 19 = 235 × 765433 × 76 / 19 (exact).
const RAV_ADA_YEAR_REGAIM: i64 = 719_507_020;

/// Tekufat Nisan of year 1 lies 7d 9h 642p before the BaHaRaD molad.
const TEKUFAT_NISAN_Y1_OFFSET_CHALAKIM: i64 = 191_802;

/// Additive phase calibration (regaim): pins Tekufat Tishrei (Shmuel) of 5787 to
/// 2026-10-07 15:00 mean time.
const ANCHOR_CALIBRATION_REGAIM: i64 = -370_475_832;

/// The four seasons (tekufot): Nisan = vernal, Tammuz = summer, Tishrei = autumnal, Tevet = winter.
#[derive(Clone, Copy, PartialEq, Eq, Debug)]
pub enum Season {
    /// Vernal (spring) tekufa — Nisan.
    Nisan,
    /// Summer tekufa — Tammuz.
    Tammuz,
    /// Autumnal tekufa — Tishrei (the one tal-u-matar counts from).
    Tishrei,
    /// Winter tekufa — Tevet.
    Tevet,
}

/// Season ordinal within the tekufa year, counting from Tekufat Nisan (0 = Nisan … 3 = Tevet).
pub open spec fn spec_season_offset(season: Season) -> int {
    match season {
        Season::Nisan => 0,
        Season::Tammuz => 1,
        Season::Tishrei => 2,
        Season::Tevet => 3,
    }
}

/// The solar year of the method, in regaim.
pub open spec fn spec_year_regaim(method: TekufaMethod) -> int {
    match method {
        TekufaMethod::Shmuel => 719_513_280,
        TekufaMethod::RavAda => 719_507_020,
    }
}

/// Tekufat Nisan of year 1 in regaim since RD 0.
pub open spec fn spec_tekufat_nisan_y1_regaim() -> int {
    (spec_molad_chalakim(1, 7) - 191_802) * 76 - 370_475_832
}

/// Regaim since RD 0 of the tekufa of `(y, season)`: a whole number of quarter years after
/// Tekufat Nisan of year 1.
pub open spec fn spec_tekufa_regaim(y: int, season: Season, method: TekufaMethod) -> int {
    spec_tekufat_nisan_y1_regaim() + ((y - 1) * 4 + spec_season_offset(season)) * (spec_year_regaim(method) / 4)
}

fn tekufat_nisan_y1_regaim() -> (regaim: i64)
    ensures
        regaim == spec_tekufat_nisan_y1_regaim(),
{
    (molad_chalakim(1, 7) - TEKUFAT_NISAN_Y1_OFFSET_CHALAKIM) * REGAIM_PER_CHALAKIM
        + ANCHOR_CALIBRATION_REGAIM
}

fn season_offset(season: Season) -> (offset: i64)
    ensures
        offset == spec_season_offset(season),
{
    match season {
        Season::Nisan => 0,
        Season::Tammuz => 1,
        Season::Tishrei => 2,
        Season::Tevet => 3,
    }
}

fn year_regaim(method: TekufaMethod) -> (regaim: i64)
    ensures
        regaim == spec_year_regaim(method),
{
    match method {
        TekufaMethod::Shmuel => SHMUEL_YEAR_REGAIM,
        TekufaMethod::RavAda => RAV_ADA_YEAR_REGAIM,
    }
}

fn tekufa_regaim(year: i32, season: Season, method: TekufaMethod) -> (regaim: i64)
    ensures
        regaim == spec_tekufa_regaim(year as int, season, method),
{
    let season_len = year_regaim(method) / 4;
    let season_index = (year as i64 - 1) * 4 + season_offset(season);
    tekufat_nisan_y1_regaim() + season_index * season_len
}

/// Tekufa of `(year, season)` as **exact-integer chalakim since RD 0** (molad mean-time frame).
/// For Rav Ada this truncates a sub-chelek remainder; the exact date is from [`tekufa_civil`].
pub fn tekufa_chalakim(year: i32, season: Season, method: TekufaMethod) -> (chalakim: i64)
    ensures
        chalakim == spec_tekufa_regaim(year as int, season, method) / 76,
{
    let rg = tekufa_regaim(year, season, method);
    match rg.checked_div_euclid(REGAIM_PER_CHALAKIM) {
        Some(q) => q,
        None => 0,
    }
}

/// The tekufa in regaim rendered as `(day, hour, minute, chalakim)`: the whole chalakim of the
/// tekufa rendered like a molad.
pub open spec fn spec_regaim_civil(rg: int) -> (int, int, int, int) {
    let in_day_ch = (rg % 1_969_920) / 76;
    (rg / 1_969_920, in_day_ch / 1_080, (in_day_ch % 1_080) / 18, (in_day_ch % 1_080) % 18)
}

/// Tekufa of `(year, season)` rendered meridian-free as `(civil RD, hour, minute, chalakim)` —
/// exact, the citable form. Computed from regaim so Rav Ada is exact.
pub fn tekufa_civil(year: i32, season: Season, method: TekufaMethod) -> (civil: (RataDie, u8, u8, u16))
    ensures
        (civil.0.0 as int, civil.1 as int, civil.2 as int, civil.3 as int) == spec_regaim_civil(
            spec_tekufa_regaim(year as int, season, method),
        ),
{
    let rg = tekufa_regaim(year, season, method);
    let rd = match rg.checked_div_euclid(REGAIM_PER_DAY) {
        Some(q) => q,
        None => 0,
    };
    let in_day_regaim = match rg.checked_rem_euclid(REGAIM_PER_DAY) {
        Some(r) => r,
        None => 0,
    };
    let in_day_ch = in_day_regaim / REGAIM_PER_CHALAKIM;
    let hour = in_day_ch / 1_080;
    let rem = in_day_ch % 1_080;
    (RataDie(rd), hour as u8, (rem / 18) as u8, (rem % 18) as u16)
}

/// Under Shmuel the seasons are exactly a quarter of 365¼ days apart, to the chelek: Tammuz is
/// 2_366_820 chalakim after Nisan, Tishrei after Tammuz, Tevet after Tishrei, and the next Nisan
/// after Tevet.
pub proof fn lemma_shmuel_season_spacing(y: int)
    ensures
        spec_tekufa_regaim(y, Season::Tammuz, TekufaMethod::Shmuel) / 76
            - spec_tekufa_regaim(y, Season::Nisan, TekufaMethod::Shmuel) / 76 == 2_366_820,
        spec_tekufa_regaim(y, Season::Tishrei, TekufaMethod::Shmuel) / 76
            - spec_tekufa_regaim(y, Season::Tammuz, TekufaMethod::Shmuel) / 76 == 2_366_820,
        spec_tekufa_regaim(y, Season::Tevet, TekufaMethod::Shmuel) / 76
            - spec_tekufa_regaim(y, Season::Tishrei, TekufaMethod::Shmuel) / 76 == 2_366_820,
        spec_tekufa_regaim(y + 1, Season::Nisan, TekufaMethod::Shmuel) / 76
            - spec_tekufa_regaim(y, Season::Tevet, TekufaMethod::Shmuel) / 76 == 2_366_820,
{
    let base = spec_tekufat_nisan_y1_regaim();
    let k = (y - 1) * 4;
    let q = 179_878_320int;
    assert(q == 76 * 2_366_820);
    assert(spec_tekufa_regaim(y, Season::Nisan, TekufaMethod::Shmuel) == base + k * q);
    assert(spec_tekufa_regaim(y, Season::Tammuz, TekufaMethod::Shmuel) == base + k * q + q);
    assert(spec_tekufa_regaim(y, Season::Tishrei, TekufaMethod::Shmuel) == base + k * q + 2 * q);
    assert(spec_tekufa_regaim(y, Season::Tevet, TekufaMethod::Shmuel) == base + k * q + 3 * q);
    assert(spec_tekufa_regaim(y + 1, Season::Nisan, TekufaMethod::Shmuel) == base + k * q + 4 * q) by (nonlinear_arith)
        requires k == (y - 1) * 4, q == 179_878_320int,
            spec_tekufa_regaim(y + 1, Season::Nisan, TekufaMethod::Shmuel) == base + (y * 4) * q;
    let a = base + k * q;
    assert((a + q) / 76 == a / 76 + 2_366_820);
    assert((a + 2 * q) / 76 == a / 76 + 2 * 2_366_820);
    assert((a + 3 * q) / 76 == a / 76 + 3 * 2_366_820);
    assert((a + 4 * q) / 76 == a / 76 + 4 * 2_366_820);
}

/// Every method's year is exactly four equal seasons, to the regea.
pub proof fn lemma_year_is_four_seasons(method: TekufaMethod)
    ensures
        spec_year_regaim(method) == 4 * (spec_year_regaim(method) / 4),
{
}

} // verus!
