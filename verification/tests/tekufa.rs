use core_engine::calendar::{fixed_from_gregorian, fixed_from_hebrew, HebrewDate};
use core_engine::couplings::{tal_umatar_eve, tal_umatar_start_date, tal_umatar_tekufa_day_in_range};
use core_engine::params::{TalUmatarBasis, TekufaMethod};
use core_engine::tekufa::{tekufa_chalakim, tekufa_civil, Season};

#[test]
fn tekufat_tishrei_5787_is_the_calibration_anchor() {
    // Tekufat Tishrei (Shmuel) of 5787: 2026-10-07 15:00 mean time.
    let (rd, h, mi, ch) = tekufa_civil(5787, Season::Tishrei, TekufaMethod::Shmuel);
    assert_eq!(rd, fixed_from_gregorian(2026, 10, 7));
    assert_eq!((h, mi, ch), (15, 0, 0));
    assert_eq!(tekufa_chalakim(5787, Season::Tishrei, TekufaMethod::Shmuel), rd.0 * 25_920 + 15 * 1_080);
}

#[test]
fn shmuel_tekufot_rotate_through_the_hours() {
    // Successive Shmuel tekufot are 91d 7h 30m apart: 15:00 → 22:30 → 06:00 next quarter.
    let (_, h, mi, _) = tekufa_civil(5787, Season::Tevet, TekufaMethod::Shmuel);
    assert_eq!((h, mi), (22, 30));
    let (_, h, mi, _) = tekufa_civil(5788, Season::Nisan, TekufaMethod::Shmuel);
    assert_eq!((h, mi), (6, 0));
}

#[test]
fn tal_umatar_start_dates() {
    // Diaspora (tekufa-based, Shmuel): the 60th day from 2026-10-07 is 2026-12-05 (25 Kislev 5787).
    let d = tal_umatar_start_date(5787, TalUmatarBasis::TekufaBased, TekufaMethod::Shmuel);
    assert_eq!(d, HebrewDate { year: 5787, month: 9, day: 25 });
    assert_eq!(fixed_from_hebrew(d), fixed_from_gregorian(2026, 12, 5));
    // Eretz Yisrael: 7 Cheshvan.
    assert_eq!(
        tal_umatar_start_date(5787, TalUmatarBasis::Fixed7Cheshvan, TekufaMethod::Shmuel),
        HebrewDate { year: 5787, month: 8, day: 7 }
    );
}

#[test]
fn rav_ada_year_is_the_metonic_mean() {
    // 19 Rav Ada years are exactly 235 mean months = 235 × 765433 chalakim.
    let a = tekufa_chalakim(5700, Season::Nisan, TekufaMethod::RavAda);
    let b = tekufa_chalakim(5719, Season::Nisan, TekufaMethod::RavAda);
    assert_eq!(b - a, 235 * 765_433);
}

#[test]
fn tal_umatar_eve_is_the_civil_day_before_the_start() {
    // Diaspora 5787: the start is 2026-12-05, so maariv on the evening of 2026-12-04 opens it.
    let eve = tal_umatar_eve(5787, TalUmatarBasis::TekufaBased, TekufaMethod::Shmuel);
    assert_eq!(eve, fixed_from_gregorian(2026, 12, 4));
    // Eretz Yisrael 5787: 7 Cheshvan = 2026-10-18, so the eve is 2026-10-17.
    let eve = tal_umatar_eve(5787, TalUmatarBasis::Fixed7Cheshvan, TekufaMethod::Shmuel);
    assert_eq!(eve.0 + 1, fixed_from_hebrew(HebrewDate { year: 5787, month: 8, day: 7 }).0);
    assert_eq!(eve, fixed_from_gregorian(2026, 10, 17));
    assert!(tal_umatar_tekufa_day_in_range(5787, TekufaMethod::RavAda));
    assert!(!tal_umatar_tekufa_day_in_range(i32::MAX, TekufaMethod::Shmuel));
    assert!(!tal_umatar_tekufa_day_in_range(i32::MIN, TekufaMethod::Shmuel));
}
