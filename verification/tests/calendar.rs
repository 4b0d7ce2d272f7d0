use core_engine::calendar::{
    classify_day, festival_date, fixed_from_gregorian, fixed_from_hebrew, gregorian_from_fixed,
    hebrew_from_fixed, hebrew_new_year, hebrew_year_length, is_hebrew_leap_year, last_day_of_month,
    last_month_of_year, molad_chalakim, molad_civil, weekday_from_fixed, yahrzeit, DayClass, DayKind,
    Festival, HebrewDate, RataDie, CHALAKIM_PER_MONTH,
};
use core_engine::kiddush_levana::kiddush_levana_window;
use core_engine::params::{AdarAnniversaryRule, KiddushLevanaEnd, KiddushLevanaStart, Realm};
use core_engine::AbsoluteInstant;

fn greg(rd: RataDie) -> (i32, u8, u8) {
    gregorian_from_fixed(rd)
}

fn hd(year: i32, month: u8, day: u8) -> HebrewDate {
    HebrewDate { year, month, day }
}

#[test]
fn gregorian_anchors() {
    assert_eq!(fixed_from_gregorian(1, 1, 1), RataDie(1));
    assert_eq!(fixed_from_gregorian(2020, 1, 5), RataDie(737_429));
    assert_eq!(greg(RataDie(737_429)), (2020, 1, 5));
    // The leap day of a century year divisible by 400, and the day after a non-leap February.
    assert_eq!(greg(fixed_from_gregorian(2000, 2, 29)), (2000, 2, 29));
    assert_eq!(greg(RataDie(fixed_from_gregorian(1900, 2, 28).0 + 1)), (1900, 3, 1));
    assert_eq!(greg(RataDie(0)), (0, 12, 31));
    // RD 1 is a Monday.
    assert_eq!(weekday_from_fixed(RataDie(1)), 1);
}

#[test]
fn gregorian_round_trip_from_dates() {
    for (y, m, d) in [(2026, 9, 12), (1, 1, 1), (-44, 3, 15), (2400, 12, 31), (1999, 12, 31)] {
        assert_eq!(greg(fixed_from_gregorian(y, m, d)), (y, m, d));
    }
}

#[test]
fn rosh_hashanah_dates_and_year_lengths() {
    assert_eq!(greg(hebrew_new_year(5786)), (2025, 9, 23));
    assert_eq!(greg(hebrew_new_year(5787)), (2026, 9, 12));
    assert_eq!(hebrew_year_length(5786), 354);
    assert_eq!(hebrew_year_length(5784), 383);
    assert!(is_hebrew_leap_year(5784) && !is_hebrew_leap_year(5786) && is_hebrew_leap_year(5787));
    assert_eq!(last_month_of_year(5787), 13);
    assert_eq!(last_month_of_year(5786), 12);
}

#[test]
fn year_lengths_are_permitted_and_match_leap() {
    for y in 1..6000 {
        let len = hebrew_year_length(y);
        if is_hebrew_leap_year(y) {
            assert!((383..=385).contains(&len), "year {y} length {len}");
        } else {
            assert!((353..=355).contains(&len), "year {y} length {len}");
        }
    }
}

#[test]
fn rosh_hashanah_is_never_sunday_wednesday_or_friday() {
    for y in 1..6000 {
        let w = weekday_from_fixed(hebrew_new_year(y));
        assert!(w != 0 && w != 3 && w != 5, "year {y} weekday {w}");
    }
}

#[test]
fn month_lengths_follow_the_year_length() {
    // 5786 is a regular (354-day) common year: Cheshvan 29, Kislev 30, Adar 29.
    assert_eq!(last_day_of_month(5786, 8), 29);
    assert_eq!(last_day_of_month(5786, 9), 30);
    assert_eq!(last_day_of_month(5786, 12), 29);
    // 5784 is a deficient leap year (383 days): Adar I 30, Adar II 29, Kislev 29.
    assert_eq!(last_day_of_month(5784, 12), 30);
    assert_eq!(last_day_of_month(5784, 13), 29);
    assert_eq!(last_day_of_month(5784, 9), 29);
}

#[test]
fn festival_dates_2026() {
    assert_eq!(greg(festival_date(5786, Festival::Pesach)), (2026, 4, 2));
    assert_eq!(greg(festival_date(5786, Festival::Purim)), (2026, 3, 3));
    assert_eq!(greg(festival_date(5786, Festival::Shavuot)), (2026, 5, 22));
    assert_eq!(greg(festival_date(5787, Festival::RoshHashanah)), (2026, 9, 12));
    assert_eq!(greg(festival_date(5787, Festival::YomKippur)), (2026, 9, 21));
    assert_eq!(greg(festival_date(5787, Festival::Sukkot)), (2026, 9, 26));
    assert_eq!(greg(festival_date(5787, Festival::Chanukah)), (2026, 12, 5));
}

#[test]
fn hebrew_dates_of_known_days() {
    assert_eq!(hebrew_from_fixed(fixed_from_gregorian(2026, 9, 12)), hd(5787, 7, 1));
    assert_eq!(hebrew_from_fixed(fixed_from_gregorian(2026, 4, 2)), hd(5786, 1, 15));
    assert_eq!(hebrew_from_fixed(fixed_from_gregorian(2024, 3, 24)), hd(5784, 13, 14));
    for date in [hd(5786, 6, 29), hd(5787, 8, 30), hd(5784, 12, 30), hd(1, 7, 1)] {
        assert_eq!(hebrew_from_fixed(fixed_from_hebrew(date)), date);
    }
}

#[test]
fn molad_bahard_and_interval() {
    // BaHaRaD: 23:11 + 6 chalakim of the civil day.
    let (_, h, mi, ch) = molad_civil(1, 7);
    assert_eq!((h, mi, ch), (23, 11, 6));
    for y in [5785, 5786, 5787] {
        assert_eq!(molad_chalakim(y, 8) - molad_chalakim(y, 7), CHALAKIM_PER_MONTH);
    }
    // Elul → next Tishrei is one month too.
    assert_eq!(molad_chalakim(5787, 7) - molad_chalakim(5786, 6), CHALAKIM_PER_MONTH);
}

#[test]
fn yahrzeit_adar_rules_and_short_months() {
    // Death in Adar of a common year (5785), observed in a leap year (5787).
    let death = hd(5785, 12, 10);
    assert_eq!(yahrzeit(death, 5787, AdarAnniversaryRule::AdarII), fixed_from_hebrew(hd(5787, 13, 10)));
    assert_eq!(yahrzeit(death, 5787, AdarAnniversaryRule::Both), fixed_from_hebrew(hd(5787, 13, 10)));
    assert_eq!(yahrzeit(death, 5787, AdarAnniversaryRule::AdarI), fixed_from_hebrew(hd(5787, 12, 10)));
    // Death in Adar II observed in a common year → the single Adar.
    assert_eq!(yahrzeit(hd(5784, 13, 5), 5786, AdarAnniversaryRule::AdarII), fixed_from_hebrew(hd(5786, 12, 5)));
    // 30 Cheshvan in a year whose Cheshvan is short → 29 Cheshvan.
    assert_eq!(yahrzeit(hd(5780, 8, 30), 5786, AdarAnniversaryRule::AdarII), fixed_from_hebrew(hd(5786, 8, 29)));
    // 30 Adar I observed in a common year → clamped to 29 Adar.
    assert_eq!(yahrzeit(hd(5784, 12, 30), 5786, AdarAnniversaryRule::AdarII), fixed_from_hebrew(hd(5786, 12, 29)));
}

#[test]
fn classify_day_examples() {
    // 1 Tishrei 5787 is a Shabbat Rosh Hashanah; the day before is erev.
    let rh = classify_day(hd(5787, 7, 1), Realm::Diaspora);
    assert!(rh.shabbat && rh.yom_tov && !rh.rosh_chodesh);
    assert_eq!(rh.primary(), DayKind::YomTov);
    let erev = classify_day(hd(5786, 6, 29), Realm::Diaspora);
    assert!(erev.erev && !erev.yom_tov);
    assert_eq!(erev.primary(), DayKind::Erev);
    // Yom Kippur is both a Yom Tov and a fast.
    let yk = classify_day(hd(5787, 7, 10), Realm::EretzYisrael);
    assert!(yk.yom_tov && yk.fast_day);
    // 16 Tishrei: Yom Tov Sheni in the diaspora, Chol HaMoed in Eretz Yisrael.
    assert!(classify_day(hd(5787, 7, 16), Realm::Diaspora).yom_tov);
    let ey = classify_day(hd(5787, 7, 16), Realm::EretzYisrael);
    assert!(ey.chol_hamoed && !ey.yom_tov);
    assert_eq!(ey.primary(), DayKind::CholHaMoed);
    // Tisha b'Av 5782 was deferred from Shabbat 9 Av (2022-08-06) to Sunday 10 Av.
    assert_eq!(fixed_from_hebrew(hd(5782, 5, 9)), fixed_from_gregorian(2022, 8, 6));
    assert_eq!(weekday_from_fixed(fixed_from_hebrew(hd(5782, 5, 9))), 6);
    assert!(!classify_day(hd(5782, 5, 9), Realm::Diaspora).fast_day);
    assert!(classify_day(hd(5782, 5, 10), Realm::Diaspora).fast_day);
    assert_eq!(DayClass::default().primary(), DayKind::Weekday);
}

/// The molad's absolute instant, projected in exact integers: chalakim since RD 0 at 10^10/3 ns
/// each, RD 0 being 719_163 days before the Unix epoch, less the molad meridian's 35.2354° offset.
fn molad_nanos(year: i32, month: u8) -> i64 {
    let ch = molad_chalakim(year, month) as i128;
    let ns = (ch * 10_000_000_000 + 1) / 3 - 719_163 * 86_400_000_000_000 - 8_456_496_000_000;
    ns as i64
}

#[test]
fn f3_molad_and_kiddush_levana() {
    // BaHaRaD: molad of Tishrei AM 1 is 23:11 + 6 chalakim in the mean-time-frame rendering.
    let (_, h, mi, ch) = molad_civil(1, 7);
    assert_eq!((h, mi, ch), (23, 11, 6), "BaHaRaD time-of-day mismatch");

    // Exact synodic interval between consecutive molads, across several years incl. a leap year.
    for y in [5785, 5786, 5787] {
        assert_eq!(
            molad_chalakim(y, 8) - molad_chalakim(y, 7),
            CHALAKIM_PER_MONTH,
            "synodic interval must be exactly 765433 chalakim (year {y})"
        );
    }

    // Kiddush Levana window: earliest = molad + 3 days; latest = molad + ½ synodic month.
    let molad = molad_nanos(5786, 7);
    let (e0, e1) = kiddush_levana_window(
        AbsoluteInstant { unix_nanos: molad },
        KiddushLevanaStart::ThreeDays,
        KiddushLevanaEnd::HalfMonth,
    );
    let npd: f64 = 86_400.0 * 1.0e9;
    let half_days = CHALAKIM_PER_MONTH as f64 / 2.0 / 25_920.0;
    assert_eq!(e0.unix_nanos, molad + (3.0 * npd).round() as i64, "KL earliest = molad + 3 days");
    assert_eq!(
        e1.unix_nanos,
        molad + (half_days * npd).round() as i64,
        "KL latest = molad + half synodic month"
    );
    assert!(e1.unix_nanos > e0.unix_nanos, "KL window must be non-empty");
}

#[test]
fn hebrew_date_advances_one_day_per_civil_day() {
    // Across 5785..5788: month ends, Adar/Adar II → Nisan, and Elul → Tishrei of the next year.
    let start = fixed_from_hebrew(hd(5785, 7, 1)).0;
    let end = fixed_from_hebrew(hd(5789, 7, 1)).0;
    let mut prev = hebrew_from_fixed(RataDie(start));
    assert_eq!(prev, hd(5785, 7, 1));
    for rd in start + 1..=end {
        let next = hebrew_from_fixed(RataDie(rd));
        let expected = if prev.day < last_day_of_month(prev.year, prev.month) {
            hd(prev.year, prev.month, prev.day + 1)
        } else if prev.month == 6 {
            hd(prev.year + 1, 7, 1)
        } else if prev.month == last_month_of_year(prev.year) {
            hd(prev.year, 1, 1)
        } else {
            hd(prev.year, prev.month + 1, 1)
        };
        assert_eq!(next, expected, "rd {rd}");
        prev = next;
    }
    assert_eq!(prev, hd(5789, 7, 1));
}
