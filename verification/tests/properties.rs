use core_engine::calendar::{
    classify_day, fixed_from_gregorian, fixed_from_hebrew, gregorian_from_fixed, hebrew_from_fixed,
    last_day_of_month, last_month_of_year, molad_chalakim, molad_civil, weekday_from_fixed, HebrewDate, RataDie,
    CHALAKIM_PER_MONTH,
};
use core_engine::kiddush_levana::kiddush_levana_window;
use core_engine::params::{KiddushLevanaEnd, KiddushLevanaStart, Realm};
use core_engine::AbsoluteInstant;
use core_engine::params::TekufaMethod::Shmuel;
use core_engine::tekufa::{tekufa_chalakim, tekufa_civil, Season};

/// Dependency-free deterministic PRNG (SplitMix64) — reproducible across runs and platforms.
struct Rng(u64);
impl Rng {
    fn new(seed: u64) -> Self {
        Rng(seed)
    }
    fn next_u64(&mut self) -> u64 {
        self.0 = self.0.wrapping_add(0x9E37_79B9_7F4A_7C15);
        let mut z = self.0;
        z = (z ^ (z >> 30)).wrapping_mul(0xBF58_476D_1CE4_E5B9);
        z = (z ^ (z >> 27)).wrapping_mul(0x94D0_49BB_1331_11EB);
        z ^ (z >> 31)
    }
    /// Uniform i64 in [lo, hi] inclusive.
    fn i64_in(&mut self, lo: i64, hi: i64) -> i64 {
        lo + (self.next_u64() % ((hi - lo + 1) as u64)) as i64
    }
}

#[test]
fn prop_gregorian_round_trip() {
    let mut rng = Rng::new(0x6772_6567);
    for _ in 0..20_000 {
        let rd = rng.i64_in(1, 1_460_000);
        let (y, m, d) = gregorian_from_fixed(RataDie(rd));
        assert!((1..=12).contains(&m) && (1..=31).contains(&d), "rd {rd} → {y}-{m}-{d}");
        assert_eq!(fixed_from_gregorian(y, m, d), RataDie(rd), "greg round-trip rd {rd}");
    }
}

#[test]
fn prop_hebrew_round_trip_and_validity() {
    let mut rng = Rng::new(0x0002);
    for _ in 0..20_000 {
        let rd = rng.i64_in(100_000, 1_400_000);
        let h = hebrew_from_fixed(RataDie(rd));
        assert!(h.month >= 1 && h.month <= last_month_of_year(h.year), "rd {rd} → {:?} month out of range", h);
        assert!(h.day >= 1 && h.day <= last_day_of_month(h.year, h.month), "rd {rd} → {:?} day out of range", h);
        assert_eq!(fixed_from_hebrew(h), RataDie(rd), "hebrew round-trip rd {rd}");
    }
}

#[test]
fn prop_molad_interval_exactly_synodic() {
    let mut rng = Rng::new(0x0003);
    for _ in 0..20_000 {
        let y = rng.i64_in(1, 9000) as i32;
        assert_eq!(molad_chalakim(y, 8) - molad_chalakim(y, 7), CHALAKIM_PER_MONTH, "molad interval year {y}");
        let last = last_month_of_year(y);
        assert_eq!(
            molad_chalakim(y, 1) - molad_chalakim(y, last),
            CHALAKIM_PER_MONTH,
            "molad interval across last→Nisan, year {y}"
        );
    }
}

#[test]
fn prop_tekufa_spacing_exact_shmuel() {
    const SEASON_CH: i64 = 9_467_280 / 4;
    let mut rng = Rng::new(0x74656b75);
    for _ in 0..20_000 {
        let y = rng.i64_in(1, 9000) as i32;
        assert_eq!(
            tekufa_chalakim(y, Season::Tammuz, Shmuel) - tekufa_chalakim(y, Season::Nisan, Shmuel),
            SEASON_CH,
            "Nisan→Tammuz spacing, year {y}"
        );
        assert_eq!(
            tekufa_chalakim(y, Season::Tevet, Shmuel) - tekufa_chalakim(y, Season::Tishrei, Shmuel),
            SEASON_CH,
            "Tishrei→Tevet spacing, year {y}"
        );
    }
}

#[test]
fn prop_weekday_consistent() {
    let mut rng = Rng::new(0x776b);
    for _ in 0..20_000 {
        let rd = rng.i64_in(-500_000, 1_500_000);
        let w = weekday_from_fixed(RataDie(rd));
        assert!(w <= 6, "weekday out of range at rd {rd}");
        assert_eq!(weekday_from_fixed(RataDie(rd + 1)), (w + 1) % 7, "weekday advances by 1, rd {rd}");
    }
}

#[test]
fn prop_classify_day_invariants() {
    let mut rng = Rng::new(0x636c61737379);
    for _ in 0..20_000 {
        let y = rng.i64_in(5700, 5900) as i32;
        let m = rng.i64_in(1, last_month_of_year(y) as i64) as u8;
        let d = rng.i64_in(1, last_day_of_month(y, m) as i64) as u8;
        let date = HebrewDate { year: y, month: m, day: d };
        for realm in [Realm::EretzYisrael, Realm::Diaspora] {
            let c = classify_day(date, realm);
            let rd = fixed_from_hebrew(date);
            assert_eq!(c.shabbat, weekday_from_fixed(rd) == 6, "shabbat⟺Saturday {date:?}");
            assert_eq!(c.rosh_chodesh, d == 30 || (d == 1 && m != 7), "rosh_chodesh rule {date:?}");
            if c.chol_hamoed {
                assert!(m == 1 || m == 7, "chol_hamoed only Nisan/Tishrei {date:?}");
            }
        }
    }
}

const NS_PER_DAY: i64 = 86_400_000_000_000;

/// The molad's absolute instant, projected in exact integers from its chalakim count.
fn molad_nanos(year: i32, month: u8) -> i64 {
    let ch = molad_chalakim(year, month) as i128;
    ((ch * 10_000_000_000 + 1) / 3 - 719_163 * 86_400_000_000_000 - 8_456_496_000_000) as i64
}

#[test]
fn prop_kiddush_levana_window_well_formed() {
    let mut rng = Rng::new(0x6b6c); // "kl"
    for _ in 0..20_000 {
        let y = rng.i64_in(5700, 5900) as i32;
        let m = rng.i64_in(1, last_month_of_year(y) as i64) as u8;
        let (open, close) = kiddush_levana_window(
            AbsoluteInstant { unix_nanos: molad_nanos(y, m) },
            KiddushLevanaStart::ThreeDays,
            KiddushLevanaEnd::HalfMonth,
        );
        assert!(open.unix_nanos < close.unix_nanos, "KL window non-empty {y}/{m}");
        let span = close.unix_nanos - open.unix_nanos;
        // molad+3d .. molad+14d18h22m → span ≈ 11d18h; bound generously.
        assert!(span > 10 * NS_PER_DAY && span < 13 * NS_PER_DAY, "KL span sane {y}/{m}: {span} ns");
    }
}

#[test]
fn fuzz_calendar_readers_never_panic() {
    let mut rng = Rng::new(0x63616c); // "cal"
    for _ in 0..50_000 {
        let year = rng.i64_in(-2000, 12000) as i32;
        // Deliberately allow out-of-range month/day (0, 13/14, 30/31) to probe the match arms.
        let month = rng.i64_in(0, 15) as u8;
        let day = rng.i64_in(0, 31) as u8;
        let date = HebrewDate { year, month, day };
        std::hint::black_box(classify_day(date, Realm::EretzYisrael));
        std::hint::black_box(classify_day(date, Realm::Diaspora));
        std::hint::black_box(molad_chalakim(year, month));
        std::hint::black_box(molad_civil(year, month));
        std::hint::black_box(last_month_of_year(year));
        std::hint::black_box(last_day_of_month(year, month));
        for s in [Season::Nisan, Season::Tammuz, Season::Tishrei, Season::Tevet] {
            std::hint::black_box(tekufa_civil(year, s, Shmuel));
        }
        // Valid (year, month) for the KL window (month within the year's range).
        let m = rng.i64_in(1, last_month_of_year(year) as i64) as u8;
        std::hint::black_box(kiddush_levana_window(
            AbsoluteInstant { unix_nanos: molad_nanos(year, m) },
            KiddushLevanaStart::ThreeDays,
            KiddushLevanaEnd::HalfMonth,
        ));
    }
}
