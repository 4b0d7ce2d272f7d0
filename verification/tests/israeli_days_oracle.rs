use core_engine::calendar::{
    fixed_from_gregorian, fixed_from_hebrew, hebrew_from_fixed, israeli_national_day, omer_day,
    HebrewDate, IsraeliDay, RataDie,
};

#[test]
fn ordinary_days_are_none() {
    // A weekday in the middle of the year is not any Israeli national day.
    for (y, m, d) in [(2026, 1, 15), (2026, 7, 1), (2026, 12, 25)] {
        let hd = hebrew_from_fixed(fixed_from_gregorian(y, m, d));
        assert_eq!(israeli_national_day(hd), None, "{y}-{m}-{d} should be None");
    }
}

#[test]
fn omer_count_spans_16_nisan_to_5_sivan() {
    // Day 1 = 16 Nisan; day 49 = 5 Sivan; before/after = None. (5786, realm-invariant.)
    let omer = |month, day| omer_day(HebrewDate { year: 5786, month, day });
    assert_eq!(omer(1, 16), Some(1));
    assert_eq!(omer(3, 5), Some(49));
    assert_eq!(omer(1, 15), None); // first day of Pesach — not yet counting
    assert_eq!(omer(3, 6), None); // Shavuos
    // Internal consistency: day N is N days after 16 Nisan.
    let d33 = hebrew_from_fixed(RataDie(
        fixed_from_hebrew(HebrewDate { year: 5786, month: 1, day: 16 }).0 + 32,
    ));
    assert_eq!(omer_day(d33), Some(33)); // Lag BaOmer
}

#[test]
fn israeli_days_2026_shifts() {
    // 5786: 27 Nisan is Tuesday 2026-04-14 (unshifted); 4 Iyar falls on Tuesday 2026-04-21;
    // Yom HaAtzmaut the day after; Yom Yerushalayim on 28 Iyar (2026-05-15).
    let on = |y, m, d| israeli_national_day(hebrew_from_fixed(fixed_from_gregorian(y, m, d)));
    assert_eq!(on(2026, 4, 14), Some(IsraeliDay::YomHaShoah));
    assert_eq!(on(2026, 4, 21), Some(IsraeliDay::YomHaZikaron));
    assert_eq!(on(2026, 4, 22), Some(IsraeliDay::YomHaAtzmaut));
    assert_eq!(on(2026, 5, 15), Some(IsraeliDay::YomYerushalayim));
}
