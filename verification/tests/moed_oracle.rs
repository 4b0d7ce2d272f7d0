use core_engine::calendar::{in_nine_days, in_three_weeks, moed_of, HebrewDate, Moed};
use core_engine::params::Realm;

fn hd(year: i32, month: u8, day: u8) -> HebrewDate {
    HebrewDate { year, month, day }
}

#[test]
fn moed_of_matches_hebcal_2026() {
    let d = Realm::Diaspora;
    let cases: &[(HebrewDate, Option<Moed>)] = &[
        (hd(5786, 6, 29), Some(Moed::ErevRoshHashana)),
        (hd(5787, 7, 1), Some(Moed::RoshHashana)),
        (hd(5787, 7, 2), Some(Moed::RoshHashana)),
        (hd(5787, 7, 3), Some(Moed::TzomGedaliah)),
        (hd(5787, 7, 9), Some(Moed::ErevYomKippur)),
        (hd(5787, 7, 10), Some(Moed::YomKippur)),
        (hd(5787, 7, 14), Some(Moed::ErevSukkos)),
        (hd(5787, 7, 15), Some(Moed::Sukkos)),
        (hd(5787, 7, 16), Some(Moed::Sukkos)),
        (hd(5787, 7, 17), Some(Moed::CholHamoedSukkos)),
        (hd(5787, 7, 20), Some(Moed::CholHamoedSukkos)),
        (hd(5787, 7, 21), Some(Moed::HoshanaRabba)),
        (hd(5787, 7, 22), Some(Moed::ShminiAtzeres)),
        (hd(5787, 7, 23), Some(Moed::SimchasTorah)),
        (hd(5787, 10, 10), Some(Moed::AsaraBeteves)),
        (hd(5787, 9, 25), Some(Moed::Chanukah)),
        (hd(5787, 9, 30), Some(Moed::Chanukah)),
        (hd(5787, 10, 2), Some(Moed::Chanukah)),
        (hd(5787, 10, 3), None),
        (hd(5786, 11, 15), Some(Moed::TuBishvat)),
        (hd(5786, 12, 13), Some(Moed::TaanisEsther)),
        (hd(5786, 12, 14), Some(Moed::Purim)),
        (hd(5786, 12, 15), Some(Moed::ShushanPurim)),
        (hd(5786, 1, 14), Some(Moed::ErevPesach)),
        (hd(5786, 1, 15), Some(Moed::Pesach)),
        (hd(5786, 1, 16), Some(Moed::Pesach)),
        (hd(5786, 1, 17), Some(Moed::CholHamoedPesach)),
        (hd(5786, 1, 20), Some(Moed::CholHamoedPesach)),
        (hd(5786, 1, 21), Some(Moed::Pesach)),
        (hd(5786, 1, 22), Some(Moed::Pesach)),
        (hd(5786, 2, 14), Some(Moed::PesachSheni)),
        (hd(5786, 2, 18), Some(Moed::LagBaomer)),
        (hd(5786, 3, 5), Some(Moed::ErevShavuos)),
        (hd(5786, 3, 6), Some(Moed::Shavuos)),
        (hd(5786, 3, 7), Some(Moed::Shavuos)),
        (hd(5786, 4, 17), Some(Moed::TzomTammuz)),
        (hd(5786, 5, 8), Some(Moed::ErevTishaBav)),
        (hd(5786, 5, 9), Some(Moed::TishaBav)),
        (hd(5786, 5, 15), Some(Moed::TuBeav)),
        (hd(5786, 8, 5), None),
        (hd(5787, 11, 3), None),
    ];
    for (date, want) in cases {
        assert_eq!(moed_of(*date, d), *want, "moed_of({:?}) mismatch", date);
    }
}

#[test]
fn eretz_yisrael_has_no_second_days() {
    let ey = Realm::EretzYisrael;
    assert_eq!(moed_of(hd(5787, 7, 23), ey), None, "no Simchas Torah day in EY");
    assert_eq!(moed_of(hd(5786, 1, 22), ey), None, "no Pesach VIII in EY");
    assert_eq!(moed_of(hd(5787, 7, 22), ey), Some(Moed::ShminiAtzeres));
    assert_eq!(moed_of(hd(5786, 1, 21), ey), Some(Moed::Pesach));
    assert_eq!(moed_of(hd(5787, 7, 16), ey), Some(Moed::CholHamoedSukkos));
}

#[test]
fn three_weeks_and_nine_days_ranges() {
    assert!(!in_three_weeks(hd(5786, 4, 16)), "day before 17 Tammuz");
    assert!(in_three_weeks(hd(5786, 4, 17)), "17 Tammuz starts the Three Weeks");
    assert!(in_three_weeks(hd(5786, 5, 1)), "1 Av is inside the Three Weeks");
    assert!(in_three_weeks(hd(5786, 5, 9)), "9 Av is the last day");
    assert!(!in_three_weeks(hd(5786, 5, 10)), "10 Av is after");

    assert!(!in_nine_days(hd(5786, 4, 29)), "29 Tammuz (last of Tammuz) is before the Nine Days");
    assert!(in_nine_days(hd(5786, 5, 1)), "1 Av starts the Nine Days");
    assert!(in_nine_days(hd(5786, 5, 9)), "9 Av is the last day");
    assert!(!in_nine_days(hd(5786, 5, 10)), "10 Av is after");
}

#[test]
fn deferred_fasts_move_with_shabbat() {
    // 5782: 9 Av fell on Shabbat (2022-08-06), so Tisha b'Av was observed on 10 Av and the erev
    // moved with it.
    let d = Realm::Diaspora;
    assert_eq!(moed_of(hd(5782, 5, 9), d), Some(Moed::ErevTishaBav));
    assert_eq!(moed_of(hd(5782, 5, 10), d), Some(Moed::TishaBav));
}
