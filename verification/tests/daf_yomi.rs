use core_engine::calendar::fixed_from_gregorian;
use core_engine::daf_yomi::{daf_yomi, DafYomi, DAF_YOMI_CYCLE_DAYS, MASECHTA_LAST_DAF};

#[test]
fn epoch_is_berachos_2() {
    // 2020-01-05 = cycle-14 start = Berachos (index 0) daf 2.
    let d = daf_yomi(fixed_from_gregorian(2020, 1, 5));
    assert_eq!(d, DafYomi { masechta: 0, daf: 2 });
}

#[test]
fn day_counts_sum_to_cycle_length() {
    let total: i64 = MASECHTA_LAST_DAF.iter().map(|&d| d as i64 - 1).sum();
    assert_eq!(total, DAF_YOMI_CYCLE_DAYS);
}

#[test]
fn boundary_berachos_to_shabbos() {
    // Berachos occupies 63 days (daf 2..64); Shabbos 2 starts on day 63 (2020-03-08).
    assert_eq!(daf_yomi(fixed_from_gregorian(2020, 3, 8)), DafYomi { masechta: 1, daf: 2 });
}

#[test]
fn meilah_block_display_offsets() {
    // The Vilna-Shas continuous pagination.
    assert_eq!(daf_yomi(fixed_from_gregorian(2027, 3, 14)), DafYomi { masechta: 36, daf: 24 });
    assert_eq!(daf_yomi(fixed_from_gregorian(2027, 3, 20)), DafYomi { masechta: 37, daf: 30 });
    assert_eq!(daf_yomi(fixed_from_gregorian(2027, 3, 25)), DafYomi { masechta: 38, daf: 35 });
}

#[test]
fn daf_yomi_is_periodic_in_both_directions() {
    let epoch = fixed_from_gregorian(2020, 1, 5).0;
    for k in [-3i64, -1, 1, 2] {
        assert_eq!(
            daf_yomi(core_engine::calendar::RataDie(epoch + k * DAF_YOMI_CYCLE_DAYS)),
            DafYomi { masechta: 0, daf: 2 }
        );
    }
    // The last day of a cycle is Niddah 73.
    assert_eq!(
        daf_yomi(core_engine::calendar::RataDie(epoch - 1)),
        DafYomi { masechta: 39, daf: 73 }
    );
}
