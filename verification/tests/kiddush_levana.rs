use core_engine::kiddush_levana::{
    kiddush_levana_window, window_night_bracket, within_window, HALF_MONTH_NANOS, NANOS_PER_DAY,
};
use core_engine::params::{KiddushLevanaEnd, KiddushLevanaStart};
use core_engine::AbsoluteInstant;

fn at(unix_nanos: i64) -> AbsoluteInstant {
    AbsoluteInstant { unix_nanos }
}

#[test]
fn window_offsets_for_every_knob() {
    let molad = at(1_000_000_000_000_000_000);
    let starts = [
        (KiddushLevanaStart::ThreeDays, 3 * NANOS_PER_DAY),
        (KiddushLevanaStart::SevenDays, 7 * NANOS_PER_DAY),
        (KiddushLevanaStart::Molad, 0),
    ];
    let ends = [
        (KiddushLevanaEnd::HalfMonth, 1_275_721_666_666_667),
        (KiddushLevanaEnd::FifteenDays, 15 * NANOS_PER_DAY),
    ];
    for (s, so) in starts {
        for (e, eo) in ends {
            let (open, close) = kiddush_levana_window(molad, s, e);
            assert_eq!(open.unix_nanos, molad.unix_nanos + so);
            assert_eq!(close.unix_nanos, molad.unix_nanos + eo);
            let span = close.unix_nanos - open.unix_nanos;
            assert!(span > 7 * NANOS_PER_DAY && span <= 15 * NANOS_PER_DAY);
        }
    }
}

#[test]
fn half_month_is_half_a_mean_synodic_month() {
    // 14 days 18 hours 22 minutes 1⅔ seconds, to the nearest nanosecond.
    let exact = 14 * NANOS_PER_DAY + 18 * 3_600_000_000_000 + 22 * 60_000_000_000 + 1_666_666_667;
    assert_eq!(HALF_MONTH_NANOS, exact);
}

#[test]
fn far_future_molad_saturates() {
    let molad = at(i64::MAX - NANOS_PER_DAY);
    let (open, close) =
        kiddush_levana_window(molad, KiddushLevanaStart::ThreeDays, KiddushLevanaEnd::FifteenDays);
    assert_eq!(open.unix_nanos, i64::MAX);
    assert_eq!(close.unix_nanos, i64::MAX);
    let (open, _) =
        kiddush_levana_window(molad, KiddushLevanaStart::Molad, KiddushLevanaEnd::FifteenDays);
    assert_eq!(open, molad);
}

#[test]
fn night_bracket_intersects_window_and_night() {
    let window = (at(100), at(200));
    assert_eq!(window_night_bracket(window, at(150), at(300)), Some((at(150), at(200))));
    assert_eq!(window_night_bracket(window, at(50), at(120)), Some((at(100), at(120))));
    assert_eq!(window_night_bracket(window, at(210), at(300)), None);
    assert_eq!(window_night_bracket(window, at(20), at(100)), None);
}

#[test]
fn window_membership_is_closed() {
    let window = (at(100), at(200));
    assert!(within_window(at(100), window));
    assert!(within_window(at(150), window));
    assert!(within_window(at(200), window));
    assert!(!within_window(at(99), window));
    assert!(!within_window(at(201), window));
}
