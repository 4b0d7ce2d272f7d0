//! Laws of the day-level calendar: weekdays advance one per day, the day classification's flags
//! follow their rules, the festival identities and the classification never drift apart, the
//! Nine Days lie within the Three Weeks, the omer spans 16 Nisan to 5 Sivan, an anniversary is a
//! real date of its target year, Pesach and 10 Tevet keep to their weekdays, only Yom Kippur is a
//! fast on Shabbat, erev is the eve of Shabbat or Yom Tov, and the Israeli national days keep their
//! order and fall Monday to Thursday, the Yom Tov days by realm, Purim in the last Adar, and an
//! anniversary keeping its date.
use vstd::prelude::*;
use super::{
    spec_anniversary_month, spec_classify_day, spec_fast_observed, spec_fixed_from_hebrew,
    spec_hebrew_new_year, spec_in_span, spec_is_hebrew_leap, spec_last_day_of_month,
    spec_last_month_of_year, spec_long_marcheshvan, spec_moed_of, spec_omer_day, spec_short_kislev,
    spec_valid_hebrew, spec_yahrzeit, Moed, spec_month_days, spec_days_before_month,
};
use super::{
    spec_hebrew_date_of, spec_hebrew_year_length, spec_israeli_national_day, spec_yom_hashoah_observed,
    spec_yom_hazikaron_observed, IsraeliDay,
};
use super::date_laws::{
    lemma_date_in_its_year, lemma_date_of_its_day, lemma_fixed_from_hebrew_injective,
    lemma_month_days_bounded, lemma_month_days_monotone, lemma_successor_date, spec_next_hebrew_date,
};
use super::year_length::{lemma_months_fill_year, lemma_new_year_weekday, lemma_year_length_permitted};
use crate::params::{AdarAnniversaryRule, Realm};

verus! {

/// The weekday advances by one each day, cyclically, and is always 0..=6.
pub proof fn lemma_weekday_advances(rd: int)
    ensures
        0 <= rd % 7 <= 6,
        (rd + 1) % 7 == (rd % 7 + 1) % 7,
{
}

/// The classification's flags follow their rules: Shabbat exactly on the seventh weekday, Rosh
/// Chodesh on the 30th and on the 1st of every month but Tishrei, Chol HaMoed only in Nisan and
/// Tishrei.
pub proof fn lemma_classify_day_invariants(y: int, m: int, d: int, realm: Realm)
    ensures
        spec_classify_day(y, m, d, realm).shabbat == (spec_fixed_from_hebrew(y, m, d) % 7 == 6),
        spec_classify_day(y, m, d, realm).rosh_chodesh == (d == 30 || (d == 1 && m != 7)),
        spec_classify_day(y, m, d, realm).chol_hamoed ==> m == 1 || m == 7,
        spec_classify_day(y, m, d, realm).yom_tov ==> m == 1 || m == 3 || m == 7,
{
}

/// The chag identities of [`Moed`].
pub open spec fn is_chag(moed: Option<Moed>) -> bool {
    moed == Some(Moed::RoshHashana) || moed == Some(Moed::YomKippur) || moed == Some(Moed::Sukkos)
        || moed == Some(Moed::ShminiAtzeres) || moed == Some(Moed::SimchasTorah) || moed == Some(
        Moed::Pesach,
    ) || moed == Some(Moed::Shavuos)
}

/// The Chol HaMoed identities of [`Moed`] (Hoshana Rabba is the last day of Chol HaMoed Sukkos).
pub open spec fn is_chol_hamoed_day(moed: Option<Moed>) -> bool {
    moed == Some(Moed::CholHamoedSukkos) || moed == Some(Moed::CholHamoedPesach) || moed == Some(
        Moed::HoshanaRabba,
    )
}

/// The fast identities of [`Moed`] (Yom Kippur is a fast too).
pub open spec fn is_fast(moed: Option<Moed>) -> bool {
    moed == Some(Moed::YomKippur) || moed == Some(Moed::TzomGedaliah) || moed == Some(
        Moed::AsaraBeteves,
    ) || moed == Some(Moed::TaanisEsther) || moed == Some(Moed::TzomTammuz) || moed == Some(
        Moed::TishaBav,
    )
}

/// The real date `(y, m, d)` falls on the observed day of the fast nominally on `(fm, fd)`:
/// it is that date or the date the deferral moves it to.
proof fn lemma_on_observed_fast(y: int, m: int, d: int, fm: int, fd: int, forward: bool)
    requires
        spec_valid_hebrew(y, m, d),
        spec_valid_hebrew(y, fm, fd),
        forward ==> spec_valid_hebrew(y, fm, fd + 1),
        !forward ==> spec_valid_hebrew(y, fm, fd - 2),
        spec_fixed_from_hebrew(y, m, d) == spec_fast_observed(y, fm, fd, forward),
    ensures
        m == fm,
        d == fd || (forward && d == fd + 1) || (!forward && d == fd - 2),
{
    let base = spec_fixed_from_hebrew(y, fm, fd);
    if base % 7 == 6 {
        if forward {
            assert(spec_fixed_from_hebrew(y, fm, fd + 1) == base + 1);
            lemma_fixed_from_hebrew_injective(y, m, d, y, fm, fd + 1);
        } else {
            assert(spec_fixed_from_hebrew(y, fm, fd - 2) == base - 2);
            lemma_fixed_from_hebrew_injective(y, m, d, y, fm, fd - 2);
        }
    } else {
        lemma_fixed_from_hebrew_injective(y, m, d, y, fm, fd);
    }
}

/// The festival identities and the day classification never drift apart: a real date is a Yom
/// Tov exactly when its identity is a chag, is Chol HaMoed exactly when its identity is a Chol
/// HaMoed day, and is a fast day exactly when its identity is a fast.
pub proof fn lemma_moed_agrees_with_classification(y: int, m: int, d: int, realm: Realm)
    requires
        spec_valid_hebrew(y, m, d),
    ensures
        spec_classify_day(y, m, d, realm).yom_tov <==> is_chag(spec_moed_of(y, m, d, realm)),
        spec_classify_day(y, m, d, realm).chol_hamoed <==> is_chol_hamoed_day(spec_moed_of(y, m, d, realm)),
        spec_classify_day(y, m, d, realm).fast_day <==> is_fast(spec_moed_of(y, m, d, realm)),
{
    let rd = spec_fixed_from_hebrew(y, m, d);
    let last = spec_last_month_of_year(y);
    let c = spec_classify_day(y, m, d, realm);
    let moed = spec_moed_of(y, m, d, realm);
    assert(spec_last_day_of_month(y, 7) == 30);
    assert(spec_last_day_of_month(y, 4) == 29);
    assert(spec_last_day_of_month(y, 5) == 30);
    assert(spec_last_day_of_month(y, 10) == 29);
    assert(spec_last_day_of_month(y, last) >= 29);
    if rd == spec_fast_observed(y, 7, 3, true) {
        lemma_on_observed_fast(y, m, d, 7, 3, true);
    }
    if rd == spec_fixed_from_hebrew(y, 10, 10) {
        lemma_fixed_from_hebrew_injective(y, m, d, y, 10, 10);
    }
    if rd == spec_fast_observed(y, last, 13, false) {
        lemma_on_observed_fast(y, m, d, last, 13, false);
    }
    if rd == spec_fast_observed(y, 4, 17, true) {
        lemma_on_observed_fast(y, m, d, 4, 17, true);
    }
    if rd == spec_fast_observed(y, 5, 9, true) {
        lemma_on_observed_fast(y, m, d, 5, 9, true);
    }
    let tisha_bav = spec_fast_observed(y, 5, 9, true);
    if rd == tisha_bav - 1 {
        let base = spec_fixed_from_hebrew(y, 5, 9);
        if base % 7 == 6 {
            assert(spec_fixed_from_hebrew(y, 5, 9) == tisha_bav - 1);
            lemma_fixed_from_hebrew_injective(y, m, d, y, 5, 9);
        } else {
            assert(spec_fixed_from_hebrew(y, 5, 8) == tisha_bav - 1);
            lemma_fixed_from_hebrew_injective(y, m, d, y, 5, 8);
        }
    }
}

/// The Nine Days lie within the Three Weeks.
pub proof fn lemma_nine_days_within_three_weeks(y: int, m: int, d: int)
    ensures
        spec_in_span(y, m, d, 5, 1, 5, 9) ==> spec_in_span(y, m, d, 4, 17, 5, 9),
{
    assert(spec_fixed_from_hebrew(y, 4, 17) < spec_fixed_from_hebrew(y, 5, 1));
}

/// In every year the omer counts day 1 on 16 Nisan and day 49 on 5 Sivan, and is over on
/// Shavuot.
pub proof fn lemma_omer_span(y: int)
    ensures
        spec_omer_day(y, 1, 16) == Some(1int),
        spec_omer_day(y, 3, 5) == Some(49int),
        spec_omer_day(y, 3, 6) is None,
        spec_omer_day(y, 1, 15) is None,
{
    assert(spec_month_days(y, 1, 3) == 59) by {
        reveal_with_fuel(spec_month_days, 3);
    }
    assert(spec_days_before_month(y, 3) == spec_days_before_month(y, 1) + 59);
}

/// An anniversary of a real date is a real date of the target year: the anniversary month exists
/// in the target year and the day is clamped into it.
pub proof fn lemma_yahrzeit_in_target_year(dy: int, dm: int, dd: int, target_year: int, rule: AdarAnniversaryRule)
    requires
        1 <= dm <= 13,
        1 <= dd <= 30,
    ensures
        spec_hebrew_new_year(target_year) <= spec_yahrzeit(dy, dm, dd, target_year, rule)
            < spec_hebrew_new_year(target_year + 1),
{
    let ty = target_year;
    if dm == 8 && dd == 30 && !spec_long_marcheshvan(ty) {
        assert(spec_fixed_from_hebrew(ty, 9, 1) - 1 == spec_fixed_from_hebrew(ty, 8, 29));
        lemma_date_in_its_year(ty, 8, 29);
    } else if dm == 9 && dd == 30 && spec_short_kislev(ty) {
        assert(spec_fixed_from_hebrew(ty, 10, 1) - 1 == spec_fixed_from_hebrew(ty, 9, 29));
        lemma_date_in_its_year(ty, 9, 29);
    } else {
        let month = spec_anniversary_month(dm, dy, ty, rule);
        let last = spec_last_day_of_month(ty, month);
        let day = if dd < last { dd } else { last };
        assert(1 <= month <= spec_last_month_of_year(ty));
        lemma_date_in_its_year(ty, month, day);
    }
}

/// Nisan through Elul hold 177 days in every year.
proof fn lemma_nisan_to_elul(y: int)
    ensures
        spec_month_days(y, 1, 7) == 177,
{
    assert(spec_month_days(y, 1, 1) == 0);
    assert(spec_month_days(y, 1, 2) == 30);
    assert(spec_month_days(y, 1, 3) == 59);
    assert(spec_month_days(y, 1, 4) == 89);
    assert(spec_month_days(y, 1, 5) == 118);
    assert(spec_month_days(y, 1, 6) == 148);
}

/// 15 Nisan is 163 days before the next Rosh Hashanah.
proof fn lemma_pesach_to_new_year(y: int)
    ensures
        spec_hebrew_new_year(y + 1) == spec_fixed_from_hebrew(y, 1, 15) + 163,
        spec_fixed_from_hebrew(y + 1, 7, 1) == spec_hebrew_new_year(y + 1),
{
    lemma_months_fill_year(y);
    lemma_nisan_to_elul(y);
    assert(spec_month_days(y + 1, 7, 7) == 0);
    assert(spec_month_days(y, 1, 1) == 0);
}

/// A day `k` days before a day whose weekday is `w` has weekday `(w − k) mod 7`.
proof fn lemma_weekday_back(later: int, earlier: int, k: int)
    requires
        later == earlier + k,
    ensures
        earlier % 7 == ((later % 7) - (k % 7) + 7) % 7,
{
    vstd::arithmetic::div_mod::lemma_fundamental_div_mod(later, 7);
    vstd::arithmetic::div_mod::lemma_fundamental_div_mod(earlier, 7);
    vstd::arithmetic::div_mod::lemma_fundamental_div_mod(k, 7);
    vstd::arithmetic::div_mod::lemma_mod_bound(later, 7);
    vstd::arithmetic::div_mod::lemma_mod_bound(earlier, 7);
    vstd::arithmetic::div_mod::lemma_mod_bound(k, 7);
    let q = (later % 7) - (k % 7) + 7;
    vstd::arithmetic::div_mod::lemma_fundamental_div_mod(q, 7);
    vstd::arithmetic::div_mod::lemma_mod_bound(q, 7);
}

/// Lo BaDU Pesach: 15 Nisan is 163 days (23 weeks and 2 days) before the next Rosh Hashanah, so
/// it falls only on Sunday, Tuesday, Thursday or Shabbat (weekdays 0, 2, 4, 6).
pub proof fn lemma_pesach_weekday(y: int)
    ensures
        spec_fixed_from_hebrew(y + 1, 7, 1) == spec_fixed_from_hebrew(y, 1, 15) + 163,
        spec_fixed_from_hebrew(y, 1, 15) % 7 == 0 || spec_fixed_from_hebrew(y, 1, 15) % 7 == 2
            || spec_fixed_from_hebrew(y, 1, 15) % 7 == 4 || spec_fixed_from_hebrew(y, 1, 15) % 7 == 6,
{
    lemma_pesach_to_new_year(y);
    lemma_new_year_weekday(y + 1);
    lemma_weekday_back(spec_hebrew_new_year(y + 1), spec_fixed_from_hebrew(y, 1, 15), 163);
}

/// Tishrei, Cheshvan and Kislev hold 88, 89 or 90 days as the year is deficient, regular or
/// complete.
proof fn lemma_days_before_tevet(y: int)
    ensures
        ({
            let len = spec_hebrew_year_length(y);
            let before = spec_days_before_month(y, 10);
            &&& (len == 353 || len == 383) ==> before == 88
            &&& (len == 354 || len == 384) ==> before == 89
            &&& (len == 355 || len == 385) ==> before == 90
        }),
{
    assert(spec_month_days(y, 7, 7) == 0);
    assert(spec_month_days(y, 7, 8) == 30);
    assert(spec_month_days(y, 7, 9) == 30 + spec_last_day_of_month(y, 8));
    assert(spec_month_days(y, 7, 10) == 30 + spec_last_day_of_month(y, 8) + spec_last_day_of_month(y, 9));
}

/// The weekday arithmetic of 10 Tevet: from a Rosh Hashanah and its successor off Sunday,
/// Wednesday and Friday, and 10 Tevet 97, 98 or 99 days after Rosh Hashanah as the year is
/// deficient, regular or complete, 10 Tevet is not on Shabbat.
proof fn lemma_tevet_arith(ny: int, len: int, t: int)
    requires
        ny % 7 != 0 && ny % 7 != 3 && ny % 7 != 5,
        (ny + len) % 7 != 0 && (ny + len) % 7 != 3 && (ny + len) % 7 != 5,
        len == 353 || len == 354 || len == 355 || len == 383 || len == 384 || len == 385,
        (len == 353 || len == 383) ==> t == ny + 97,
        (len == 354 || len == 384) ==> t == ny + 98,
        (len == 355 || len == 385) ==> t == ny + 99,
    ensures
        t % 7 != 6,
{
    vstd::arithmetic::div_mod::lemma_fundamental_div_mod(ny, 7);
    vstd::arithmetic::div_mod::lemma_mod_bound(ny, 7);
    let q = ny / 7;
    let r = ny % 7;
    assert((ny + len) % 7 == (r + len) % 7) by {
        vstd::arithmetic::div_mod::lemma_mod_add_multiples_vanish(r + len, 7);
        vstd::arithmetic::div_mod::lemma_mod_multiples_vanish(q, r + len, 7);
    }
    assert(t % 7 == (r + (t - ny)) % 7) by {
        vstd::arithmetic::div_mod::lemma_mod_multiples_vanish(q, r + (t - ny), 7);
    }
}

/// 10 Tevet never falls on Shabbat: a year that begins on Shabbat is never a regular one (its
/// successor would begin on Wednesday or Friday), which is the one way the fast could land there.
pub proof fn lemma_tevet_fast_weekday(y: int)
    ensures
        spec_fixed_from_hebrew(y, 10, 10) % 7 != 6,
{
    lemma_year_length_permitted(y);
    lemma_new_year_weekday(y);
    lemma_new_year_weekday(y + 1);
    lemma_days_before_tevet(y);
    lemma_tevet_arith(spec_hebrew_new_year(y), spec_hebrew_year_length(y), spec_fixed_from_hebrew(y, 10, 10));
}

/// A fast observed with the Shabbat shift is never observed on Shabbat.
proof fn lemma_observed_fast_not_shabbat(y: int, m: int, d: int, defer_forward: bool)
    ensures
        spec_fast_observed(y, m, d, defer_forward) % 7 != 6,
{
    let base = spec_fixed_from_hebrew(y, m, d);
    vstd::arithmetic::div_mod::lemma_fundamental_div_mod(base, 7);
    vstd::arithmetic::div_mod::lemma_fundamental_div_mod(spec_fast_observed(y, m, d, defer_forward), 7);
}

/// Only Yom Kippur is a fast on Shabbat: every other public fast is observed off Shabbat (Tzom
/// Gedaliah, 17 Tammuz and Tisha b'Av deferred to Sunday, Ta'anit Esther advanced to Thursday, and
/// 10 Tevet never on Shabbat).
pub proof fn lemma_only_yom_kippur_fasts_on_shabbat(y: int, m: int, d: int, realm: Realm)
    requires
        spec_valid_hebrew(y, m, d),
    ensures
        spec_classify_day(y, m, d, realm).fast_day && spec_classify_day(y, m, d, realm).shabbat
            ==> m == 7 && d == 10,
{
    lemma_tevet_fast_weekday(y);
    lemma_observed_fast_not_shabbat(y, 7, 3, true);
    lemma_observed_fast_not_shabbat(y, spec_last_month_of_year(y), 13, false);
    lemma_observed_fast_not_shabbat(y, 4, 17, true);
    lemma_observed_fast_not_shabbat(y, 5, 9, true);
    let c = spec_classify_day(y, m, d, realm);
    let rd = spec_fixed_from_hebrew(y, m, d);
    assert(c.shabbat == (rd % 7 == 6));
    assert(c.fast_day == super::spec_is_fast_day(y, m, d, rd));
}

/// A day is erev exactly when the next day is Shabbat or, by the next day's own date and
/// classification, a Yom Tov; and the next day's date is the successor of this one.
pub proof fn lemma_erev_is_eve_of_shabbat_or_yom_tov(y: int, m: int, d: int, realm: Realm)
    requires
        spec_valid_hebrew(y, m, d),
    ensures
        ({
            let rd = spec_fixed_from_hebrew(y, m, d);
            let n = spec_hebrew_date_of(rd + 1);
            &&& n == spec_next_hebrew_date(y, m, d)
            &&& spec_classify_day(y, m, d, realm).erev == ((rd + 1) % 7 == 6 || spec_classify_day(
                n.0,
                n.1,
                n.2,
                realm,
            ).yom_tov)
        }),
{
    lemma_successor_date(y, m, d);
    let n = spec_next_hebrew_date(y, m, d);
    lemma_date_of_its_day(n.0, n.1, n.2);
}

/// Day numbers of Nisan and Iyar counted from 15 Nisan: `(y, 1, k)` is `k − 15` days after it and
/// `(y, 2, k)` is `k + 15` days after it.
proof fn lemma_nisan_iyar_from_pesach(y: int)
    ensures
        forall|k: int| #[trigger] spec_fixed_from_hebrew(y, 1, k) == spec_fixed_from_hebrew(y, 1, 15) + k - 15,
        forall|k: int| #[trigger] spec_fixed_from_hebrew(y, 2, k) == spec_fixed_from_hebrew(y, 1, 15) + k + 15,
{
    assert(spec_month_days(y, 1, 1) == 0);
    assert(spec_month_days(y, 1, 2) == 30);
    assert(spec_days_before_month(y, 2) == spec_days_before_month(y, 1) + 30);
}

/// The weekday arithmetic of the observed national days, from 15 Nisan on Sunday, Tuesday,
/// Thursday or Shabbat (`p`): Yom HaShoah from 27 Nisan (`p + 12`) and Yom HaZikaron from 4 Iyar
/// (`p + 19`) land Monday to Thursday, and so does the day after Yom HaZikaron.
proof fn lemma_israeli_weekday_arith(p: int, shoah: int, zikaron: int)
    requires
        p % 7 == 0 || p % 7 == 2 || p % 7 == 4 || p % 7 == 6,
        shoah == (if (p + 12) % 7 == 5 {
            p + 11
        } else if (p + 12) % 7 == 0 {
            p + 13
        } else {
            p + 12
        }),
        zikaron == (if (p + 19) % 7 == 4 {
            p + 18
        } else if (p + 19) % 7 == 5 {
            p + 17
        } else if (p + 19) % 7 == 0 {
            p + 20
        } else {
            p + 19
        }),
    ensures
        1 <= shoah % 7 <= 4,
        1 <= zikaron % 7 <= 4,
        1 <= (zikaron + 1) % 7 <= 4,
        p + 11 <= shoah <= p + 13,
        p + 17 <= zikaron <= p + 20,
{
    vstd::arithmetic::div_mod::lemma_fundamental_div_mod(p, 7);
    let q = p / 7;
    let r = p % 7;
    assert forall|c: int| #![trigger (p + c) % 7] (p + c) % 7 == (r + c) % 7 by {
        vstd::arithmetic::div_mod::lemma_mod_multiples_vanish(q, r + c, 7);
    }
    assert((p + 11) % 7 == (r + 11) % 7);
    assert((p + 12) % 7 == (r + 12) % 7);
    assert((p + 13) % 7 == (r + 13) % 7);
    assert((p + 17) % 7 == (r + 17) % 7);
    assert((p + 18) % 7 == (r + 18) % 7);
    assert((p + 19) % 7 == (r + 19) % 7);
    assert((p + 20) % 7 == (r + 20) % 7);
    assert((p + 21) % 7 == (r + 21) % 7);
}

/// The observed Yom HaShoah and Yom HaZikaron of year `y`, placed against 15 Nisan.
proof fn lemma_israeli_anchors(y: int)
    ensures
        ({
            let p = spec_fixed_from_hebrew(y, 1, 15);
            let shoah = spec_yom_hashoah_observed(y);
            let zikaron = spec_yom_hazikaron_observed(y);
            &&& 1 <= shoah % 7 <= 4
            &&& 1 <= zikaron % 7 <= 4
            &&& 1 <= (zikaron + 1) % 7 <= 4
            &&& p + 11 <= shoah <= p + 13
            &&& p + 17 <= zikaron <= p + 20
            &&& spec_fixed_from_hebrew(y, 2, 28) == p + 43
            &&& forall|k: int| #[trigger] spec_fixed_from_hebrew(y, 2, k) == p + k + 15
        }),
{
    lemma_pesach_weekday(y);
    lemma_nisan_iyar_from_pesach(y);
    let p = spec_fixed_from_hebrew(y, 1, 15);
    assert(spec_fixed_from_hebrew(y, 1, 27) == p + 12);
    assert(spec_fixed_from_hebrew(y, 2, 4) == p + 19);
    assert(spec_fixed_from_hebrew(y, 2, 28) == p + 43);
    lemma_israeli_weekday_arith(p, spec_yom_hashoah_observed(y), spec_yom_hazikaron_observed(y));
}

/// The Israeli national days keep their order and their weekdays: Yom HaShoah, Yom HaZikaron and
/// Yom HaAtzmaut are observed only Monday to Thursday, the day after Yom HaZikaron is Yom
/// HaAtzmaut, and Yom Yerushalayim is 28 Iyar.
pub proof fn lemma_israeli_days(y: int, m: int, d: int)
    requires
        spec_valid_hebrew(y, m, d),
    ensures
        ({
            let rd = spec_fixed_from_hebrew(y, m, d);
            let k = spec_israeli_national_day(y, m, d);
            let n = spec_hebrew_date_of(rd + 1);
            &&& k == Some(IsraeliDay::YomHaZikaron) ==> spec_israeli_national_day(n.0, n.1, n.2)
                == Some(IsraeliDay::YomHaAtzmaut)
            &&& (k == Some(IsraeliDay::YomHaShoah) || k == Some(IsraeliDay::YomHaZikaron) || k == Some(
                IsraeliDay::YomHaAtzmaut,
            )) ==> 1 <= rd % 7 <= 4
        }),
        spec_israeli_national_day(y, 2, 28) == Some(IsraeliDay::YomYerushalayim),
{
    lemma_israeli_anchors(y);
    let p = spec_fixed_from_hebrew(y, 1, 15);
    let zikaron = spec_yom_hazikaron_observed(y);
    if spec_israeli_national_day(y, m, d) == Some(IsraeliDay::YomHaZikaron) {
        let k = zikaron - p - 15;
        assert(spec_fixed_from_hebrew(y, 2, k) == zikaron);
        assert(spec_fixed_from_hebrew(y, 2, k + 1) == zikaron + 1);
        lemma_fixed_from_hebrew_injective(y, m, d, y, 2, k);
        lemma_date_of_its_day(y, 2, k + 1);
    }
}

/// The Yom Tov days: both days of Rosh Hashanah, Yom Kippur, the first day of Sukkot, Shmini
/// Atzeret, the first and seventh days of Pesach and Shavuot in every realm; the second days of
/// Sukkot, Pesach and Shavuot, Simchat Torah and the eighth day of Pesach in the diaspora only; and
/// no other day. Both days of Rosh Hashanah are the festival Rosh Hashanah in every realm.
pub proof fn lemma_yom_tov_days(y: int, realm: Realm)
    ensures
        spec_classify_day(y, 7, 1, realm).yom_tov,
        spec_classify_day(y, 7, 2, realm).yom_tov,
        spec_classify_day(y, 7, 10, realm).yom_tov,
        spec_classify_day(y, 7, 15, realm).yom_tov,
        spec_classify_day(y, 7, 22, realm).yom_tov,
        spec_classify_day(y, 1, 15, realm).yom_tov,
        spec_classify_day(y, 1, 21, realm).yom_tov,
        spec_classify_day(y, 3, 6, realm).yom_tov,
        spec_classify_day(y, 7, 16, realm).yom_tov == (realm == Realm::Diaspora),
        spec_classify_day(y, 7, 23, realm).yom_tov == (realm == Realm::Diaspora),
        spec_classify_day(y, 1, 16, realm).yom_tov == (realm == Realm::Diaspora),
        spec_classify_day(y, 1, 22, realm).yom_tov == (realm == Realm::Diaspora),
        spec_classify_day(y, 3, 7, realm).yom_tov == (realm == Realm::Diaspora),
        forall|m: int, d: int|
            #![trigger spec_classify_day(y, m, d, realm)]
            spec_classify_day(y, m, d, realm).yom_tov ==> (m == 7 && (d == 1 || d == 2 || d == 10 || d == 15
                || d == 16 || d == 22 || d == 23)) || (m == 1 && (d == 15 || d == 16 || d == 21 || d == 22))
                || (m == 3 && (d == 6 || d == 7)),
        spec_moed_of(y, 7, 1, realm) == Some(Moed::RoshHashana),
        spec_moed_of(y, 7, 2, realm) == Some(Moed::RoshHashana),
{
}

/// Purim is the 14th, and Shushan Purim the 15th, of the last month of the year — Adar, or Adar
/// II in a leap year — in every realm; in a leap year the 14th and 15th of Adar I are neither.
pub proof fn lemma_purim_in_last_adar(y: int, realm: Realm)
    ensures
        spec_moed_of(y, spec_last_month_of_year(y), 14, realm) == Some(Moed::Purim),
        spec_moed_of(y, spec_last_month_of_year(y), 15, realm) == Some(Moed::ShushanPurim),
        spec_is_hebrew_leap(y) ==> spec_moed_of(y, 12, 14, realm) != Some(Moed::Purim),
        spec_is_hebrew_leap(y) ==> spec_moed_of(y, 12, 15, realm) != Some(Moed::ShushanPurim),
{
    let last = spec_last_month_of_year(y);
    lemma_month_days_monotone(y, 7, 9, last);
    lemma_month_days_bounded(y, 7, 9);
    lemma_month_days_bounded(y, 1, 4);
    lemma_month_days_bounded(y, 1, 5);
    let ml = spec_month_days(y, 7, last);
    assert(spec_month_days(y, 7, last + 1) == ml + spec_last_day_of_month(y, last));
    assert(spec_days_before_month(y, last) == ml);
    assert(spec_days_before_month(y, 7) == 0) by {
        assert(spec_month_days(y, 7, 7) == 0);
    }
    assert(spec_days_before_month(y, 9) == spec_month_days(y, 7, 9));
    assert(spec_days_before_month(y, 4) >= ml + 29);
    assert(spec_days_before_month(y, 5) >= ml + 29);
}

/// Anniversaries keep their date where the target year has it: a death on the 1st–29th of a month
/// is remembered on the same day of the same month when the death year and the target year are
/// both leap or both common, and for every month before Adar in any years; a common-year Adar
/// observed in a leap year goes to Adar II (Adar I under that rule); Adar II observed in a common
/// year goes to Adar.
pub proof fn lemma_yahrzeit_keeps_the_date(dy: int, dm: int, dd: int, ty: int, rule: AdarAnniversaryRule)
    requires
        spec_valid_hebrew(dy, dm, dd),
        dd <= 29,
    ensures
        spec_is_hebrew_leap(dy) == spec_is_hebrew_leap(ty) ==> spec_yahrzeit(dy, dm, dd, ty, rule)
            == spec_fixed_from_hebrew(ty, dm, dd),
        dm <= 11 ==> spec_yahrzeit(dy, dm, dd, ty, rule) == spec_fixed_from_hebrew(ty, dm, dd),
        dm == 12 && !spec_is_hebrew_leap(dy) && spec_is_hebrew_leap(ty) ==> spec_yahrzeit(dy, dm, dd, ty, rule)
            == spec_fixed_from_hebrew(ty, if rule == AdarAnniversaryRule::AdarI { 12int } else { 13int }, dd),
        dm == 13 && !spec_is_hebrew_leap(ty) ==> spec_yahrzeit(dy, dm, dd, ty, rule) == spec_fixed_from_hebrew(
            ty,
            12,
            dd,
        ),
{
}

} // verus!
