//! **Daf Yomi** (Talmud Bavli) — the daily-page learning cycle: exactly one daf per civil day,
//! `DAF_YOMI_CYCLE_DAYS` days per cycle, anchored at the 14th-cycle epoch (2020-01-05 = Berachos 2).
//! Returns the masechta index and daf, not a name.
use vstd::prelude::*;
use crate::calendar::{fixed_from_gregorian, spec_fixed_from_gregorian, RataDie};

verus! {

/// Days in one Bavli daf-yomi cycle (the sum of the per-masechta day counts).
pub const DAF_YOMI_CYCLE_DAYS: i64 = 2711;

/// Last daf of each masechta, in daf-yomi cycle order (index 0..39). Each masechta is learned from
/// daf 2 to this value, so it occupies `last - 1` days.
pub const MASECHTA_LAST_DAF: [u16; 40] = [
    64, 157, 105, 121, 22, 88, 56, 40, 35, 31, 32, 29, 27, 122, 112, 91, 66, 49, 90, 82, 119, 119,
    176, 113, 24, 49, 76, 14, 120, 110, 142, 61, 34, 34, 28, 22, 4, 9, 5, 73,
];

/// A daf-yomi page: the masechta index (0..39, cycle order) and the displayed daf number.
#[derive(Clone, Copy, PartialEq, Eq, Debug)]
pub struct DafYomi {
    /// Masechta index in daf-yomi cycle order (0 = Berachos … 39 = Niddah).
    pub masechta: u8,
    /// Displayed daf number (≥ 2; Kinnim/Tamid/Middos continue Meilah's pagination).
    pub daf: u16,
}

/// Days of the cycle spent on masechtos `0 .. i`.
pub open spec fn spec_days_before_masechta(i: int) -> int
    decreases i,
{
    if i <= 0 {
        0
    } else {
        spec_days_before_masechta(i - 1) + MASECHTA_LAST_DAF[i - 1] as int - 1
    }
}

/// Kinnim, Tamid and Middos continue Meilah's Vilna pagination: their displayed daf is shifted.
pub open spec fn spec_display_shift(i: int) -> int {
    if i == 36 {
        21
    } else if i == 37 {
        24
    } else if i == 38 {
        32
    } else {
        0
    }
}

/// Day of the current cycle on which `rd` falls (0-based, periodic in both directions).
pub open spec fn spec_day_of_cycle(rd: int) -> int {
    (rd - spec_fixed_from_gregorian(2020, 1, 5)) % 2711
}

/// The masechta days add up to the cycle: 2711 days over the forty masechtos.
pub proof fn lemma_day_counts_sum_to_cycle_length()
    ensures
        spec_days_before_masechta(40) == DAF_YOMI_CYCLE_DAYS,
{
    reveal_with_fuel(spec_days_before_masechta, 41);
}

/// The cycle repeats: a day and the day a whole cycle later are on the same day of the cycle, and
/// every day of the cycle falls in exactly one masechta.
pub proof fn lemma_daf_yomi_periodic(rd: int)
    ensures
        spec_day_of_cycle(rd + 2711) == spec_day_of_cycle(rd),
        0 <= spec_day_of_cycle(rd) < spec_days_before_masechta(40),
{
    lemma_day_counts_sum_to_cycle_length();
    vstd::arithmetic::div_mod::lemma_mod_add_multiples_vanish(rd - spec_fixed_from_gregorian(2020, 1, 5), 2711);
}

/// The Bavli daf-yomi page for the civil day `rd`. Deterministic, integer-only.
pub fn daf_yomi(rd: RataDie) -> (page: DafYomi)
    requires
        rd.0 >= i64::MIN + 737_429,
    ensures
        page.masechta < 40,
        spec_days_before_masechta(page.masechta as int) <= spec_day_of_cycle(rd.0 as int)
            < spec_days_before_masechta(page.masechta + 1),
        page.daf == spec_day_of_cycle(rd.0 as int) - spec_days_before_masechta(page.masechta as int) + 2
            + spec_display_shift(page.masechta as int),
{
    let epoch = fixed_from_gregorian(2020, 1, 5).0;
    assert(epoch == 737_429);
    let mut n = match (rd.0 - epoch).checked_rem_euclid(DAF_YOMI_CYCLE_DAYS) {
        Some(r) => r,
        None => 0,
    };
    let ghost n0 = n as int;
    proof {
        lemma_day_counts_sum_to_cycle_length();
    }
    let mut i = 0usize;
    while i < MASECHTA_LAST_DAF.len()
        invariant
            0 <= i <= 40,
            n0 == spec_day_of_cycle(rd.0 as int),
            0 <= n0 < 2711,
            n0 == spec_days_before_masechta(i as int) + n,
            0 <= n,
            spec_days_before_masechta(40) == 2711,
        decreases 40 - i,
    {
        let days = MASECHTA_LAST_DAF[i] as i64 - 1;
        if n < days {
            let display_shift: u16 = match i {
                36 => 21,
                37 => 24,
                38 => 32,
                _ => 0,
            };
            return DafYomi { masechta: i as u8, daf: n as u16 + 2 + display_shift };
        }
        n -= days;
        i += 1;
    }
    DafYomi { masechta: 39, daf: 73 }
}

} // verus!
