//! The parameter vector as types: every halachic convention is an explicit, inspectable knob, and
//! the core resolves none of them.
use vstd::prelude::*;
use crate::optics::{HorizonMode, LimbReference, RefractionModel};

verus! {

/// Rounding stringency direction (halachic l'kula / l'chumra), composed with a read's
/// [`ObligationSense`] so the per-zman direction is derived, never hard-coded.
#[derive(Clone, Copy, PartialEq, Eq, Debug)]
pub enum Stringency {
    /// Lenient.
    Lehakel,
    /// Stringent.
    Lehachmir,
    /// Nearest.
    Nearest,
}

/// For a yahrzeit/anniversary that fell in Adar of a common year, which Adar to observe in a
/// **leap** year.
#[derive(Clone, Copy, PartialEq, Eq, Debug)]
pub enum AdarAnniversaryRule {
    /// Adar II (Rema / most poskim) — the default.
    AdarII,
    /// Adar I.
    AdarI,
    /// Both (dual observance; the single-date API uses Adar II).
    Both,
}

/// When the Kiddush Levana window *opens* relative to the molad.
#[derive(Clone, Copy, PartialEq, Eq, Debug)]
pub enum KiddushLevanaStart {
    /// 3 days (72 h) after the molad — Rema / common Ashkenaz. **Default.**
    ThreeDays,
    /// 7 days after the molad — many Sephardim / AriZal.
    SevenDays,
    /// From the molad moment itself (no waiting period).
    Molad,
}

/// When the Kiddush Levana window *closes* relative to the molad.
#[derive(Clone, Copy, PartialEq, Eq, Debug)]
pub enum KiddushLevanaEnd {
    /// Half a mean lunar month after the molad (14d 18h 22m) — Rema. **Default.**
    HalfMonth,
    /// 15 full days after the molad.
    FifteenDays,
}

/// Israel vs diaspora: a provisioned input, never derived by the core. Gates Yom Tov Sheni and
/// the tal-u-matar basis.
#[derive(Clone, Copy, PartialEq, Eq, Debug)]
pub enum Realm {
    /// Eretz Yisrael — one festival day; tal-u-matar fixed at 7 Cheshvan.
    EretzYisrael,
    /// Diaspora — Yom Tov Sheni shel Galuyot; tal-u-matar = 60th day after Tekufat Tishrei.
    Diaspora,
}

/// Which rule starts *tal u-matar* / *she'elat geshamim*.
#[derive(Clone, Copy, PartialEq, Eq, Debug)]
pub enum TalUmatarBasis {
    /// 60th day after (the chosen method's) Tekufat Tishrei — the diaspora rule.
    TekufaBased,
    /// Fixed 7 Cheshvan — the Eretz-Yisrael rule.
    Fixed7Cheshvan,
}

/// Which arithmetic tekufa construct to use. Both are pure calendar arithmetic, not astronomy.
#[derive(Clone, Copy, PartialEq, Eq, Debug)]
pub enum TekufaMethod {
    /// Shmuel: solar year = 365¼ d exactly (Julian); season = 91d 7h 30m. The tal-u-matar default.
    Shmuel,
    /// Rav Ada bar Ahava: solar year = the 19-year Metonic mean (235 synodic months / 19).
    RavAda,
}

/// Whether a zman *opens* or *closes* an obligation — drives stringent rounding direction.
#[derive(Clone, Copy, PartialEq, Eq, Debug)]
pub enum ObligationSense {
    /// Begins an obligation (stringent → round later).
    Opens,
    /// Ends an obligation (stringent → round earlier).
    Closes,
    /// Neither.
    Neutral,
}

/// The optics sub-vector consumed by the solar reads.
#[derive(Clone, Copy, PartialEq, Eq, Debug)]
pub struct Optics {
    /// Refraction model for the **horizon** event (netz/shkia).
    pub horizon_refraction: RefractionModel,
    /// Refraction model for **depression** shitot. Default `None` (geometric — classical/halachic).
    pub depression_refraction: RefractionModel,
    /// Sea-level vs visible vs terrain horizon.
    pub horizon_mode: HorizonMode,
    /// Which solar limb defines netz/shkia. Default `Upper` (the sun first appears).
    pub limb: LimbReference,
}

impl Default for Optics {
    /// The ratified defaults: apparent horizon (Bennett + visible dip), geometric depression,
    /// upper limb. A community/posek may override any of these knobs.
    fn default() -> (optics: Self)
        ensures
            optics == (Optics {
                horizon_refraction: RefractionModel::Bennett,
                depression_refraction: RefractionModel::NoRefraction,
                horizon_mode: HorizonMode::Visible,
                limb: LimbReference::Upper,
            }),
    {
        Optics {
            horizon_refraction: RefractionModel::Bennett,
            depression_refraction: RefractionModel::NoRefraction,
            horizon_mode: HorizonMode::Visible,
            limb: LimbReference::Upper,
        }
    }
}

} // verus!
