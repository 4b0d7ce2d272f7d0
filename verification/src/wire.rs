//! The intake boundary for the two cross-repo artifacts — the **parameter vector** (knobs) and the
//! **horizon profile** (terrain skyline). The integer-keyed CBOR maps are decoded by the
//! application layer into these types; what is checked and resolved here is the contract: the
//! header, the range of every knob discriminant, and the shape of the packed angle array. All
//! numeric wire fields are fixed-point integers.
use vstd::prelude::*;
use crate::optics::{HorizonMode, LimbReference, RefractionModel};
use crate::params::{
    AdarAnniversaryRule, KiddushLevanaEnd, KiddushLevanaStart, Optics, Realm, TalUmatarBasis,
    TekufaMethod,
};

verus! {

/// The contract version this build understands.
pub const SCHEMA_VERSION: u16 = 1;

/// A typed decode failure — never a panic.
#[derive(Clone, Copy, PartialEq, Eq, Debug)]
pub enum DecodeError {
    /// Malformed or non-conforming CBOR (incl. missing required fields).
    Cbor,
    /// `schema_version` not understood by this build.
    Schema,
    /// `engine_selection` is not the owned-primary engine (the only one shipping).
    Engine,
    /// An enum discriminant is out of range for a knob.
    Range,
    /// A knob value names a real spec option this build does not yet implement.
    Unimplemented,
    /// Horizon profile binding metadata `(φ, λ, h)` does not match the site.
    Binding,
}

/// The decoded **parameter vector**. Fields are the raw wire discriminants; the `resolve`
/// methods map them to the engine's typed knobs.
#[derive(Clone, Copy, Debug)]
pub struct ParameterVector {
    /// Contract version (`schema.version`).
    pub schema_version: u16,
    /// Engine selection (`engine.selection`); 0 = owned-primary (only engine shipping).
    pub engine_selection: u8,
    /// Horizon mode: 0 sea-level (Mishor), 1 visible (in-core dip), 2 terrain-profile.
    pub horizon_mode: u8,
    /// Refraction model: 0 standard-atmospheric, 1 meeus-noaa, 2 halachic-fixed-coefficient.
    pub refraction_model: u8,
    /// Fixed refraction coefficient, micro-arcminutes (required only for halachic-fixed).
    pub refraction_coeff_micro: Option<i32>,
    /// Solar position reference: 0 apparent, 1 geometric.
    pub solar_position_reference: u8,
    /// Solar limb reference: 0 upper, 1 center, 2 lower.
    pub solar_limb_reference: u8,
    /// Realm: 0 Eretz-Yisrael, 1 diaspora.
    pub locale_realm: u8,
    /// tal-u-matar basis: 0 tekufa-based, 1 fixed-7-cheshvan.
    pub tal_umatar_basis: u8,
    /// Tekufa method: 0 Shmuel, 1 Rav-Ada.
    pub tekufa_method: u8,
    /// Adar anniversary rule: 0 Adar II, 1 Adar I, 2 both.
    pub adar_anniversary_rule: u8,
    /// Kiddush Levana start: 0 three-days, 1 seven-days, 2 molad.
    pub kiddush_levana_start: u8,
    /// Kiddush Levana end: 0 half-month, 1 fifteen-days.
    pub kiddush_levana_end: u8,
    /// Rounding stringency: 0 lehakel, 1 lehachmir, 2 nearest, 3 truncate.
    pub rounding_stringency: u8,
    /// Rounding granularity: 0 second, 1 minute.
    pub rounding_granularity: u8,
}

/// The header check of a decoded parameter vector: the schema version first, then the engine.
pub open spec fn spec_check_parameter_vector_header(schema_version: int, engine_selection: int) -> Result<(), DecodeError> {
    if schema_version != SCHEMA_VERSION as int {
        Err(DecodeError::Schema)
    } else if engine_selection != 0 {
        Err(DecodeError::Engine)
    } else {
        Ok(())
    }
}

/// Validate the header of a decoded parameter vector: the schema this build understands and the
/// owned-primary engine (the only one shipping). Typed error otherwise.
pub fn check_parameter_vector(pv: ParameterVector) -> (checked: Result<ParameterVector, DecodeError>)
    ensures
        checked matches Ok(v) ==> v == pv && spec_check_parameter_vector_header(
            pv.schema_version as int,
            pv.engine_selection as int,
        ) is Ok,
        checked matches Err(e) ==> spec_check_parameter_vector_header(
            pv.schema_version as int,
            pv.engine_selection as int,
        ) == Err::<(), DecodeError>(e),
{
    if pv.schema_version != SCHEMA_VERSION {
        return Err(DecodeError::Schema);
    }
    if pv.engine_selection != 0 {
        return Err(DecodeError::Engine);
    }
    Ok(pv)
}

/// The horizon mode a wire discriminant names.
pub open spec fn spec_horizon_mode(code: int) -> Option<HorizonMode> {
    if code == 0 {
        Some(HorizonMode::Mishor)
    } else if code == 1 {
        Some(HorizonMode::Visible)
    } else if code == 2 {
        Some(HorizonMode::TerrainProfile)
    } else {
        None
    }
}

/// The optics a parameter vector resolves to: an out-of-range horizon mode is a range error; the
/// standard-atmospheric refraction model gives Bennett on the horizon and airless depression
/// reads with the upper limb; meeus-noaa and halachic-fixed are unimplemented; anything else is
/// out of range.
pub open spec fn spec_resolve_optics(horizon_mode: int, refraction_model: int) -> Result<Optics, DecodeError> {
    match spec_horizon_mode(horizon_mode) {
        None => Err(DecodeError::Range),
        Some(mode) => if refraction_model == 0 {
            Ok(
                Optics {
                    horizon_refraction: RefractionModel::Bennett,
                    depression_refraction: RefractionModel::NoRefraction,
                    horizon_mode: mode,
                    limb: LimbReference::Upper,
                },
            )
        } else if refraction_model == 1 || refraction_model == 2 {
            Err(DecodeError::Unimplemented)
        } else {
            Err(DecodeError::Range)
        },
    }
}

/// The realm a wire discriminant names.
pub open spec fn spec_realm(code: int) -> Result<Realm, DecodeError> {
    if code == 0 {
        Ok(Realm::EretzYisrael)
    } else if code == 1 {
        Ok(Realm::Diaspora)
    } else {
        Err(DecodeError::Range)
    }
}

/// The tal-u-matar basis a wire discriminant names.
pub open spec fn spec_tal_umatar_basis(code: int) -> Result<TalUmatarBasis, DecodeError> {
    if code == 0 {
        Ok(TalUmatarBasis::TekufaBased)
    } else if code == 1 {
        Ok(TalUmatarBasis::Fixed7Cheshvan)
    } else {
        Err(DecodeError::Range)
    }
}

/// The tekufa method a wire discriminant names.
pub open spec fn spec_tekufa_method(code: int) -> Result<TekufaMethod, DecodeError> {
    if code == 0 {
        Ok(TekufaMethod::Shmuel)
    } else if code == 1 {
        Ok(TekufaMethod::RavAda)
    } else {
        Err(DecodeError::Range)
    }
}

/// The Adar anniversary rule a wire discriminant names.
pub open spec fn spec_adar_anniversary_rule(code: int) -> Result<AdarAnniversaryRule, DecodeError> {
    if code == 0 {
        Ok(AdarAnniversaryRule::AdarII)
    } else if code == 1 {
        Ok(AdarAnniversaryRule::AdarI)
    } else if code == 2 {
        Ok(AdarAnniversaryRule::Both)
    } else {
        Err(DecodeError::Range)
    }
}

/// The Kiddush Levana window knobs the two wire discriminants name (start checked first).
pub open spec fn spec_kiddush_levana(start: int, end: int) -> Result<(KiddushLevanaStart, KiddushLevanaEnd), DecodeError> {
    if start > 2 || end > 1 {
        Err(DecodeError::Range)
    } else {
        Ok(
            (
                if start == 0 {
                    KiddushLevanaStart::ThreeDays
                } else if start == 1 {
                    KiddushLevanaStart::SevenDays
                } else {
                    KiddushLevanaStart::Molad
                },
                if end == 0 {
                    KiddushLevanaEnd::HalfMonth
                } else {
                    KiddushLevanaEnd::FifteenDays
                },
            ),
        )
    }
}

impl ParameterVector {
    /// Resolve the optics sub-vector: `standard-atmospheric` → apparent horizon (Bennett) +
    /// geometric depression; `meeus-noaa` and `halachic-fixed-coefficient` are real spec options
    /// the engine does not yet implement → `Unimplemented` (not silently substituted).
    pub fn resolve_optics(&self) -> (optics: Result<Optics, DecodeError>)
        ensures
            optics == spec_resolve_optics(self.horizon_mode as int, self.refraction_model as int),
    {
        let horizon_mode = match self.horizon_mode {
            0 => HorizonMode::Mishor,
            1 => HorizonMode::Visible,
            2 => HorizonMode::TerrainProfile,
            _ => return Err(DecodeError::Range),
        };
        let (horizon_refraction, depression_refraction) = match self.refraction_model {
            0 => (RefractionModel::Bennett, RefractionModel::NoRefraction),
            1 | 2 => return Err(DecodeError::Unimplemented),
            _ => return Err(DecodeError::Range),
        };
        Ok(Optics { horizon_refraction, depression_refraction, horizon_mode, limb: LimbReference::Upper })
    }

    /// Realm (the Yom Tov Sheni and tal-u-matar gate).
    pub fn realm(&self) -> (realm: Result<Realm, DecodeError>)
        ensures
            realm == spec_realm(self.locale_realm as int),
    {
        match self.locale_realm {
            0 => Ok(Realm::EretzYisrael),
            1 => Ok(Realm::Diaspora),
            _ => Err(DecodeError::Range),
        }
    }

    /// tal-u-matar basis.
    pub fn tal_umatar_basis(&self) -> (basis: Result<TalUmatarBasis, DecodeError>)
        ensures
            basis == spec_tal_umatar_basis(self.tal_umatar_basis as int),
    {
        match self.tal_umatar_basis {
            0 => Ok(TalUmatarBasis::TekufaBased),
            1 => Ok(TalUmatarBasis::Fixed7Cheshvan),
            _ => Err(DecodeError::Range),
        }
    }

    /// Tekufa method.
    pub fn tekufa_method(&self) -> (method: Result<TekufaMethod, DecodeError>)
        ensures
            method == spec_tekufa_method(self.tekufa_method as int),
    {
        match self.tekufa_method {
            0 => Ok(TekufaMethod::Shmuel),
            1 => Ok(TekufaMethod::RavAda),
            _ => Err(DecodeError::Range),
        }
    }

    /// Adar anniversary rule.
    pub fn adar_anniversary_rule(&self) -> (rule: Result<AdarAnniversaryRule, DecodeError>)
        ensures
            rule == spec_adar_anniversary_rule(self.adar_anniversary_rule as int),
    {
        match self.adar_anniversary_rule {
            0 => Ok(AdarAnniversaryRule::AdarII),
            1 => Ok(AdarAnniversaryRule::AdarI),
            2 => Ok(AdarAnniversaryRule::Both),
            _ => Err(DecodeError::Range),
        }
    }

    /// Kiddush Levana window knobs.
    pub fn kiddush_levana(&self) -> (knobs: Result<(KiddushLevanaStart, KiddushLevanaEnd), DecodeError>)
        ensures
            knobs == spec_kiddush_levana(self.kiddush_levana_start as int, self.kiddush_levana_end as int),
    {
        let start = match self.kiddush_levana_start {
            0 => KiddushLevanaStart::ThreeDays,
            1 => KiddushLevanaStart::SevenDays,
            2 => KiddushLevanaStart::Molad,
            _ => return Err(DecodeError::Range),
        };
        let end = match self.kiddush_levana_end {
            0 => KiddushLevanaEnd::HalfMonth,
            1 => KiddushLevanaEnd::FifteenDays,
            _ => return Err(DecodeError::Range),
        };
        Ok((start, end))
    }

    /// Validate the currently-fixed-behaviour knobs: the upper-limb reference (0) and the apparent
    /// solar position (0) are baked into the engine, so any other value names behaviour the
    /// engine does not yet vary — `Unimplemented`, surfaced rather than silently ignored.
    pub fn check_fixed_behaviour(&self) -> (checked: Result<(), DecodeError>)
        ensures
            checked == (if self.solar_limb_reference != 0 || self.solar_position_reference != 0 {
                Err(DecodeError::Unimplemented)
            } else {
                Ok(())
            }),
    {
        if self.solar_limb_reference != 0 {
            return Err(DecodeError::Unimplemented);
        }
        if self.solar_position_reference != 0 {
            return Err(DecodeError::Unimplemented);
        }
        Ok(())
    }
}

/// The decoded **horizon profile**: binding metadata and a packed azimuth→angle array of
/// little-endian `i32` **milliarcminutes**, evenly spaced over `[0°, 360°)`, borrowed from the
/// input bytes.
#[derive(Clone, Copy, Debug)]
pub struct HorizonProfile<'b> {
    /// Bound latitude, microdegrees (north-positive).
    pub lat_microdeg: i32,
    /// Bound longitude, microdegrees (east-positive).
    pub lon_microdeg: i32,
    /// Bound elevation, millimetres.
    pub elev_mm: i32,
    /// DEM source id — a registered enum, not a string.
    pub dem_source: u16,
    /// DEM dataset version.
    pub dem_version: u32,
    /// Refraction model used at provisioning (0/1/2 as in the parameter vector).
    pub prov_refraction_model: u8,
    /// Fixed refraction coefficient used at provisioning, micro-arcminutes.
    pub prov_refraction_coeff_micro: Option<i32>,
    /// Packed azimuth→horizon-angle array: little-endian `i32` milliarcminutes, `len % 4 == 0`.
    pub angles_mam: &'b [u8],
}

/// The shape check of a decoded horizon profile: the provisioning refraction model in range, then
/// a non-empty, 4-byte-aligned angle array.
pub open spec fn spec_check_horizon_profile(prov_refraction_model: int, angles_len: int) -> Result<(), DecodeError> {
    if prov_refraction_model > 2 {
        Err(DecodeError::Range)
    } else if angles_len == 0 || angles_len % 4 != 0 {
        Err(DecodeError::Cbor)
    } else {
        Ok(())
    }
}

/// Validate a decoded horizon profile: `prov_refraction_model` in range and a non-empty
/// 4-byte-aligned angle array; typed error otherwise.
pub fn check_horizon_profile<'b>(hp: HorizonProfile<'b>) -> (checked: Result<HorizonProfile<'b>, DecodeError>)
    ensures
        checked matches Ok(v) ==> v == hp && spec_check_horizon_profile(
            hp.prov_refraction_model as int,
            hp.angles_mam@.len() as int,
        ) is Ok,
        checked matches Err(e) ==> spec_check_horizon_profile(
            hp.prov_refraction_model as int,
            hp.angles_mam@.len() as int,
        ) == Err::<(), DecodeError>(e),
{
    if hp.prov_refraction_model > 2 {
        return Err(DecodeError::Range);
    }
    if hp.angles_mam.len() == 0 || hp.angles_mam.len() % 4 != 0 {
        return Err(DecodeError::Cbor);
    }
    Ok(hp)
}

/// The two's-complement value of four little-endian bytes.
pub open spec fn spec_le_i32(b0: int, b1: int, b2: int, b3: int) -> int {
    let u = b0 + 256 * b1 + 65_536 * b2 + 16_777_216 * b3;
    if u < 0x8000_0000 {
        u
    } else {
        u - 0x1_0000_0000
    }
}

impl<'b> HorizonProfile<'b> {
    /// Number of azimuth samples.
    pub fn sample_count(&self) -> (n: usize)
        ensures
            n == self.angles_mam@.len() / 4,
    {
        self.angles_mam.len() / 4
    }

    /// Angle sample `i`, in milliarcminutes.
    pub fn angle_mam(&self, i: usize) -> (mam: i32)
        requires
            4 * i + 4 <= self.angles_mam@.len(),
        ensures
            mam == spec_le_i32(
                self.angles_mam@[4 * i] as int,
                self.angles_mam@[4 * i + 1] as int,
                self.angles_mam@[4 * i + 2] as int,
                self.angles_mam@[4 * i + 3] as int,
            ),
    {
        proof {
            assert(self.angles_mam.len() == self.angles_mam@.len());
        }
        let o = i * 4;
        let u: u32 = self.angles_mam[o] as u32 + self.angles_mam[o + 1] as u32 * 256
            + self.angles_mam[o + 2] as u32 * 65_536 + self.angles_mam[o + 3] as u32 * 16_777_216;
        if u < 0x8000_0000 {
            u as i32
        } else {
            (u - 0x8000_0000) as i32 + i32::MIN
        }
    }
}

} // verus!
