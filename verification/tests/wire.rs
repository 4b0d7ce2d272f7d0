use core_engine::optics::{HorizonMode, LimbReference, RefractionModel};
use core_engine::params::{
    AdarAnniversaryRule, KiddushLevanaEnd, KiddushLevanaStart, Optics, Realm, TalUmatarBasis,
    TekufaMethod,
};
use core_engine::wire::{
    check_horizon_profile, check_parameter_vector, DecodeError, HorizonProfile, ParameterVector,
    SCHEMA_VERSION,
};

fn valid_pv() -> ParameterVector {
    ParameterVector {
        schema_version: SCHEMA_VERSION,
        engine_selection: 0,
        horizon_mode: 2,
        refraction_model: 0,
        refraction_coeff_micro: None,
        solar_position_reference: 0,
        solar_limb_reference: 0,
        locale_realm: 1,
        tal_umatar_basis: 0,
        tekufa_method: 0,
        adar_anniversary_rule: 0,
        kiddush_levana_start: 0,
        kiddush_levana_end: 0,
        rounding_stringency: 2,
        rounding_granularity: 1,
    }
}

#[test]
fn parameter_vector_resolves_to_the_engine_knobs() {
    let pv = check_parameter_vector(valid_pv()).expect("header ok");
    let optics = pv.resolve_optics().expect("resolve optics");
    assert_eq!(optics.horizon_mode, HorizonMode::TerrainProfile);
    assert_eq!(optics.horizon_refraction, RefractionModel::Bennett);
    assert_eq!(optics.depression_refraction, RefractionModel::NoRefraction);
    assert_eq!(optics.limb, LimbReference::Upper);
    assert_eq!(pv.realm().unwrap(), Realm::Diaspora);
    assert_eq!(pv.tal_umatar_basis().unwrap(), TalUmatarBasis::TekufaBased);
    assert_eq!(pv.tekufa_method().unwrap(), TekufaMethod::Shmuel);
    assert_eq!(pv.adar_anniversary_rule().unwrap(), AdarAnniversaryRule::AdarII);
    assert_eq!(pv.kiddush_levana().unwrap(), (KiddushLevanaStart::ThreeDays, KiddushLevanaEnd::HalfMonth));
    pv.check_fixed_behaviour().expect("upper-limb + apparent are the engine defaults");
}

#[test]
fn parameter_vector_header_errors() {
    let mut pv = valid_pv();
    pv.schema_version = 999;
    assert_eq!(check_parameter_vector(pv).unwrap_err(), DecodeError::Schema);
    let mut pv = valid_pv();
    pv.engine_selection = 7;
    assert_eq!(check_parameter_vector(pv).unwrap_err(), DecodeError::Engine);
    // The schema is checked before the engine.
    pv.schema_version = 2;
    assert_eq!(check_parameter_vector(pv).unwrap_err(), DecodeError::Schema);
}

#[test]
fn parameter_vector_range_and_unimplemented_knobs() {
    let mut pv = valid_pv();
    pv.refraction_model = 1;
    assert_eq!(pv.resolve_optics().unwrap_err(), DecodeError::Unimplemented);
    pv.refraction_model = 2;
    assert_eq!(pv.resolve_optics().unwrap_err(), DecodeError::Unimplemented);
    pv.refraction_model = 3;
    assert_eq!(pv.resolve_optics().unwrap_err(), DecodeError::Range);
    let mut pv = valid_pv();
    pv.horizon_mode = 3;
    assert_eq!(pv.resolve_optics().unwrap_err(), DecodeError::Range);
    pv.horizon_mode = 0;
    assert_eq!(pv.resolve_optics().unwrap().horizon_mode, HorizonMode::Mishor);
    let mut pv = valid_pv();
    pv.solar_limb_reference = 1;
    assert_eq!(pv.check_fixed_behaviour().unwrap_err(), DecodeError::Unimplemented);
    let mut pv = valid_pv();
    pv.solar_position_reference = 1;
    assert_eq!(pv.check_fixed_behaviour().unwrap_err(), DecodeError::Unimplemented);
    let mut pv = valid_pv();
    pv.locale_realm = 0;
    pv.tal_umatar_basis = 1;
    pv.tekufa_method = 1;
    pv.adar_anniversary_rule = 1;
    pv.kiddush_levana_start = 2;
    pv.kiddush_levana_end = 1;
    assert_eq!(pv.realm().unwrap(), Realm::EretzYisrael);
    assert_eq!(pv.tal_umatar_basis().unwrap(), TalUmatarBasis::Fixed7Cheshvan);
    assert_eq!(pv.tekufa_method().unwrap(), TekufaMethod::RavAda);
    assert_eq!(pv.adar_anniversary_rule().unwrap(), AdarAnniversaryRule::AdarI);
    assert_eq!(pv.kiddush_levana().unwrap(), (KiddushLevanaStart::Molad, KiddushLevanaEnd::FifteenDays));
    pv.locale_realm = 2;
    pv.tal_umatar_basis = 2;
    pv.tekufa_method = 2;
    pv.adar_anniversary_rule = 3;
    pv.kiddush_levana_end = 2;
    assert_eq!(pv.realm().unwrap_err(), DecodeError::Range);
    assert_eq!(pv.tal_umatar_basis().unwrap_err(), DecodeError::Range);
    assert_eq!(pv.tekufa_method().unwrap_err(), DecodeError::Range);
    assert_eq!(pv.adar_anniversary_rule().unwrap_err(), DecodeError::Range);
    assert_eq!(pv.kiddush_levana().unwrap_err(), DecodeError::Range);
}

#[test]
fn optics_defaults() {
    let o = Optics::default();
    assert_eq!(o.horizon_refraction, RefractionModel::Bennett);
    assert_eq!(o.depression_refraction, RefractionModel::NoRefraction);
    assert_eq!(o.horizon_mode, HorizonMode::Visible);
    assert_eq!(o.limb, LimbReference::Upper);
    assert_eq!(LimbReference::default(), LimbReference::Upper);
}

fn profile(angles: &[u8], model: u8) -> HorizonProfile<'_> {
    HorizonProfile {
        lat_microdeg: 31_778_000,
        lon_microdeg: 35_235_400,
        elev_mm: 754_000,
        dem_source: 1,
        dem_version: 2026,
        prov_refraction_model: model,
        prov_refraction_coeff_micro: None,
        angles_mam: angles,
    }
}

#[test]
fn horizon_profile_shape_and_samples() {
    let mut bytes = Vec::new();
    for v in [0i32, 6000, 12000, -6000] {
        bytes.extend_from_slice(&v.to_le_bytes());
    }
    let hp = check_horizon_profile(profile(&bytes, 0)).expect("well-formed profile");
    assert_eq!(hp.sample_count(), 4);
    assert_eq!(hp.angle_mam(0), 0);
    assert_eq!(hp.angle_mam(1), 6000);
    assert_eq!(hp.angle_mam(2), 12000);
    assert_eq!(hp.angle_mam(3), -6000);
    assert_eq!(check_horizon_profile(profile(&bytes, 3)).unwrap_err(), DecodeError::Range);
    assert_eq!(check_horizon_profile(profile(&bytes[..15], 0)).unwrap_err(), DecodeError::Cbor);
    assert_eq!(check_horizon_profile(profile(&[], 0)).unwrap_err(), DecodeError::Cbor);
}
