//! The optics knobs: the refraction model, the horizon convention and the limb that defines the
//! rise/set event. The refraction and dip arithmetic on these knobs is floating point and runs in
//! the application layer.
use vstd::prelude::*;

verus! {

/// Atmospheric-refraction model. `NoRefraction` = airless geometry (the depression-shita default).
#[derive(Clone, Copy, PartialEq, Eq, Debug)]
pub enum RefractionModel {
    /// No refraction (airless geometry) — the depression-shita default.
    NoRefraction,
    /// Saemundsson (1986): refraction as a function of true/geometric altitude.
    Saemundsson,
    /// Bennett (1982): refraction as a function of apparent altitude.
    Bennett,
}

/// Halachic horizon convention: sea-level (mishor) vs visible (elevation dip) vs the provisioned
/// terrain skyline.
#[derive(Clone, Copy, PartialEq, Eq, Debug)]
pub enum HorizonMode {
    /// Idealized sea-level horizon — elevation ignored.
    Mishor,
    /// Visible horizon — geometric dip from observer elevation.
    Visible,
    /// Terrain skyline composed from a provisioned `(azimuth→angle)` profile.
    TerrainProfile,
}

/// Which edge of the sun's disc defines the rise/set event — the netz-definition dispute.
#[derive(Clone, Copy, PartialEq, Eq, Debug)]
pub enum LimbReference {
    /// Upper limb tangent to the horizon — the sun first appears (default).
    Upper,
    /// Disc centre at the horizon.
    Center,
    /// Lower limb tangent — the whole disc has risen (end of ascent).
    Lower,
}

impl Default for LimbReference {
    /// The upper limb: the sun first appears.
    fn default() -> (limb: Self)
        ensures
            limb == LimbReference::Upper,
    {
        LimbReference::Upper
    }
}

} // verus!
