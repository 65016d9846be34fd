//! Atmospheric refraction models.

use vstd::prelude::*;

verus! {

/// Atmospheric refraction model used when converting between apparent
/// equatorial and horizontal coordinates.
///
/// All models are most accurate well above the horizon (roughly above 5
/// degrees of elevation).
#[derive(Debug, Clone, Copy, PartialEq, Eq, Structural)]
#[non_exhaustive]
pub enum Refraction {
    /// No refraction correction; the result is the geometric direction.
    NoRefraction,
    /// SuperNOVAS' standard-atmosphere model, independent of site weather.
    Standard,
    /// Optical-wavelength refraction using the site temperature and pressure.
    Optical,
    /// Radio-wavelength refraction (Berman & Rockwell 1976) using the site
    /// weather, humidity included.
    Radio,
}

impl Default for Refraction {
    /// No refraction.
    fn default() -> (r: Refraction)
        ensures
            r == Refraction::NoRefraction,
    {
        Refraction::NoRefraction
    }
}

impl Refraction {
    /// Whether this model applies a correction at all (only `NoRefraction` does not).
    pub fn has_model(self) -> (b: bool)
        ensures
            b == (self != Refraction::NoRefraction),
    {
        !matches!(self, Refraction::NoRefraction)
    }
}

} // verus!
