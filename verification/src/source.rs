//! Identifiers of astronomical sources: catalog coordinate systems,
//! major solar-system bodies, and the fixed-size name buffer every C
//! source object carries.

use vstd::prelude::*;
use vstd::string::StringSliceAdditionalSpecFns;

use crate::cstring::{fixed_buffer_bytes, fixed_c_buffer, nul_free};
use crate::error::Error;

verus! {

/// Size of the C name buffer of a catalog entry or source object,
/// terminator included: names must be shorter than this.
pub const OBJECT_NAME_CAPACITY: usize = 50;

/// The NUL-padded name buffer of a source object.
///
/// Fails with [`Error::Parse`] exactly when `name` holds a NUL byte or is
/// 50 bytes or longer.
pub fn object_name_buffer(name: &str) -> (r: Result<Vec<u8>, Error>)
    ensures
        r is Err <==> (!nul_free(name.spec_bytes()) || name.spec_bytes().len() >= 50),
        r matches Err(e) ==> e is Parse,
        r matches Ok(v) ==> v@ == fixed_buffer_bytes(name.spec_bytes(), 50),
{
    fixed_c_buffer(name, OBJECT_NAME_CAPACITY)
}

/// The catalog coordinate system that the source coordinates are expressed in.
#[derive(Debug, Clone, Copy, PartialEq, Eq, Structural)]
pub enum CatalogSystem {
    /// International Celestial Reference System (modern default).
    Icrs,
    /// J2000.0 dynamical reference system.
    J2000,
    /// B1950.0 (FK4 precession).
    B1950,
    /// FK4 catalog system.
    Fk4,
    /// FK5 catalog system.
    Fk5,
}

/// The name under which SuperNOVAS knows each catalog system.
pub open spec fn catalog_system_name(s: CatalogSystem) -> Seq<char> {
    match s {
        CatalogSystem::Icrs => "ICRS"@,
        CatalogSystem::J2000 => "J2000"@,
        CatalogSystem::B1950 => "B1950"@,
        CatalogSystem::Fk4 => "FK4"@,
        CatalogSystem::Fk5 => "FK5"@,
    }
}

impl CatalogSystem {
    /// The system name passed to the C catalog conversion.
    pub fn name(self) -> (s: &'static str)
        ensures
            s@ == catalog_system_name(self),
    {
        match self {
            CatalogSystem::Icrs => "ICRS",
            CatalogSystem::J2000 => "J2000",
            CatalogSystem::B1950 => "B1950",
            CatalogSystem::Fk4 => "FK4",
            CatalogSystem::Fk5 => "FK5",
        }
    }
}

/// Identifies a major solar-system body (planet, Sun, Moon, or barycenter).
#[derive(Debug, Clone, Copy, PartialEq, Eq, Hash, Structural)]
#[non_exhaustive]
pub enum SolarBody {
    Mercury,
    Venus,
    Earth,
    Mars,
    Jupiter,
    Saturn,
    Uranus,
    Neptune,
    Pluto,
    Sun,
    Moon,
    SolarSystemBarycenter,
    EarthMoonBarycenter,
    PlutoBarycenter,
}

/// The value of the C enum `novas_planet` for each body.
pub open spec fn solar_body_code(b: SolarBody) -> u32 {
    match b {
        SolarBody::SolarSystemBarycenter => 0,
        SolarBody::Mercury => 1,
        SolarBody::Venus => 2,
        SolarBody::Earth => 3,
        SolarBody::Mars => 4,
        SolarBody::Jupiter => 5,
        SolarBody::Saturn => 6,
        SolarBody::Uranus => 7,
        SolarBody::Neptune => 8,
        SolarBody::Pluto => 9,
        SolarBody::Sun => 10,
        SolarBody::Moon => 11,
        SolarBody::EarthMoonBarycenter => 12,
        SolarBody::PlutoBarycenter => 13,
    }
}

impl SolarBody {
    /// The `novas_planet` value of this body.
    pub fn to_ffi(self) -> (c: u32)
        ensures
            c == solar_body_code(self),
    {
        match self {
            SolarBody::SolarSystemBarycenter => 0,
            SolarBody::Mercury => 1,
            SolarBody::Venus => 2,
            SolarBody::Earth => 3,
            SolarBody::Mars => 4,
            SolarBody::Jupiter => 5,
            SolarBody::Saturn => 6,
            SolarBody::Uranus => 7,
            SolarBody::Neptune => 8,
            SolarBody::Pluto => 9,
            SolarBody::Sun => 10,
            SolarBody::Moon => 11,
            SolarBody::EarthMoonBarycenter => 12,
            SolarBody::PlutoBarycenter => 13,
        }
    }
}

/// Distinct bodies have distinct C values, all below fourteen.
pub proof fn law_solar_body_codes_distinct(a: SolarBody, b: SolarBody)
    ensures
        solar_body_code(a) < 14,
        solar_body_code(a) == solar_body_code(b) ==> a == b,
{
}

/// Each body selects its own `novas_planet` number: the planets are
/// numbered by their order out from the Sun (Mercury 1 through Pluto 9),
/// followed by the Sun 10 and the Moon 11; the Solar System Barycenter is
/// 0, the Earth-Moon barycenter 12 and the Pluto-system barycenter 13.
pub proof fn law_solar_body_numbers()
    ensures
        solar_body_code(SolarBody::SolarSystemBarycenter) == 0,
        solar_body_code(SolarBody::Mercury) == 1,
        solar_body_code(SolarBody::Venus) == 2,
        solar_body_code(SolarBody::Earth) == 3,
        solar_body_code(SolarBody::Mars) == 4,
        solar_body_code(SolarBody::Jupiter) == 5,
        solar_body_code(SolarBody::Saturn) == 6,
        solar_body_code(SolarBody::Uranus) == 7,
        solar_body_code(SolarBody::Neptune) == 8,
        solar_body_code(SolarBody::Pluto) == 9,
        solar_body_code(SolarBody::Sun) == 10,
        solar_body_code(SolarBody::Moon) == 11,
        solar_body_code(SolarBody::EarthMoonBarycenter) == 12,
        solar_body_code(SolarBody::PlutoBarycenter) == 13,
{
}

} // verus!
