//! Equatorial reference systems for sky-position computations.

use vstd::prelude::*;

use crate::error::Error;

verus! {

/// An equatorial reference system for sky-position computations.
///
/// Mirrors the C-side `novas_reference_system`.
#[derive(Debug, Clone, Copy, PartialEq, Eq, Structural)]
#[non_exhaustive]
pub enum ReferenceSystem {
    /// Geocentric Celestial Reference System.
    Gcrs,
    /// True equator and equinox of date.
    Tod,
    /// Celestial Intermediate Reference System.
    Cirs,
    /// International Celestial Reference System.
    Icrs,
    /// Mean equator and equinox of J2000.0.
    J2000,
    /// Mean equator and equinox of date.
    Mod,
    /// Terrestrial Intermediate Reference System (rotates with Earth).
    Tirs,
    /// International Terrestrial Reference System (Earth-fixed).
    Itrs,
}

/// The value of the C enum `novas_reference_system` for each system; the
/// C values are the dense range `0..8`.
pub open spec fn reference_system_code(s: ReferenceSystem) -> u32 {
    match s {
        ReferenceSystem::Gcrs => 0,
        ReferenceSystem::Tod => 1,
        ReferenceSystem::Cirs => 2,
        ReferenceSystem::Icrs => 3,
        ReferenceSystem::J2000 => 4,
        ReferenceSystem::Mod => 5,
        ReferenceSystem::Tirs => 6,
        ReferenceSystem::Itrs => 7,
    }
}

/// The system of a `novas_reference_system` value.
pub open spec fn reference_system_of_code(c: u32) -> ReferenceSystem {
    if c == 0 {
        ReferenceSystem::Gcrs
    } else if c == 1 {
        ReferenceSystem::Tod
    } else if c == 2 {
        ReferenceSystem::Cirs
    } else if c == 3 {
        ReferenceSystem::Icrs
    } else if c == 4 {
        ReferenceSystem::J2000
    } else if c == 5 {
        ReferenceSystem::Mod
    } else if c == 6 {
        ReferenceSystem::Tirs
    } else {
        ReferenceSystem::Itrs
    }
}

impl ReferenceSystem {
    /// The `novas_reference_system` value of this system.
    pub fn to_sys(self) -> (c: u32)
        ensures
            c == reference_system_code(self),
    {
        match self {
            ReferenceSystem::Gcrs => 0,
            ReferenceSystem::Tod => 1,
            ReferenceSystem::Cirs => 2,
            ReferenceSystem::Icrs => 3,
            ReferenceSystem::J2000 => 4,
            ReferenceSystem::Mod => 5,
            ReferenceSystem::Tirs => 6,
            ReferenceSystem::Itrs => 7,
        }
    }

    /// The system that a `novas_reference_system` value stands for (how a
    /// transform reports its source and target systems).
    pub fn from_sys(c: u32) -> (s: ReferenceSystem)
        requires
            c < 8,
        ensures
            s == reference_system_of_code(c),
    {
        if c == 0 {
            ReferenceSystem::Gcrs
        } else if c == 1 {
            ReferenceSystem::Tod
        } else if c == 2 {
            ReferenceSystem::Cirs
        } else if c == 3 {
            ReferenceSystem::Icrs
        } else if c == 4 {
            ReferenceSystem::J2000
        } else if c == 5 {
            ReferenceSystem::Mod
        } else if c == 6 {
            ReferenceSystem::Tirs
        } else {
            ReferenceSystem::Itrs
        }
    }
}

/// Reading a system back from its C value gives the same system.
pub proof fn law_reference_system_round_trip(s: ReferenceSystem)
    ensures
        reference_system_code(s) < 8,
        reference_system_of_code(reference_system_code(s)) == s,
{
}

/// Every C value in the dense range is the value of the system read from it.
pub proof fn law_reference_system_code_round_trip(c: u32)
    requires
        c < 8,
    ensures
        reference_system_code(reference_system_of_code(c)) == c,
{
}

/// The kind of equator an ecliptic conversion is referred to; mirrors the
/// C-side `novas_equator_type`.
#[derive(Debug, Clone, Copy, PartialEq, Eq, Structural)]
pub enum EquatorType {
    /// Mean equator and equinox (MOD, J2000).
    Mean,
    /// True equator and equinox (TOD).
    True,
    /// GCRS / ICRS equator.
    Gcrs,
}

/// The value of the C enum `novas_equator_type` for each equator type.
pub open spec fn equator_type_code(e: EquatorType) -> u32 {
    match e {
        EquatorType::Mean => 0,
        EquatorType::True => 1,
        EquatorType::Gcrs => 2,
    }
}

impl EquatorType {
    /// The `novas_equator_type` value of this equator type.
    pub fn to_sys(self) -> (c: u32)
        ensures
            c == equator_type_code(self),
    {
        match self {
            EquatorType::Mean => 0,
            EquatorType::True => 1,
            EquatorType::Gcrs => 2,
        }
    }
}

/// The equator type that the ecliptic conversions need for a system, if it
/// is a direct candidate: ICRS and GCRS use the GCRS equator, J2000 and MOD
/// the mean equator, TOD the true equator. CIRS, TIRS and ITRS have none.
pub open spec fn equator_type_of(s: ReferenceSystem) -> Option<EquatorType> {
    match s {
        ReferenceSystem::Icrs | ReferenceSystem::Gcrs => Some(EquatorType::Gcrs),
        ReferenceSystem::J2000 | ReferenceSystem::Mod => Some(EquatorType::Mean),
        ReferenceSystem::Tod => Some(EquatorType::True),
        ReferenceSystem::Cirs | ReferenceSystem::Tirs | ReferenceSystem::Itrs => None,
    }
}

/// How an equatorial position in a system reaches the ecliptic: CIRS is first
/// routed through TOD, ITRS and TIRS cannot be converted.
pub open spec fn ecliptic_route_of(s: ReferenceSystem) -> Option<(bool, EquatorType)> {
    match s {
        ReferenceSystem::Cirs => Some((true, EquatorType::True)),
        _ => match equator_type_of(s) {
            Some(e) => Some((false, e)),
            None => None,
        },
    }
}

impl ReferenceSystem {
    /// ICRS-like systems (ICRS, GCRS).
    pub fn is_icrs_like(self) -> (b: bool)
        ensures
            b == (self == ReferenceSystem::Icrs || self == ReferenceSystem::Gcrs),
    {
        matches!(self, ReferenceSystem::Icrs | ReferenceSystem::Gcrs)
    }

    /// Mean-of-date systems (MOD, J2000 - both use the dynamical mean equator).
    pub fn is_mean_of_date(self) -> (b: bool)
        ensures
            b == (self == ReferenceSystem::Mod || self == ReferenceSystem::J2000),
    {
        matches!(self, ReferenceSystem::Mod | ReferenceSystem::J2000)
    }

    /// True-of-date systems (TOD; TIRS uses the true equator too).
    pub fn is_true_of_date(self) -> (b: bool)
        ensures
            b == (self == ReferenceSystem::Tod || self == ReferenceSystem::Tirs),
    {
        matches!(self, ReferenceSystem::Tod | ReferenceSystem::Tirs)
    }

    /// The equator type the ecliptic conversions need for this system, or
    /// `None` if the system isn't a direct candidate.
    pub fn equator_type_for_ecliptic(self) -> (e: Option<EquatorType>)
        ensures
            e == equator_type_of(self),
    {
        match self {
            ReferenceSystem::Icrs | ReferenceSystem::Gcrs => Some(EquatorType::Gcrs),
            ReferenceSystem::J2000 | ReferenceSystem::Mod => Some(EquatorType::Mean),
            ReferenceSystem::Tod => Some(EquatorType::True),
            ReferenceSystem::Cirs | ReferenceSystem::Tirs | ReferenceSystem::Itrs => None,
        }
    }

    /// The route of an equatorial-to-ecliptic conversion from this system:
    /// whether the position is first converted to TOD, and the equator type
    /// of the final step. ITRS and TIRS give [`Error::UnsupportedSystem`].
    pub fn ecliptic_route(self) -> (r: Result<(bool, EquatorType), Error>)
        ensures
            match ecliptic_route_of(self) {
                Some(route) => r == Ok::<(bool, EquatorType), Error>(route),
                None => r matches Err(e) && e is UnsupportedSystem,
            },
    {
        let via_tod = match self {
            ReferenceSystem::Cirs => true,
            ReferenceSystem::Itrs => return Err(Error::UnsupportedSystem),
            _ => false,
        };
        let system = if via_tod {
            ReferenceSystem::Tod
        } else {
            self
        };
        match system.equator_type_for_ecliptic() {
            Some(e) => Ok((via_tod, e)),
            None => Err(Error::UnsupportedSystem),
        }
    }
}

/// The equinox an apparent place in a system carries: its name, its
/// system, and whether it is pinned to the frame's TT date (otherwise it is
/// a fixed equinox at J2000).
pub struct EquinoxLabel {
    /// The equinox's name, e.g. `"ICRS"` or `"TOD"`.
    pub name: &'static str,
    /// The reference system the equinox belongs to.
    pub system: ReferenceSystem,
    /// Whether the equinox is taken at the frame's TT date.
    pub at_frame_date: bool,
}

/// The name of the equinox carried by a place in each system.
pub open spec fn equinox_name_of(s: ReferenceSystem) -> Seq<char> {
    match s {
        ReferenceSystem::Icrs | ReferenceSystem::Gcrs => "ICRS"@,
        ReferenceSystem::J2000 => "J2000"@,
        ReferenceSystem::Mod => "MOD"@,
        ReferenceSystem::Tod => "TOD"@,
        ReferenceSystem::Cirs => "CIRS"@,
        ReferenceSystem::Tirs => "TIRS"@,
        ReferenceSystem::Itrs => "ITRS"@,
    }
}

/// The system of the equinox carried by a place in each system: GCRS
/// places carry the ICRS equinox, every other system its own.
pub open spec fn equinox_system_of(s: ReferenceSystem) -> ReferenceSystem {
    match s {
        ReferenceSystem::Gcrs => ReferenceSystem::Icrs,
        _ => s,
    }
}

/// Whether the equinox carried by a place in each system depends on the
/// frame's date: all but the fixed ICRS and J2000 equinoxes do.
pub open spec fn equinox_dated(s: ReferenceSystem) -> bool {
    !(s == ReferenceSystem::Icrs || s == ReferenceSystem::Gcrs || s == ReferenceSystem::J2000)
}

impl ReferenceSystem {
    /// The equinox that an apparent place in this system carries when it is
    /// viewed as equatorial coordinates: the constant ICRS equinox for ICRS
    /// and GCRS, the constant J2000 equinox for J2000, and an equinox of
    /// the system's own name at the frame's date for MOD, TOD, CIRS, TIRS
    /// and ITRS.
    pub fn apparent_equinox(self) -> (e: EquinoxLabel)
        ensures
            e.name@ == equinox_name_of(self),
            e.system == equinox_system_of(self),
            e.at_frame_date == equinox_dated(self),
    {
        match self {
            ReferenceSystem::Icrs | ReferenceSystem::Gcrs => EquinoxLabel {
                name: "ICRS",
                system: ReferenceSystem::Icrs,
                at_frame_date: false,
            },
            ReferenceSystem::J2000 => EquinoxLabel {
                name: "J2000",
                system: ReferenceSystem::J2000,
                at_frame_date: false,
            },
            ReferenceSystem::Mod => EquinoxLabel {
                name: "MOD",
                system: ReferenceSystem::Mod,
                at_frame_date: true,
            },
            ReferenceSystem::Tod => EquinoxLabel {
                name: "TOD",
                system: ReferenceSystem::Tod,
                at_frame_date: true,
            },
            ReferenceSystem::Cirs => EquinoxLabel {
                name: "CIRS",
                system: ReferenceSystem::Cirs,
                at_frame_date: true,
            },
            ReferenceSystem::Tirs => EquinoxLabel {
                name: "TIRS",
                system: ReferenceSystem::Tirs,
                at_frame_date: true,
            },
            ReferenceSystem::Itrs => EquinoxLabel {
                name: "ITRS",
                system: ReferenceSystem::Itrs,
                at_frame_date: true,
            },
        }
    }
}

/// Viewing an apparent place through its equinox keeps what the ecliptic
/// conversion does with it: the equinox's system takes the same ecliptic
/// route as the place's own system, and re-labeling is idempotent.
pub proof fn law_equinox_keeps_ecliptic_route(s: ReferenceSystem)
    ensures
        ecliptic_route_of(equinox_system_of(s)) == ecliptic_route_of(s),
        equinox_system_of(equinox_system_of(s)) == equinox_system_of(s),
        equinox_dated(equinox_system_of(s)) == equinox_dated(s),
{
}

/// The ecliptic conversions are defined exactly for the systems other than
/// TIRS and ITRS, and a position that is routed through TOD ends on the true
/// equator.
pub proof fn law_ecliptic_route_coverage(s: ReferenceSystem)
    ensures
        ecliptic_route_of(s) is None <==> (s == ReferenceSystem::Tirs || s
            == ReferenceSystem::Itrs),
        ecliptic_route_of(s) matches Some(route) ==> (route.0 <==> s == ReferenceSystem::Cirs),
        ecliptic_route_of(s) matches Some(route) ==> (route.0 ==> route.1 == EquatorType::True),
        equator_type_of(s) is Some ==> ecliptic_route_of(s) == Some((false, equator_type_of(s)->0)),
{
}

/// The equinox a place carries is named after its own system, whatever the
/// place's system: ICRS and GCRS places both carry the equinox named
/// `"ICRS"`, J2000 places `"J2000"`, and so on; and equinoxes of different
/// systems have different names.
pub proof fn law_equinox_named_after_its_system(s: ReferenceSystem, t: ReferenceSystem)
    ensures
        equinox_name_of(s) == equinox_name_of(equinox_system_of(s)),
        equinox_name_of(ReferenceSystem::Icrs) == "ICRS"@,
        equinox_name_of(ReferenceSystem::Gcrs) == "ICRS"@,
        equinox_name_of(ReferenceSystem::J2000) == "J2000"@,
        equinox_name_of(ReferenceSystem::Mod) == "MOD"@,
        equinox_name_of(ReferenceSystem::Tod) == "TOD"@,
        equinox_name_of(ReferenceSystem::Cirs) == "CIRS"@,
        equinox_name_of(ReferenceSystem::Tirs) == "TIRS"@,
        equinox_name_of(ReferenceSystem::Itrs) == "ITRS"@,
        equinox_system_of(s) != equinox_system_of(t) ==> equinox_name_of(s) != equinox_name_of(t),
{
    reveal_strlit("ICRS");
    reveal_strlit("J2000");
    reveal_strlit("MOD");
    reveal_strlit("TOD");
    reveal_strlit("CIRS");
    reveal_strlit("TIRS");
    reveal_strlit("ITRS");
    if equinox_system_of(s) != equinox_system_of(t) {
        let a = equinox_name_of(s);
        let b = equinox_name_of(t);
        assert(a.len() != b.len() || a[0] != b[0] || a[1] != b[1]);
    }
}

} // verus!
