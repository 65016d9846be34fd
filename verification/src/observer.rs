//! Where a frame's observer is placed, and which operations each place
//! supports.

use vstd::prelude::*;

use crate::error::Error;

verus! {

/// The kind of place a frame's observer occupies, in the order of the C
/// library's `novas_observer_place` enum.
#[derive(Debug, Clone, Copy, PartialEq, Eq, Structural)]
pub enum ObserverPlace {
    /// At the center of the Earth.
    AtGeocenter,
    /// At a fixed site on the Earth's surface.
    OnEarth,
    /// In orbit around the Earth.
    InEarthOrbit,
    /// Airborne, moving relative to the Earth's surface.
    Airborne,
    /// Elsewhere in the solar system.
    SolarSystem,
}

/// The C enum value of each place.
pub open spec fn observer_place_code(p: ObserverPlace) -> u32 {
    match p {
        ObserverPlace::AtGeocenter => 0,
        ObserverPlace::OnEarth => 1,
        ObserverPlace::InEarthOrbit => 2,
        ObserverPlace::Airborne => 3,
        ObserverPlace::SolarSystem => 4,
    }
}

/// The place of each C enum value (`c < 5`).
pub open spec fn observer_place_of_code(c: u32) -> ObserverPlace {
    if c == 0 {
        ObserverPlace::AtGeocenter
    } else if c == 1 {
        ObserverPlace::OnEarth
    } else if c == 2 {
        ObserverPlace::InEarthOrbit
    } else if c == 3 {
        ObserverPlace::Airborne
    } else {
        ObserverPlace::SolarSystem
    }
}

/// Whether an observer at `p` has a local horizon and a local sidereal
/// time: one on the Earth's surface or flying above it.
pub open spec fn has_local_meridian(p: ObserverPlace) -> bool {
    p == ObserverPlace::OnEarth || p == ObserverPlace::Airborne
}

impl ObserverPlace {
    /// The C enum value of this place.
    pub fn to_sys(self) -> (c: u32)
        ensures
            c == observer_place_code(self),
    {
        match self {
            ObserverPlace::AtGeocenter => 0,
            ObserverPlace::OnEarth => 1,
            ObserverPlace::InEarthOrbit => 2,
            ObserverPlace::Airborne => 3,
            ObserverPlace::SolarSystem => 4,
        }
    }

    /// The place of a C enum value.
    pub fn from_sys(c: u32) -> (p: ObserverPlace)
        requires
            c < 5,
        ensures
            p == observer_place_of_code(c),
    {
        if c == 0 {
            ObserverPlace::AtGeocenter
        } else if c == 1 {
            ObserverPlace::OnEarth
        } else if c == 2 {
            ObserverPlace::InEarthOrbit
        } else if c == 3 {
            ObserverPlace::Airborne
        } else {
            ObserverPlace::SolarSystem
        }
    }

    /// Admits only an observer at a fixed site on the Earth's surface, as
    /// the horizontal <-> apparent and horizontal <-> ITRS conversions and
    /// the site's GCRS position and velocity need; any other place gives
    /// [`Error::UnsupportedObserver`].
    pub fn require_on_surface(self) -> (r: Result<(), Error>)
        ensures
            r is Ok <==> self == ObserverPlace::OnEarth,
            r matches Err(e) ==> e is UnsupportedObserver,
    {
        match self {
            ObserverPlace::OnEarth => Ok(()),
            _ => Err(Error::UnsupportedObserver),
        }
    }

    /// Admits only an observer with a local sidereal time (on the Earth's
    /// surface or airborne); any other place gives
    /// [`Error::UnsupportedObserver`].
    pub fn require_local_meridian(self) -> (r: Result<(), Error>)
        ensures
            r is Ok <==> has_local_meridian(self),
            r matches Err(e) ==> e is UnsupportedObserver,
    {
        match self {
            ObserverPlace::OnEarth | ObserverPlace::Airborne => Ok(()),
            _ => Err(Error::UnsupportedObserver),
        }
    }
}

/// Each place has its own C value, and a value read back gives the place.
pub proof fn law_observer_place_round_trip(p: ObserverPlace)
    ensures
        observer_place_code(p) < 5,
        observer_place_of_code(observer_place_code(p)) == p,
{
}

/// Every operation that needs a surface site also has a local sidereal
/// time available: an observer that passes the surface check passes the
/// sidereal-time check; a geocentric observer passes neither.
pub proof fn law_surface_observer_has_meridian(p: ObserverPlace)
    ensures
        p == ObserverPlace::OnEarth ==> has_local_meridian(p),
        p == ObserverPlace::AtGeocenter ==> !has_local_meridian(p),
{
}

} // verus!
