//! Astronomical timescale selector.

use vstd::prelude::*;

verus! {

/// An astronomical timescale.
///
/// Identifies which timescale a Julian date or time interval is expressed in.
#[derive(Debug, Clone, Copy, PartialEq, Eq, Hash, Structural)]
pub enum Timescale {
    /// Barycentric Coordinate Time (TCB).
    Tcb,
    /// Barycentric Dynamical Time (TDB).
    Tdb,
    /// Geocentric Coordinate Time (TCG).
    Tcg,
    /// Terrestrial Time (TT).
    Tt,
    /// International Atomic Time (TAI).
    Tai,
    /// GPS Time.
    Gps,
    /// Universal Coordinated Time (UTC).
    Utc,
    /// UT1 earth rotation time, based on IERS Bulletin A.
    Ut1,
}

/// The value of the C enum `novas_timescale` for each timescale.
pub open spec fn timescale_code(t: Timescale) -> u32 {
    match t {
        Timescale::Tcb => 0,
        Timescale::Tdb => 1,
        Timescale::Tcg => 2,
        Timescale::Tt => 3,
        Timescale::Tai => 4,
        Timescale::Gps => 5,
        Timescale::Utc => 6,
        Timescale::Ut1 => 7,
    }
}

/// The usual abbreviation of each timescale.
pub open spec fn timescale_name(t: Timescale) -> Seq<char> {
    match t {
        Timescale::Tcb => "TCB"@,
        Timescale::Tdb => "TDB"@,
        Timescale::Tcg => "TCG"@,
        Timescale::Tt => "TT"@,
        Timescale::Tai => "TAI"@,
        Timescale::Gps => "GPS"@,
        Timescale::Utc => "UTC"@,
        Timescale::Ut1 => "UT1"@,
    }
}

impl Timescale {
    /// The `novas_timescale` value of this timescale.
    pub fn to_sys(self) -> (c: u32)
        ensures
            c == timescale_code(self),
    {
        match self {
            Timescale::Tcb => 0,
            Timescale::Tdb => 1,
            Timescale::Tcg => 2,
            Timescale::Tt => 3,
            Timescale::Tai => 4,
            Timescale::Gps => 5,
            Timescale::Utc => 6,
            Timescale::Ut1 => 7,
        }
    }

    /// The abbreviation of this timescale, as its `Display` renders it
    /// (`"TCB"`, `"TDB"`, ..., `"UT1"`).
    pub fn name(self) -> (s: String)
        ensures
            s@ == timescale_name(self),
    {
        match self {
            Timescale::Tcb => String::from_str("TCB"),
            Timescale::Tdb => String::from_str("TDB"),
            Timescale::Tcg => String::from_str("TCG"),
            Timescale::Tt => String::from_str("TT"),
            Timescale::Tai => String::from_str("TAI"),
            Timescale::Gps => String::from_str("GPS"),
            Timescale::Utc => String::from_str("UTC"),
            Timescale::Ut1 => String::from_str("UT1"),
        }
    }
}

/// Distinct timescales have distinct C values, all below eight.
pub proof fn law_timescale_codes_distinct(a: Timescale, b: Timescale)
    ensures
        timescale_code(a) < 8,
        timescale_code(a) == timescale_code(b) ==> a == b,
{
}

} // verus!
