//! Planetary ephemeris providers: the provider trait, the [`Ephemeris`]
//! wrapper that installs one, and the ANISE-backed provider.
//!
//! Installing a provider registers C callbacks with SuperNOVAS; that
//! registration is done by the embedding program. This module holds what
//! decides the outcome of opening and installing an ephemeris and what the
//! ANISE callbacks answer.

use vstd::prelude::*;

use anise::almanac::Almanac;
use anise::errors::AlmanacError;

use crate::error::{
    Error, ProviderErrorSlot, i32_to_decimal, int_decimal, nat_decimal, set_provider_error,
    u64_to_decimal,
};

verus! {

/// A planetary ephemeris backend that can be installed as the
/// process-global SuperNOVAS planet provider.
pub trait EphemerisProvider: Sized + Send + 'static {
    /// Install this provider as the process-global SuperNOVAS planet source.
    fn install(self) -> Result<(), Error>;
}

/// A loaded planetary ephemeris, ready to install as the process-global
/// SuperNOVAS planet provider.
pub struct Ephemeris<P> {
    provider: P,
}

impl<P: EphemerisProvider> Ephemeris<P> {
    /// The provider this ephemeris installs.
    pub closed spec fn provider(self) -> P {
        self.provider
    }

    /// Wrap any [`EphemerisProvider`] in an [`Ephemeris`].
    pub fn from_provider(provider: P) -> (e: Ephemeris<P>)
        ensures
            e.provider() == provider,
    {
        Ephemeris { provider }
    }

    /// Install the wrapped provider as the process-global SuperNOVAS
    /// planet provider, answering what the provider's own `install` answers.
    pub fn install(self) -> (r: Result<(), Error>)
        ensures
            call_ensures(P::install, (self.provider(),), r),
    {
        self.provider.install()
    }
}

#[verifier::external_type_specification]
#[verifier::external_body]
pub struct ExAlmanac(Almanac);

#[verifier::external_type_specification]
#[verifier::external_body]
pub struct ExAlmanacError(AlmanacError);

/// An ANISE-backed planetary ephemeris: a JPL DE-series SPK file (and any
/// further kernels) loaded into an ANISE almanac.
pub struct AniseEphemeris {
    almanac: Almanac,
}

impl AniseEphemeris {
    /// The almanac this ephemeris holds.
    pub closed spec fn almanac(self) -> Almanac {
        self.almanac
    }

    /// The ephemeris that an almanac loading attempt yields: the loaded
    /// almanac, or [`Error::Ephemeris`] for any ANISE error.
    ///
    /// Opening a file (`Almanac::new`) and stacking one more kernel onto an
    /// almanac (`Almanac::load`) read and parse the file, and the parse may
    /// not return on a malformed file; the embedding program makes those
    /// calls and hands their outcome here.
    pub fn from_load_result(loaded: Result<Almanac, AlmanacError>) -> (r: Result<
        AniseEphemeris,
        Error,
    >)
        ensures
            loaded is Ok <==> r is Ok,
            r matches Ok(e) ==> loaded == Ok::<Almanac, AlmanacError>(e.almanac()),
            r matches Err(err) ==> err is Ephemeris,
    {
        match loaded {
            Ok(almanac) => Ok(AniseEphemeris { almanac }),
            Err(_) => Err(Error::Ephemeris),
        }
    }

    /// The almanac, handed over for installation.
    pub fn into_almanac(self) -> (a: Almanac)
        ensures
            a == self.almanac(),
    {
        self.almanac
    }
}

/// Whether every callback registration returned 0.
pub open spec fn all_registered(status_codes: Seq<i32>) -> bool {
    forall|i: int| 0 <= i < status_codes.len() ==> status_codes[i] == 0
}

/// The contents of a process-global provider slot after `provider` is
/// offered to it: a slot that already holds a provider keeps it, an empty
/// one takes `provider`.
pub open spec fn slot_after_claim<P>(before: Option<P>, provider: P) -> Option<P> {
    match before {
        Some(first) => Some(first),
        None => Some(provider),
    }
}

/// Offers `provider` to a process-global provider slot that can be filled
/// once. An empty slot takes it and the installation goes on to register
/// the callbacks; a filled slot keeps its provider, drops `provider`, and
/// the installation is refused with [`Error::Ephemeris`].
pub fn claim_provider_slot<P>(slot: &mut Option<P>, provider: P) -> (r: Result<(), Error>)
    ensures
        *final(slot) == slot_after_claim(*old(slot), provider),
        r is Ok <==> (*old(slot)) is None,
        r matches Err(err) ==> err is Ephemeris,
{
    if slot.is_some() {
        return Err(Error::Ephemeris);
    }
    *slot = Some(provider);
    Ok(())
}

/// The outcome of installing a provider: the process-global provider slot
/// must have been free, and every callback registration must have returned
/// 0; anything else is [`Error::Ephemeris`].
pub fn registration_result(slot_was_free: bool, status_codes: &[i32]) -> (r: Result<(), Error>)
    ensures
        r is Ok <==> (slot_was_free && all_registered(status_codes@)),
        r matches Err(err) ==> err is Ephemeris,
{
    if !slot_was_free {
        return Err(Error::Ephemeris);
    }
    let mut i: usize = 0;
    while i < status_codes.len()
        invariant
            i <= status_codes@.len(),
            forall|j: int| 0 <= j < i ==> status_codes@[j] == 0,
        decreases status_codes@.len() - i,
    {
        if status_codes[i] != 0 {
            return Err(Error::Ephemeris);
        }
        i = i + 1;
    }
    Ok(())
}

/// At most one provider is installed per process: whatever is offered to
/// a filled slot, the first provider stays, so two offers to an empty slot
/// leave the first in place and only that one is ever held.
pub proof fn law_first_provider_stays<P>(first: P, later: P)
    ensures
        slot_after_claim(Some(first), later) == Some(first),
        slot_after_claim(slot_after_claim(None, first), later) == Some(first),
{
}

/// NAIF ID of the Solar System Barycenter.
pub const NAIF_SSB: i32 = 0;

/// NAIF ID of the Sun.
pub const NAIF_SUN: i32 = 10;

/// The NAIF ID of the center that a `novas_origin` value names: the Solar
/// System Barycenter for `NOVAS_BARYCENTER` (0), the Sun for
/// `NOVAS_HELIOCENTER` (1).
pub fn origin_center_naif(origin: u32) -> (naif: i32)
    requires
        origin <= 1,
    ensures
        naif == (if origin == 0 { 0i32 } else { 10i32 }),
{
    if origin == 0 {
        NAIF_SSB
    } else {
        NAIF_SUN
    }
}

/// The provider error recorded when a NOVAS planet has no NAIF ID.
pub open spec fn unmapped_planet_text(body: nat) -> Seq<char> {
    "no NAIF mapping for NOVAS planet id "@ + nat_decimal(body)
}

/// The provider error recorded when ANISE cannot look up one body
/// relative to another.
pub open spec fn lookup_failure_text(naif: int, center: int, cause: Seq<char>) -> Seq<char> {
    "ANISE could not translate NAIF "@ + int_decimal(naif) + " relative to NAIF "@
        + int_decimal(center) + ": "@ + cause
}

/// The message for a NOVAS planet that has no NAIF ID.
pub fn unmapped_planet_message(body: u32) -> (s: String)
    ensures
        s@ == unmapped_planet_text(body as nat),
{
    let mut s = String::from_str("no NAIF mapping for NOVAS planet id ");
    let digits = u64_to_decimal(body as u64);
    s.append(digits.as_str());
    s
}

/// The message for a failed ANISE state lookup of `naif` relative to
/// `center`, with ANISE's own description `cause`.
pub fn lookup_failure_message(naif: i32, center: i32, cause: &str) -> (s: String)
    ensures
        s@ == lookup_failure_text(naif as int, center as int, cause@),
{
    let mut s = String::from_str("ANISE could not translate NAIF ");
    let a = i32_to_decimal(naif);
    s.append(a.as_str());
    s.append(" relative to NAIF ");
    let b = i32_to_decimal(center);
    s.append(b.as_str());
    s.append(": ");
    s.append(cause);
    s
}

/// What an ephemeris callback does with a query: answer at once with a
/// status code, or look up a NAIF body relative to a NAIF center.
#[derive(Debug, Clone, Copy, PartialEq, Eq, Structural)]
pub enum StateQuery {
    /// Answer with this non-zero status, without a state vector.
    Fail(i32),
    /// Look up body `naif` relative to center `center`.
    Lookup { naif: i32, center: i32 },
}

/// The provider error recorded when a callback runs before an almanac was
/// installed.
pub open spec fn not_installed_text() -> Seq<char> {
    "ANISE almanac not installed"@
}

/// The provider error recorded for a name-based ephemeris lookup.
pub open spec fn name_lookup_text() -> Seq<char> {
    "the ANISE backend does not support name-based lookup (id = -1); construct the EphemObject with an explicit NAIF ID"@
}

/// The planet-provider callback's decision for NOVAS planet `body`, whose
/// DE-series NAIF ID is `naif` (negative when it has none), relative to the
/// `novas_origin` value `origin`.
///
/// Without an installed almanac the answer is status 3, for a planet without
/// NAIF ID status 1, each with its message recorded in `slot`; otherwise the
/// body is looked up relative to the SSB (origin 0) or the Sun (origin 1).
pub fn plan_planet_state(
    slot: &mut ProviderErrorSlot,
    almanac_installed: bool,
    body: u32,
    naif: i64,
    origin: u32,
) -> (q: StateQuery)
    requires
        origin <= 1,
    ensures
        !almanac_installed ==> q == StateQuery::Fail(3) && final(slot)@ == Some(
            not_installed_text(),
        ),
        almanac_installed && naif < 0 ==> q == StateQuery::Fail(1) && final(slot)@ == Some(
            unmapped_planet_text(body as nat),
        ),
        almanac_installed && naif >= 0 ==> q == (StateQuery::Lookup {
            naif: naif as i32,
            center: if origin == 0 { 0i32 } else { 10i32 },
        }) && final(slot)@ == old(slot)@,
{
    if !almanac_installed {
        set_provider_error(slot, "ANISE almanac not installed");
        return StateQuery::Fail(3);
    }
    if naif < 0 {
        let msg = unmapped_planet_message(body);
        set_provider_error(slot, msg.as_str());
        return StateQuery::Fail(1);
    }
    let center: i32 = origin_center_naif(origin);
    StateQuery::Lookup { naif: naif as i32, center }
}

/// The ephemeris-object callback's decision for NAIF ID `id`: status 1
/// (with its message recorded in `slot`) without an installed almanac or
/// for the name-lookup ID -1; otherwise the body is looked up relative to
/// the Solar System Barycenter.
pub fn plan_ephem_state(slot: &mut ProviderErrorSlot, almanac_installed: bool, id: i64) -> (q:
    StateQuery)
    ensures
        !almanac_installed ==> q == StateQuery::Fail(1) && final(slot)@ == Some(
            not_installed_text(),
        ),
        almanac_installed && id == -1 ==> q == StateQuery::Fail(1) && final(slot)@ == Some(
            name_lookup_text(),
        ),
        almanac_installed && id != -1 ==> q == (StateQuery::Lookup {
            naif: id as i32,
            center: 0i32,
        }) && final(slot)@ == old(slot)@,
{
    if !almanac_installed {
        set_provider_error(slot, "ANISE almanac not installed");
        return StateQuery::Fail(1);
    }
    if id == -1 {
        set_provider_error(
            slot,
            "the ANISE backend does not support name-based lookup (id = -1); construct the EphemObject with an explicit NAIF ID",
        );
        return StateQuery::Fail(1);
    }
    StateQuery::Lookup { naif: id as i32, center: NAIF_SSB }
}

/// The status an ANISE callback returns once the state lookup was tried:
/// 0 when the state was written, 3 for an ephemeris-data error.
pub fn lookup_status(written: bool) -> (status: i32)
    ensures
        status == (if written { 0i32 } else { 3i32 }),
{
    if written {
        0
    } else {
        3
    }
}

/// The status the generic planet-provider dispatch returns: 1 when no
/// provider is installed, 2 when the provider has no state for the body,
/// 0 when the state was written.
pub fn dispatch_status(provider_installed: bool, state_found: bool) -> (status: i16)
    ensures
        status == (if !provider_installed {
            1i16
        } else if !state_found {
            2i16
        } else {
            0i16
        }),
{
    if !provider_installed {
        1
    } else if !state_found {
        2
    } else {
        0
    }
}

} // verus!
