use supernovas::ephemeris::{
    dispatch_status, origin_center_naif, plan_ephem_state, plan_planet_state,
    registration_result, lookup_failure_message, lookup_status,
    unmapped_planet_message, StateQuery,
};
use supernovas::{take_provider_error, ProviderErrorSlot};
use supernovas::{AniseEphemeris, Ephemeris, EphemerisProvider, Error};

struct Counting(bool);

impl EphemerisProvider for Counting {
    fn install(self) -> Result<(), Error> {
        if self.0 { Ok(()) } else { Err(Error::Ephemeris) }
    }
}

#[test]
fn ephemeris_installs_its_provider() {
    assert!(Ephemeris::from_provider(Counting(true)).install().is_ok());
    assert!(matches!(
        Ephemeris::from_provider(Counting(false)).install(),
        Err(Error::Ephemeris)
    ));
}

#[test]
fn anise_open_missing_file_is_ephemeris_error() {
    let r = AniseEphemeris::from_load_result(anise::almanac::Almanac::new(
        "/nonexistent/path/to/de440s.bsp",
    ));
    assert!(matches!(r, Err(Error::Ephemeris)));
}

#[test]
fn registration_outcomes() {
    assert!(registration_result(true, &[0, 0, 0]).is_ok());
    assert!(matches!(registration_result(false, &[0, 0]), Err(Error::Ephemeris)));
    assert!(matches!(registration_result(true, &[0, -1, 0]), Err(Error::Ephemeris)));
    assert!(registration_result(true, &[]).is_ok());
}

#[test]
fn origin_centers() {
    assert_eq!(origin_center_naif(0), 0);
    assert_eq!(origin_center_naif(1), 10);
}

#[test]
fn provider_messages() {
    assert_eq!(unmapped_planet_message(13), "no NAIF mapping for NOVAS planet id 13");
    assert_eq!(
        lookup_failure_message(-31, 0, "no data"),
        "ANISE could not translate NAIF -31 relative to NAIF 0: no data"
    );
}

#[test]
fn planet_callback_decisions() {
    let mut slot = ProviderErrorSlot::new();
    assert_eq!(plan_planet_state(&mut slot, false, 3, 399, 0), StateQuery::Fail(3));
    assert_eq!(take_provider_error(&mut slot).as_deref(), Some("ANISE almanac not installed"));
    assert_eq!(plan_planet_state(&mut slot, true, 42, -1, 0), StateQuery::Fail(1));
    assert_eq!(
        take_provider_error(&mut slot).as_deref(),
        Some("no NAIF mapping for NOVAS planet id 42")
    );
    assert_eq!(
        plan_planet_state(&mut slot, true, 3, 399, 1),
        StateQuery::Lookup { naif: 399, center: 10 }
    );
    assert!(take_provider_error(&mut slot).is_none());
}

#[test]
fn ephem_callback_decisions() {
    let mut slot = ProviderErrorSlot::new();
    assert_eq!(plan_ephem_state(&mut slot, true, -1), StateQuery::Fail(1));
    assert!(take_provider_error(&mut slot).unwrap().contains("name-based lookup"));
    assert_eq!(plan_ephem_state(&mut slot, false, -31), StateQuery::Fail(1));
    assert_eq!(take_provider_error(&mut slot).as_deref(), Some("ANISE almanac not installed"));
    assert_eq!(
        plan_ephem_state(&mut slot, true, -31),
        StateQuery::Lookup { naif: -31, center: 0 }
    );
    assert_eq!(lookup_status(true), 0);
    assert_eq!(lookup_status(false), 3);
    assert_eq!(dispatch_status(false, true), 1);
    assert_eq!(dispatch_status(true, false), 2);
    assert_eq!(dispatch_status(true, true), 0);
}

#[test]
fn first_claim_takes_the_slot_and_later_ones_are_refused() {
    let mut slot: Option<u32> = None;
    assert!(supernovas::ephemeris::claim_provider_slot(&mut slot, 1).is_ok());
    assert_eq!(slot, Some(1));
    assert!(matches!(
        supernovas::ephemeris::claim_provider_slot(&mut slot, 2),
        Err(Error::Ephemeris)
    ));
    assert_eq!(slot, Some(1));
}
