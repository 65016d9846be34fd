use supernovas::{EquatorType, Error};
use supernovas::debug::{capture_error_description, error_description_line};
use supernovas::{
    Accuracy, CatalogSystem, DebugMode, EopSeries, ProviderErrorSlot, ReferenceSystem,
    Refraction, SolarBody, Timescale, take_provider_error,
};

#[test]
fn debug_mode_eq_and_clone() {
    assert_eq!(DebugMode::On, DebugMode::On);
    assert_ne!(DebugMode::On, DebugMode::Extra);
    let _ = DebugMode::Off;
}

#[test]
fn debug_mode_debug_format() {
    assert_eq!(format!("{:?}", DebugMode::On), "On");
    assert_eq!(format!("{:?}", DebugMode::Extra), "Extra");
    assert_eq!(format!("{:?}", DebugMode::Off), "Off");
}

#[test]
fn debug_mode_codes_round_trip() {
    for (mode, code) in [(DebugMode::Off, 0), (DebugMode::On, 1), (DebugMode::Extra, 2)] {
        assert_eq!(mode.to_sys(), code);
        assert_eq!(DebugMode::from_sys(code), mode);
    }
    assert!(!DebugMode::Off.captures_errors());
    assert!(DebugMode::On.captures_errors());
    assert!(DebugMode::Extra.captures_errors());
}

#[test]
fn eop_series_round_trips() {
    for s in [
        EopSeries::LeapList,
        EopSeries::RapidIau2000,
        EopSeries::C04Iau2000,
        EopSeries::C01Iau2000,
    ] {
        assert_eq!(EopSeries::from_raw(s.to_raw()), s);
    }
}

#[test]
fn default_is_none() {
    assert_eq!(Refraction::default(), Refraction::NoRefraction);
}

#[test]
fn all_variants_produce_a_model() {
    assert!(!Refraction::NoRefraction.has_model());
    assert!(Refraction::Standard.has_model());
    assert!(Refraction::Optical.has_model());
    assert!(Refraction::Radio.has_model());
}

#[test]
fn reference_system_to_sys_covers_all_variants() {
    let all = [
        ReferenceSystem::Gcrs,
        ReferenceSystem::Tod,
        ReferenceSystem::Cirs,
        ReferenceSystem::Icrs,
        ReferenceSystem::J2000,
        ReferenceSystem::Mod,
        ReferenceSystem::Tirs,
        ReferenceSystem::Itrs,
    ];
    for (i, s) in all.iter().enumerate() {
        assert_eq!(s.to_sys(), i as u32);
        assert_eq!(ReferenceSystem::from_sys(s.to_sys()), *s);
    }
}

#[test]
fn accuracy_round_trips() {
    assert_eq!(Accuracy::Full.to_sys(), 0);
    assert_eq!(Accuracy::Reduced.to_sys(), 1);
    assert_eq!(Accuracy::from_sys(Accuracy::Reduced.to_sys()), Accuracy::Reduced);
    assert_eq!(Accuracy::from_sys(Accuracy::Full.to_sys()), Accuracy::Full);
}

#[test]
fn timescale_codes_and_names() {
    let all = [
        (Timescale::Tcb, "TCB"),
        (Timescale::Tdb, "TDB"),
        (Timescale::Tcg, "TCG"),
        (Timescale::Tt, "TT"),
        (Timescale::Tai, "TAI"),
        (Timescale::Gps, "GPS"),
        (Timescale::Utc, "UTC"),
        (Timescale::Ut1, "UT1"),
    ];
    for (i, (t, name)) in all.iter().enumerate() {
        assert_eq!(t.to_sys(), i as u32);
        assert_eq!(t.name(), *name);
    }
}

#[test]
fn solar_body_codes() {
    assert_eq!(SolarBody::SolarSystemBarycenter.to_ffi(), 0);
    assert_eq!(SolarBody::Mercury.to_ffi(), 1);
    assert_eq!(SolarBody::Earth.to_ffi(), 3);
    assert_eq!(SolarBody::Pluto.to_ffi(), 9);
    assert_eq!(SolarBody::Sun.to_ffi(), 10);
    assert_eq!(SolarBody::Moon.to_ffi(), 11);
    assert_eq!(SolarBody::EarthMoonBarycenter.to_ffi(), 12);
    assert_eq!(SolarBody::PlutoBarycenter.to_ffi(), 13);
}

#[test]
fn catalog_system_names() {
    assert_eq!(CatalogSystem::Icrs.name(), "ICRS");
    assert_eq!(CatalogSystem::J2000.name(), "J2000");
    assert_eq!(CatalogSystem::B1950.name(), "B1950");
    assert_eq!(CatalogSystem::Fk4.name(), "FK4");
    assert_eq!(CatalogSystem::Fk5.name(), "FK5");
}

#[test]
fn capture_keeps_only_descriptions() {
    let mut slot = ProviderErrorSlot::new();
    assert!(!error_description_line("\n  ERROR! %s: "));
    assert!(!error_description_line(" [=> %d]\n"));
    assert!(!error_description_line("       @ %s [=> %d]\n"));
    assert!(error_description_line("invalid accuracy"));
    assert!(error_description_line("      @ six spaces"));

    capture_error_description(&mut slot, "invalid accuracy");
    capture_error_description(&mut slot, " [=> %d]\n");
    capture_error_description(&mut slot, "\n  ERROR! %s: ");
    assert_eq!(take_provider_error(&mut slot).as_deref(), Some("invalid accuracy"));
    capture_error_description(&mut slot, "       @ %s [=> %d]\n");
    assert!(take_provider_error(&mut slot).is_none());
}

#[test]
fn ecliptic_routes() {
    assert_eq!(ReferenceSystem::Icrs.equator_type_for_ecliptic(), Some(EquatorType::Gcrs));
    assert_eq!(ReferenceSystem::Gcrs.equator_type_for_ecliptic(), Some(EquatorType::Gcrs));
    assert_eq!(ReferenceSystem::J2000.equator_type_for_ecliptic(), Some(EquatorType::Mean));
    assert_eq!(ReferenceSystem::Mod.equator_type_for_ecliptic(), Some(EquatorType::Mean));
    assert_eq!(ReferenceSystem::Tod.equator_type_for_ecliptic(), Some(EquatorType::True));
    assert_eq!(ReferenceSystem::Cirs.equator_type_for_ecliptic(), None);
    assert!(matches!(ReferenceSystem::Cirs.ecliptic_route(), Ok((true, EquatorType::True))));
    assert!(matches!(ReferenceSystem::J2000.ecliptic_route(), Ok((false, EquatorType::Mean))));
    assert!(matches!(ReferenceSystem::Itrs.ecliptic_route(), Err(Error::UnsupportedSystem)));
    assert!(matches!(ReferenceSystem::Tirs.ecliptic_route(), Err(Error::UnsupportedSystem)));
    assert_eq!(EquatorType::Mean.to_sys(), 0);
    assert_eq!(EquatorType::True.to_sys(), 1);
    assert_eq!(EquatorType::Gcrs.to_sys(), 2);
    assert!(ReferenceSystem::Gcrs.is_icrs_like());
    assert!(!ReferenceSystem::J2000.is_icrs_like());
    assert!(ReferenceSystem::J2000.is_mean_of_date());
    assert!(ReferenceSystem::Tirs.is_true_of_date());
    assert!(!ReferenceSystem::Cirs.is_true_of_date());
}

#[test]
fn predicates() {
    assert!(ReferenceSystem::Icrs.is_icrs_like());
    assert!(ReferenceSystem::J2000.is_mean_of_date());
    assert!(!ReferenceSystem::J2000.is_true_of_date());
    assert!(ReferenceSystem::Tod.is_true_of_date());
    assert!(!ReferenceSystem::Tod.is_mean_of_date());
}

#[test]
fn cirs_is_not_icrs_or_mod_or_true() {
    assert!(!ReferenceSystem::Cirs.is_icrs_like());
    assert!(!ReferenceSystem::Cirs.is_mean_of_date());
    assert!(!ReferenceSystem::Cirs.is_true_of_date());
}

#[test]
fn equator_type_for_ecliptic_returns_none_for_unmappable_systems() {
    assert!(ReferenceSystem::Cirs.equator_type_for_ecliptic().is_none());
    assert!(ReferenceSystem::Tirs.equator_type_for_ecliptic().is_none());
    assert!(ReferenceSystem::Itrs.equator_type_for_ecliptic().is_none());
}
