use supernovas::error::{i32_to_decimal, u64_to_decimal};
use supernovas::{Error, ProviderErrorSlot, set_provider_error, take_provider_error};

#[test]
fn set_and_take_provider_error() {
    let mut slot = ProviderErrorSlot::new();
    set_provider_error(&mut slot, "something went wrong");
    let msg = take_provider_error(&mut slot);
    assert_eq!(msg.as_deref(), Some("something went wrong"));
    // Second take clears the slot.
    assert!(take_provider_error(&mut slot).is_none());
}

#[test]
fn ffi_drains_captured_description() {
    let mut slot = ProviderErrorSlot::new();
    set_provider_error(&mut slot, "bad ephemeris call");
    let err = Error::ffi(3, &mut slot);
    assert!(err.message().contains("bad ephemeris call"));
    // Slot is now empty — next ffi() falls back to numeric.
    let err2 = Error::ffi(7, &mut slot);
    assert!(err2.message().contains("7"));
}

#[test]
fn not_finite_display() {
    let s = Error::NotFinite.message();
    assert_eq!(s, "value was not finite");
}

#[test]
fn parse_display() {
    let s = Error::Parse.message();
    assert!(!s.is_empty());
}

#[test]
fn unsupported_system_display() {
    let s = Error::UnsupportedSystem.message();
    assert!(!s.is_empty());
}

#[test]
fn ephemeris_display() {
    let s = Error::Ephemeris.message();
    assert!(!s.is_empty());
}

#[test]
fn error_is_clone() {
    let e = Error::NotFinite;
    let _e2 = e.clone();
}

#[test]
fn error_messages_are_exact() {
    assert_eq!(Error::Parse.message(), "parse error");
    assert_eq!(
        Error::UnsupportedSystem.message(),
        "unsupported coordinate system for this operation"
    );
    assert_eq!(Error::Ephemeris.message(), "ephemeris error");
    assert_eq!(Error::Ffi("boom".to_string()).message(), "boom");
}

#[test]
fn ffi_fallback_text_is_exact() {
    let mut slot = ProviderErrorSlot::new();
    assert_eq!(Error::ffi(7, &mut slot).message(), "FFI error (code 7)");
    assert_eq!(Error::ffi(-42, &mut slot).message(), "FFI error (code -42)");
    assert_eq!(
        Error::ffi(i32::MIN, &mut slot).message(),
        "FFI error (code -2147483648)"
    );
}

#[test]
fn ffi_uses_captured_description_once() {
    let mut slot = ProviderErrorSlot::new();
    set_provider_error(&mut slot, "first");
    set_provider_error(&mut slot, "second");
    match Error::ffi(1, &mut slot) {
        Error::Ffi(desc) => assert_eq!(desc, "second"),
        other => panic!("unexpected {other:?}"),
    }
    assert!(take_provider_error(&mut slot).is_none());
}

#[test]
fn decimal_rendering() {
    assert_eq!(i32_to_decimal(0), "0");
    assert_eq!(i32_to_decimal(10), "10");
    assert_eq!(i32_to_decimal(-1), "-1");
    assert_eq!(i32_to_decimal(i32::MAX), "2147483647");
    assert_eq!(u64_to_decimal(u64::MAX), "18446744073709551615");
    assert_eq!(u64_to_decimal(907), "907");
}
