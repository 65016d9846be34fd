use supernovas::epoch::{
    epoch_from_tt_split, tai_ns_from_tt_split, tt_split_from_epoch, tt_split_from_tai_ns,
    NS_PER_DAY,
};

#[test]
fn j2000_is_32_184_s_before_tai_noon() {
    // J2000.0 TT (JD 2451545.0) is day 2451545, 12 h before its noon;
    // hifitime puts 2000-01-01 12:00 TAI 36524.5 days after J1900.
    let tai = tai_ns_from_tt_split(2_451_545, -NS_PER_DAY / 2);
    assert_eq!(tai, 36_525 * NS_PER_DAY - NS_PER_DAY / 2 - 32_184_000_000);
    let epoch = epoch_from_tt_split(2_451_545, -NS_PER_DAY / 2);
    let j2000_tai = hifitime::Epoch::from_gregorian_tai_at_noon(2000, 1, 1);
    let diff_ns = (j2000_tai - epoch).total_nanoseconds();
    assert_eq!(diff_ns, 32_184_000_000);
}

#[test]
fn split_round_trip_keeps_day_and_nanoseconds() {
    for &ijd in &[2_400_001_i64, 2_451_545, 2_460_000, 2_500_000] {
        for &frac in &[-NS_PER_DAY / 2, -1, 0, 1, NS_PER_DAY / 4, NS_PER_DAY / 2 - 1] {
            let (day, ns) = tt_split_from_tai_ns(tai_ns_from_tt_split(ijd, frac));
            assert_eq!(day, ijd);
            assert_eq!(ns, frac + NS_PER_DAY / 2);
        }
        // Exactly +12 h lands at the start of the next day.
        let (day, ns) = tt_split_from_tai_ns(tai_ns_from_tt_split(ijd, NS_PER_DAY / 2));
        assert_eq!((day, ns), (ijd + 1, 0));
    }
}

#[test]
fn round_trips_through_hifitime() {
    let epoch = epoch_from_tt_split(2_451_545, NS_PER_DAY / 4);
    let (ijd, ns, leap) = tt_split_from_epoch(&epoch);
    assert_eq!(ijd, 2_451_545);
    assert_eq!(ns, NS_PER_DAY / 2 + NS_PER_DAY / 4);
    assert_eq!(leap, 32);
}

#[test]
fn one_nanosecond_survives() {
    let epoch = epoch_from_tt_split(2_500_000, 1 - NS_PER_DAY / 2);
    let (ijd, ns, _) = tt_split_from_epoch(&epoch);
    assert_eq!((ijd, ns), (2_500_000, 1));
}

#[test]
fn negative_tai_counts_split_with_nonnegative_remainder() {
    let (day, ns) = tt_split_from_tai_ns(-300 * NS_PER_DAY);
    assert!(ns >= 0 && ns < NS_PER_DAY);
    assert_eq!(
        day as i128 * NS_PER_DAY + ns,
        -300 * NS_PER_DAY + 32_184_000_000 + 2_415_020 * NS_PER_DAY + NS_PER_DAY / 2
    );
}

#[test]
fn hifitime_round_trip_is_exact_across_dates_and_fractions() {
    for &ijd in &[2_400_001_i64, 2_451_545, 2_460_000, 2_500_000] {
        for k in 0..=20_i128 {
            let frac = k * NS_PER_DAY / 20 - NS_PER_DAY / 2;
            let (day, ns, _) = tt_split_from_epoch(&epoch_from_tt_split(ijd, frac));
            assert_eq!(
                day as i128 * NS_PER_DAY + ns,
                ijd as i128 * NS_PER_DAY + frac + NS_PER_DAY / 2
            );
        }
    }
}
