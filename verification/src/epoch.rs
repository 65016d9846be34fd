//! The integer side of the bridge between Terrestrial Time Julian dates and
//! hifitime epochs.
//!
//! A TT Julian date is carried as an integer day and a nanosecond count
//! within or around it, so that no step of the bridge goes through a single
//! floating-point Julian date. hifitime counts TAI time from its reference
//! epoch J1900 (JD 2415020.5); TT runs 32.184 s ahead of TAI.

use vstd::prelude::*;

use hifitime::{Duration, Epoch};

verus! {

/// Nanoseconds in a day.
pub const NS_PER_DAY: i128 = 86_400_000_000_000;

/// TT - TAI, exactly 32.184 s, in nanoseconds.
pub const TT_TAI_NS: i128 = 32_184_000_000;

/// Integer part of the Julian date of hifitime's reference epoch J1900.
pub const J1900_JD_INT: i128 = 2_415_020;

/// J1900 (JD 2415020.5) as nanoseconds of Julian date.
pub const J1900_NOON_NS: i128 = 208_657_771_200_000_000_000;

/// Bound on the TAI nanosecond count of any hifitime epoch.
pub open spec fn epoch_ns_bound() -> int {
    0x1_0000_0000_0000_0000_0000
}

/// TAI nanoseconds since J1900 of the TT Julian date `ijd + 0.5 + frac_ns`
/// (`frac_ns` nanoseconds counted from noon of day `ijd`).
pub open spec fn tai_ns_of_tt(ijd: int, frac_ns: int) -> int {
    (ijd - 2_415_020) * 86_400_000_000_000 + frac_ns - 32_184_000_000
}

/// Nanoseconds of TT Julian date (from JD 0) of the instant that lies
/// `tai_ns` TAI nanoseconds after J1900.
pub open spec fn tt_jd_ns_of_tai(tai_ns: int) -> int {
    tai_ns + 32_184_000_000 + 208_657_771_200_000_000_000
}

/// The TAI nanoseconds since J1900 of a TT instant given as an integer
/// Julian day and a nanosecond offset from noon of that day.
pub fn tai_ns_from_tt_split(ijd: i64, frac_ns: i128) -> (tai_ns: i128)
    requires
        i128::MIN <= (ijd - 2_415_020) * 86_400_000_000_000 + frac_ns <= i128::MAX,
        i128::MIN <= tai_ns_of_tt(ijd as int, frac_ns as int),
    ensures
        tai_ns == tai_ns_of_tt(ijd as int, frac_ns as int),
{
    let int_ns: i128 = ((ijd as i128) - J1900_JD_INT) * NS_PER_DAY;
    let sum: i128 = int_ns + frac_ns;
    sum - TT_TAI_NS
}

/// Splits the instant `tai_ns` TAI nanoseconds after J1900 into its TT
/// Julian day number and the nanoseconds since the start of that Julian
/// day, `0 <= ns < 86400e9`.
pub fn tt_split_from_tai_ns(tai_ns: i128) -> (split: (i64, i128))
    requires
        -epoch_ns_bound() < tai_ns < epoch_ns_bound(),
    ensures
        0 <= split.1 < 86_400_000_000_000,
        split.0 * 86_400_000_000_000 + split.1 == tt_jd_ns_of_tai(tai_ns as int),
        split.0 == tt_jd_ns_of_tai(tai_ns as int) / 86_400_000_000_000,
        split.1 == tt_jd_ns_of_tai(tai_ns as int) % 86_400_000_000_000,
{
    let tt_jde_ns: i128 = tai_ns + TT_TAI_NS + J1900_NOON_NS;
    let day: i128 = tt_jde_ns.checked_div_euclid(NS_PER_DAY).unwrap();
    let rem: i128 = tt_jde_ns.checked_rem_euclid(NS_PER_DAY).unwrap();
    proof {
        vstd::arithmetic::div_mod::lemma_fundamental_div_mod(
            tt_jde_ns as int,
            86_400_000_000_000,
        );
        vstd::arithmetic::div_mod::lemma_mod_bound(tt_jde_ns as int, 86_400_000_000_000);
    }
    (day as i64, rem)
}

/// Converting a TT instant to TAI nanoseconds and splitting it again keeps
/// the instant to the nanosecond: the Julian day and nanoseconds of day that
/// come back add up to `ijd` days plus `frac_ns` nanoseconds after noon.
/// When the offset lies in `[-12 h, 12 h)` the same Julian day comes back,
/// with `frac_ns + 12 h` nanoseconds into it.
pub proof fn law_tt_split_round_trip(ijd: int, frac_ns: int)
    requires
        -epoch_ns_bound() < tai_ns_of_tt(ijd, frac_ns) < epoch_ns_bound(),
    ensures
        tt_jd_ns_of_tai(tai_ns_of_tt(ijd, frac_ns)) == ijd * 86_400_000_000_000 + frac_ns
            + 43_200_000_000_000,
        -43_200_000_000_000 <= frac_ns < 43_200_000_000_000 ==> {
            &&& tt_jd_ns_of_tai(tai_ns_of_tt(ijd, frac_ns)) / 86_400_000_000_000 == ijd
            &&& tt_jd_ns_of_tai(tai_ns_of_tt(ijd, frac_ns)) % 86_400_000_000_000 == frac_ns
                + 43_200_000_000_000
        },
{
    if -43_200_000_000_000 <= frac_ns < 43_200_000_000_000 {
        vstd::arithmetic::div_mod::lemma_fundamental_div_mod_converse(
            tt_jd_ns_of_tai(tai_ns_of_tt(ijd, frac_ns)),
            86_400_000_000_000,
            ijd,
            frac_ns + 43_200_000_000_000,
        );
    }
}

#[verifier::external_type_specification]
#[verifier::external_body]
pub struct ExEpoch(Epoch);

/// Whether a TAI nanosecond count lies in the range a hifitime duration
/// holds exactly: at least -32768 centuries and less than 32768 centuries.
pub open spec fn in_duration_range(ns: int) -> bool {
    -103_407_943_680_000_000_000_000 <= ns < 103_407_943_680_000_000_000_000
}

/// The hifitime epoch lying `ns` nanoseconds after J1900 in TAI.
pub uninterp spec fn tai_epoch(ns: int) -> Epoch;

/// The position of an epoch's time scale in the declaration of
/// `hifitime::TimeScale` (TAI 0, TT 1, ET 2, TDB 3, UTC 4, GPST 5, GST 6,
/// BDT 7, QZSST 8, ...).
pub uninterp spec fn epoch_scale(e: Epoch) -> int;

/// The TAI nanoseconds since J1900 of an epoch whose time scale converts to
/// TAI in exact arithmetic.
pub uninterp spec fn epoch_tai_count(e: Epoch) -> int;

/// hifitime's IERS leap-second count (TAI - UTC) at an epoch whose time
/// scale converts to TAI in exact arithmetic.
pub uninterp spec fn iers_leap_seconds(e: Epoch) -> int;

/// The time scales that hifitime converts to TAI without a trigonometric
/// series: TAI, TT, UTC, GPST, GST, BDT and QZSST. For these the TAI count
/// of an epoch is the same on every machine; for ET, TDB and the
/// coordinate time scales it goes through the platform's `sin`.
pub open spec fn exact_scale(scale: int) -> bool {
    scale == 0 || scale == 1 || 4 <= scale <= 8
}

/// Whether `leap` is a value of hifitime's IERS leap-second count: 0 before
/// 1972, else one of the announced TAI - UTC values from 10 to 37 s.
pub open spec fn iers_leap_value(leap: int) -> bool {
    leap == 0 || 10 <= leap <= 37
}

/// `hifitime::Epoch::from_tai_duration` of
/// `hifitime::Duration::from_total_nanoseconds(ns)`: the TAI epoch `ns`
/// nanoseconds after J1900. Claimed: the result is `tai_epoch(ns)`, a value
/// that depends on `ns` alone; its time scale is TAI; and for `ns` in the
/// duration range its TAI count is `ns` itself (`from_total_nanoseconds`
/// splits `ns` Euclidean-wise into centuries and nanoseconds without
/// saturating there, and a TAI epoch's TAI duration is its own duration).
#[verifier::external_body]
fn epoch_from_tai_ns(ns: i128) -> (e: Epoch)
    ensures
        e == tai_epoch(ns as int),
        epoch_scale(e) == 0,
        in_duration_range(ns as int) ==> epoch_tai_count(e) == ns,
{
    Epoch::from_tai_duration(Duration::from_total_nanoseconds(ns))
}

/// `hifitime::Epoch::to_tai_duration` of an epoch, read out by
/// `hifitime::Duration::total_nanoseconds`: the epoch's TAI nanoseconds
/// since J1900.
///
/// Claimed: the count lies strictly within +-2^80 (a duration is a signed
/// 16-bit number of centuries plus an unsigned 64-bit number of
/// nanoseconds); and for an epoch in a time scale that converts exactly it
/// is `epoch_tai_count(*e)`. For ET, TDB and the coordinate time scales
/// nothing more is claimed.
#[verifier::external_body]
fn epoch_tai_ns(e: &Epoch) -> (ns: i128)
    ensures
        -epoch_ns_bound() < ns < epoch_ns_bound(),
        exact_scale(epoch_scale(*e)) ==> ns == epoch_tai_count(*e),
{
    e.to_tai_duration().total_nanoseconds()
}

/// `hifitime::Epoch::leap_seconds_iers`: the IERS leap-second count
/// (TAI - UTC) at an epoch, from hifitime's built-in table. Claimed: the
/// count is 0 or one of the table's announced values 10..=37; and for an
/// epoch in a time scale that converts exactly it is
/// `iers_leap_seconds(*e)`.
#[verifier::external_body]
fn epoch_leap_seconds_iers(e: &Epoch) -> (leap: i32)
    ensures
        iers_leap_value(leap as int),
        exact_scale(epoch_scale(*e)) ==> leap == iers_leap_seconds(*e),
{
    e.leap_seconds_iers()
}

/// The hifitime epoch of the TT instant `ijd + 0.5 + frac_ns` (an integer
/// Julian day and a nanosecond offset from noon of that day), computed in
/// integer nanoseconds throughout: the TAI epoch `tai_ns_of_tt(ijd, frac_ns)`
/// nanoseconds after J1900.
pub fn epoch_from_tt_split(ijd: i64, frac_ns: i128) -> (e: Epoch)
    requires
        i128::MIN <= (ijd - 2_415_020) * 86_400_000_000_000 + frac_ns <= i128::MAX,
        i128::MIN <= tai_ns_of_tt(ijd as int, frac_ns as int),
    ensures
        e == tai_epoch(tai_ns_of_tt(ijd as int, frac_ns as int)),
        epoch_scale(e) == 0,
        in_duration_range(tai_ns_of_tt(ijd as int, frac_ns as int)) ==> epoch_tai_count(e)
            == tai_ns_of_tt(ijd as int, frac_ns as int),
{
    let tai_ns: i128 = tai_ns_from_tt_split(ijd, frac_ns);
    epoch_from_tai_ns(tai_ns)
}

/// The TT split of a hifitime epoch: its Julian day number, the nanoseconds
/// since the start of that Julian day, and hifitime's IERS leap-second
/// count at the epoch. For an epoch in a time scale that converts exactly,
/// the day and nanoseconds are those of the epoch's TAI count; for any
/// epoch they are those of some TAI count within the duration bounds.
pub fn tt_split_from_epoch(epoch: &Epoch) -> (split: (i64, i128, i32))
    ensures
        0 <= split.1 < 86_400_000_000_000,
        exact_scale(epoch_scale(*epoch)) ==> split.0 * 86_400_000_000_000 + split.1
            == tt_jd_ns_of_tai(epoch_tai_count(*epoch)),
        exists|tai_ns: int|
            -epoch_ns_bound() < tai_ns < epoch_ns_bound() && split.0 * 86_400_000_000_000
                + split.1 == tt_jd_ns_of_tai(tai_ns),
        iers_leap_value(split.2 as int),
        exact_scale(epoch_scale(*epoch)) ==> split.2 == iers_leap_seconds(*epoch),
{
    let leap_seconds: i32 = epoch_leap_seconds_iers(epoch);
    let tai_ns: i128 = epoch_tai_ns(epoch);
    let (ijd, ns_of_day) = tt_split_from_tai_ns(tai_ns);
    (ijd, ns_of_day, leap_seconds)
}

/// A TT instant taken to a hifitime epoch and split again comes back to
/// the nanosecond: for the epoch `e` that `epoch_from_tt_split` builds and
/// the split `(day, ns)` that `tt_split_from_epoch` gives of it, the Julian
/// day and nanoseconds of day add up to `ijd` days plus `frac_ns`
/// nanoseconds after noon, and for an offset in `[-12 h, 12 h)` they are
/// exactly day `ijd` and `frac_ns + 12 h`.
pub proof fn law_epoch_round_trip(ijd: int, frac_ns: int, e: Epoch, day: int, ns: int)
    requires
        in_duration_range(tai_ns_of_tt(ijd, frac_ns)),
        epoch_scale(e) == 0,
        epoch_tai_count(e) == tai_ns_of_tt(ijd, frac_ns),
        0 <= ns < 86_400_000_000_000,
        exact_scale(epoch_scale(e)) ==> day * 86_400_000_000_000 + ns == tt_jd_ns_of_tai(
            epoch_tai_count(e),
        ),
    ensures
        day * 86_400_000_000_000 + ns == ijd * 86_400_000_000_000 + frac_ns + 43_200_000_000_000,
        -43_200_000_000_000 <= frac_ns < 43_200_000_000_000 ==> day == ijd && ns == frac_ns
            + 43_200_000_000_000,
{
    law_tt_split_round_trip(ijd, frac_ns);
    if -43_200_000_000_000 <= frac_ns < 43_200_000_000_000 {
        vstd::arithmetic::div_mod::lemma_fundamental_div_mod_converse(
            day * 86_400_000_000_000 + ns,
            86_400_000_000_000,
            day,
            ns,
        );
    }
}

/// The TT <-> TAI conversion is a fixed offset for every date: one more
/// Julian day is exactly 86400e9 ns more TAI, one more nanosecond of the
/// day one more TAI nanosecond, and TT noon of J1900 (JD 2415020.0 + 12 h)
/// lies 32.184 s after the TAI origin; the inverse is that same offset
/// taken back.
pub proof fn law_tt_tai_fixed_offset(ijd: int, frac_ns: int, tai_ns: int)
    ensures
        tai_ns_of_tt(ijd + 1, frac_ns) == tai_ns_of_tt(ijd, frac_ns) + 86_400_000_000_000,
        tai_ns_of_tt(ijd, frac_ns + 1) == tai_ns_of_tt(ijd, frac_ns) + 1,
        tai_ns_of_tt(2_415_020, 0) == -32_184_000_000,
        tai_ns_of_tt(ijd, frac_ns) == (ijd - 2_415_020) * 86_400_000_000_000 + frac_ns
            - 32_184_000_000,
        tt_jd_ns_of_tai(tai_ns + 1) == tt_jd_ns_of_tai(tai_ns) + 1,
        tt_jd_ns_of_tai(-32_184_000_000) == 2_415_020 * 86_400_000_000_000 + 43_200_000_000_000,
{
}

} // verus!
