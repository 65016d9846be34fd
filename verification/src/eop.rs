//! IERS Earth Orientation Parameter data series, and the `file://` URL under
//! which a local data file is handed to SuperNOVAS.

use vstd::prelude::*;

use vstd::utf8::encode_utf8;

use crate::cstring::{c_string_bytes, nul_free, to_c_string};
use crate::error::Error;

verus! {

/// IERS EOP data series.
#[derive(Debug, Clone, Copy, PartialEq, Eq, Hash, Structural)]
pub enum EopSeries {
    /// Leap-seconds list (since 1972).
    LeapList,
    /// IERS Rapid Service data for IAU 2000 (since 1973, `finals.all.iau2000.txt`).
    RapidIau2000,
    /// IERS C04 long-term data, ITRF 2020, daily at 0 UTC (since 1962).
    C04Iau2000,
    /// IERS C01 long-term data (since 1846).
    C01Iau2000,
}

/// The value of the C enum `novas_eop_series` for each series, in the
/// order the C enum declares them.
pub open spec fn eop_series_code(s: EopSeries) -> u32 {
    match s {
        EopSeries::LeapList => 0,
        EopSeries::RapidIau2000 => 1,
        EopSeries::C04Iau2000 => 2,
        EopSeries::C01Iau2000 => 3,
    }
}

/// The series of a `novas_eop_series` value.
pub open spec fn eop_series_of_code(c: u32) -> EopSeries {
    if c == 0 {
        EopSeries::LeapList
    } else if c == 1 {
        EopSeries::RapidIau2000
    } else if c == 2 {
        EopSeries::C04Iau2000
    } else {
        EopSeries::C01Iau2000
    }
}

impl EopSeries {
    /// The `novas_eop_series` value of this series.
    pub fn to_raw(self) -> (c: u32)
        ensures
            c == eop_series_code(self),
    {
        match self {
            EopSeries::LeapList => 0,
            EopSeries::RapidIau2000 => 1,
            EopSeries::C04Iau2000 => 2,
            EopSeries::C01Iau2000 => 3,
        }
    }

    /// The series that a `novas_eop_series` value stands for.
    pub fn from_raw(c: u32) -> (s: EopSeries)
        requires
            c < 4,
        ensures
            s == eop_series_of_code(c),
    {
        if c == 0 {
            EopSeries::LeapList
        } else if c == 1 {
            EopSeries::RapidIau2000
        } else if c == 2 {
            EopSeries::C04Iau2000
        } else {
            EopSeries::C01Iau2000
        }
    }
}

/// Reading a series back from its C value gives the same series.
pub proof fn law_eop_series_round_trip(s: EopSeries)
    ensures
        eop_series_code(s) < 4,
        eop_series_of_code(eop_series_code(s)) == s,
{
}

/// Every C value is the value of the series read from it.
pub proof fn law_eop_series_code_round_trip(c: u32)
    requires
        c < 4,
    ensures
        eop_series_code(eop_series_of_code(c)) == c,
{
}

/// The URL under which SuperNOVAS reads a local file: `file://` followed by
/// the (absolute) path.
pub open spec fn eop_file_url_spec(path: Seq<char>) -> Seq<char> {
    "file://"@ + path
}

/// The `file://` URL of an already resolved absolute path, as
/// `set_eop_file` hands it on to `set_eop_url`.
pub fn eop_file_url(absolute_path: &str) -> (url: String)
    ensures
        url@ == eop_file_url_spec(absolute_path@),
{
    let mut url = String::from_str("file://");
    url.append(absolute_path);
    url
}

/// What pointing an EOP series at a URL asks of the C library: the series,
/// the ITRF reference year, and the URL as a NUL-terminated byte string.
pub struct EopUrlRequest {
    /// The series to configure.
    pub series: EopSeries,
    /// The ITRF reference year of the data behind the URL.
    pub itrf_year: i32,
    /// The URL's UTF-8 bytes followed by a NUL terminator.
    pub url: Vec<u8>,
}

/// The request that points `series` at `url`.
///
/// Fails with `OutOfRange("url contains interior NUL")` exactly when `url`
/// holds a NUL character, which no C string can carry.
pub fn eop_url_request(series: EopSeries, itrf_year: i32, url: &str) -> (r: Result<
    EopUrlRequest,
    Error,
>)
    ensures
        r is Ok <==> nul_free(encode_utf8(url@)),
        r matches Ok(q) ==> q.series == series && q.itrf_year == itrf_year && q.url@
            == c_string_bytes(encode_utf8(url@)),
        r matches Err(e) ==> (e matches Error::OutOfRange(what) && what@
            == "url contains interior NUL"@),
{
    match to_c_string(url) {
        Some(bytes) => Ok(EopUrlRequest { series, itrf_year, url: bytes }),
        None => Err(Error::OutOfRange("url contains interior NUL")),
    }
}

/// The request that configures `series` to be read from a local
/// pre-downloaded file, given the file's resolved absolute path (`None`
/// when the path could not be resolved): a `file://` URL request, as
/// SuperNOVAS reads local files through the same URL machinery.
///
/// Fails with `OutOfRange("EOP file path could not be resolved")` for an
/// unresolved path, and as [`eop_url_request`] does for the URL otherwise.
pub fn set_eop_file(series: EopSeries, itrf_year: i32, resolved: Option<&str>) -> (r: Result<
    EopUrlRequest,
    Error,
>)
    ensures
        resolved is None ==> (r matches Err(e) && e matches Error::OutOfRange(what) && what@
            == "EOP file path could not be resolved"@),
        resolved matches Some(path) ==> {
            &&& r is Ok <==> nul_free(encode_utf8(eop_file_url_spec(path@)))
            &&& r matches Ok(q) ==> q.series == series && q.itrf_year == itrf_year && q.url@
                == c_string_bytes(encode_utf8(eop_file_url_spec(path@)))
            &&& r matches Err(e) ==> (e matches Error::OutOfRange(what) && what@
                == "url contains interior NUL"@)
        },
{
    match resolved {
        None => Err(Error::OutOfRange("EOP file path could not be resolved")),
        Some(path) => {
            let url = eop_file_url(path);
            eop_url_request(series, itrf_year, url.as_str())
        },
    }
}

/// Each series selects its own `novas_eop_series` value, in the order the
/// C enum declares them: the leap-second list 0, IERS Rapid Service 1, C04
/// 2 and C01 3; and reading a value back gives the same series.
pub proof fn law_eop_series_numbers()
    ensures
        eop_series_code(EopSeries::LeapList) == 0,
        eop_series_code(EopSeries::RapidIau2000) == 1,
        eop_series_code(EopSeries::C04Iau2000) == 2,
        eop_series_code(EopSeries::C01Iau2000) == 3,
        eop_series_of_code(0) == EopSeries::LeapList,
        eop_series_of_code(1) == EopSeries::RapidIau2000,
        eop_series_of_code(2) == EopSeries::C04Iau2000,
        eop_series_of_code(3) == EopSeries::C01Iau2000,
{
}

} // verus!
