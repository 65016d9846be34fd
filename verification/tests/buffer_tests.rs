use supernovas::eop::{eop_url_request, set_eop_file};
use supernovas::EopSeries;
use supernovas::cstring::c_buffer_text;
use supernovas::cstring::{fixed_c_buffer, to_c_string};
use supernovas::eop::eop_file_url;
use supernovas::source::object_name_buffer;
use supernovas::Error;

#[test]
fn name_with_interior_nul_is_rejected() {
    assert!(matches!(object_name_buffer("bad\0name"), Err(Error::Parse)));
}

#[test]
fn name_too_long_is_rejected() {
    let long_name = "x".repeat(60);
    assert!(matches!(object_name_buffer(&long_name), Err(Error::Parse)));
    let exactly_fifty = "x".repeat(50);
    assert!(matches!(object_name_buffer(&exactly_fifty), Err(Error::Parse)));
}

#[test]
fn name_buffer_is_nul_padded() {
    let buf = object_name_buffer("Vega").unwrap();
    assert_eq!(buf.len(), 50);
    assert_eq!(&buf[..4], b"Vega");
    assert!(buf[4..].iter().all(|&b| b == 0));
    let longest = "y".repeat(49);
    let buf = object_name_buffer(&longest).unwrap();
    assert_eq!(buf[48], b'y');
    assert_eq!(buf[49], 0);
}

#[test]
fn angle_text_buffer_limit() {
    assert!(fixed_c_buffer("12:34:56.789", 64).is_ok());
    assert!(matches!(fixed_c_buffer(&"1".repeat(64), 64), Err(Error::Parse)));
}

#[test]
fn c_string_terminates_and_rejects_nul() {
    assert_eq!(to_c_string("abc"), Some(vec![b'a', b'b', b'c', 0]));
    assert_eq!(to_c_string(""), Some(vec![0]));
    assert_eq!(to_c_string("a\0b"), None);
}

#[test]
fn eop_file_url_prefixes_scheme() {
    assert_eq!(
        eop_file_url("/data/finals.all.iau2000.txt"),
        "file:///data/finals.all.iau2000.txt"
    );
}

#[test]
fn buffer_text_reads_back_name() {
    let buf = object_name_buffer("Voyager 1").unwrap();
    assert_eq!(c_buffer_text(&buf), Some("Voyager 1"));
    let full = [b'a', b'b', b'c'];
    assert_eq!(c_buffer_text(&full), Some("abc"));
    let cut = [b'a', 0, b'c'];
    assert_eq!(c_buffer_text(&cut), Some("a"));
    let bad = [0xff, 0xfe, 0];
    assert_eq!(c_buffer_text(&bad), None);
    let accented = object_name_buffer("Étoile").unwrap();
    assert_eq!(c_buffer_text(&accented), Some("Étoile"));
}

#[test]
fn byte_c_string_terminates_and_rejects_nul() {
    assert_eq!(
        supernovas::cstring::bytes_to_c_string(b"/tmp/leap"),
        Some(b"/tmp/leap\0".to_vec())
    );
    assert_eq!(supernovas::cstring::bytes_to_c_string(b"a\0b"), None);
}

#[test]
fn eop_file_request_builds_a_file_url() {
    let q = set_eop_file(EopSeries::RapidIau2000, 2020, Some("/data/finals.all")).unwrap();
    assert_eq!(q.series, EopSeries::RapidIau2000);
    assert_eq!(q.itrf_year, 2020);
    assert_eq!(q.url, b"file:///data/finals.all\0".to_vec());
    assert!(matches!(
        set_eop_file(EopSeries::C04Iau2000, 2020, None),
        Err(Error::OutOfRange("EOP file path could not be resolved"))
    ));
    assert!(matches!(
        set_eop_file(EopSeries::C04Iau2000, 2020, Some("/a\0b")),
        Err(Error::OutOfRange("url contains interior NUL"))
    ));
}

#[test]
fn eop_url_request_rejects_nul() {
    let q = eop_url_request(EopSeries::LeapList, 2014, "https://x/y").unwrap();
    assert_eq!(q.url, b"https://x/y\0".to_vec());
    assert!(matches!(
        eop_url_request(EopSeries::LeapList, 2014, "a\0"),
        Err(Error::OutOfRange("url contains interior NUL"))
    ));
}
