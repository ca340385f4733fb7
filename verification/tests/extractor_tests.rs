use transcode_progress::extractor::extract_marker;
use transcode_progress::supervisor::{out_time_key, time_key};

#[test]
fn marker_found() {
    let r = extract_marker(b"out_time=00:01:00", &out_time_key());
    assert_eq!(r, Some(b"00:01:00".to_vec()));
}

#[test]
fn no_marker_on_ordinary_line() {
    // A line with no `key=` token yields "no marker", never a failure.
    let r = extract_marker(b"frame=  12 fps= 30 q=28.0", &out_time_key());
    assert_eq!(r, None);
}

#[test]
fn tag_substring_without_structure_is_skipped() {
    // The tag bytes without the `=` are not a marker.
    let r = extract_marker(b"out_time still pending", &out_time_key());
    assert_eq!(r, None);
}

#[test]
fn empty_capture_is_reported_empty() {
    let r = extract_marker(b"out_time=", &out_time_key());
    assert_eq!(r, Some(Vec::new()));
}

#[test]
fn first_occurrence_wins() {
    let r = extract_marker(b"a out_time=1 out_time=2", &out_time_key());
    assert_eq!(r, Some(b"1 out_time=2".to_vec()));
}

#[test]
fn time_key_matches_inside_out_time() {
    // `out_time=` contains `time=`, so the slicing tag captures the same
    // timecode from a piped progress line.
    let r = extract_marker(b"out_time=00:01:00", &time_key());
    assert_eq!(r, Some(b"00:01:00".to_vec()));
}

#[test]
fn empty_line_has_no_marker() {
    assert_eq!(extract_marker(b"", &out_time_key()), None);
}

#[test]
fn undecodable_bytes_find_no_marker() {
    // Encoding noise simply fails to match; nothing fails.
    assert_eq!(extract_marker(&[0xff, 0xfe, 0x80], &out_time_key()), None);
}
