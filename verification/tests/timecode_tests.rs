use transcode_progress::timecode::parse_time_to_seconds;

#[test]
fn parse_full_timecode() {
    // 1h + 2min + 3s = 3723 seconds.
    assert_eq!(parse_time_to_seconds(b"01:02:03"), Some(3_723_000_000));
}

#[test]
fn parse_fractional_half_second() {
    assert_eq!(parse_time_to_seconds(b"00:00:00.5"), Some(500_000));
}

#[test]
fn parse_unparseable_word() {
    assert_eq!(parse_time_to_seconds(b"bad"), None);
}

#[test]
fn parse_wrong_component_count() {
    assert_eq!(parse_time_to_seconds(b"1:2"), None);
}

#[test]
fn parse_four_components() {
    assert_eq!(parse_time_to_seconds(b"1:2:3:4"), None);
}

#[test]
fn parse_empty() {
    assert_eq!(parse_time_to_seconds(b""), None);
}

#[test]
fn parse_empty_component() {
    assert_eq!(parse_time_to_seconds(b"1::2"), None);
    assert_eq!(parse_time_to_seconds(b":1:2"), None);
    assert_eq!(parse_time_to_seconds(b"1:2:"), None);
}

#[test]
fn parse_nonnumeric_component() {
    assert_eq!(parse_time_to_seconds(b"aa:bb:cc"), None);
    assert_eq!(parse_time_to_seconds(b"01:02:x3"), None);
    assert_eq!(parse_time_to_seconds(b"-1:02:03"), None);
}

#[test]
fn parse_tool_style_timecode() {
    // The tool emits microsecond-precision timecodes.
    assert_eq!(parse_time_to_seconds(b"00:01:00.000000"), Some(60_000_000));
}

#[test]
fn parse_fraction_beyond_microseconds_truncates() {
    assert_eq!(parse_time_to_seconds(b"00:00:01.2345678"), Some(1_234_567));
    assert_eq!(parse_time_to_seconds(b"00:00:01.234567"), Some(1_234_567));
}

#[test]
fn parse_minutes_and_seconds_need_not_be_under_sixty() {
    assert_eq!(parse_time_to_seconds(b"00:90:00"), Some(5_400_000_000));
}

#[test]
fn parse_fraction_without_integer_part() {
    assert_eq!(parse_time_to_seconds(b"0:0:.5"), Some(500_000));
}

#[test]
fn parse_double_dot_fails() {
    assert_eq!(parse_time_to_seconds(b"0:0:1.2.3"), None);
    assert_eq!(parse_time_to_seconds(b"0:0:."), None);
}

#[test]
fn parse_overflowing_hours_fails() {
    assert_eq!(parse_time_to_seconds(b"99999999999999:00:00"), None);
}
