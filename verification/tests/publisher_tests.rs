use transcode_progress::publisher::{
    extract_progress_update, format_percent, percent_hundredths, slice_progress_update,
};

#[test]
fn half_way_is_fifty_percent() {
    // 60s of 120s -> 50.00%.
    assert_eq!(percent_hundredths(60_000_000, 120_000_000), 5_000);
}

#[test]
fn zero_elapsed_is_zero_percent() {
    assert_eq!(percent_hundredths(0, 120_000_000), 0);
}

#[test]
fn elapsed_at_total_is_exactly_one_hundred() {
    assert_eq!(percent_hundredths(120_000_000, 120_000_000), 10_000);
}

#[test]
fn elapsed_past_total_is_clamped_to_one_hundred() {
    assert_eq!(percent_hundredths(500_000_000, 120_000_000), 10_000);
    assert_eq!(percent_hundredths(u64::MAX, 1), 10_000);
}

#[test]
fn third_rounds_to_two_decimals() {
    // 1/3 -> 33.3333...% -> 33.33%.
    assert_eq!(percent_hundredths(1, 3), 3_333);
    // 2/3 -> 66.6666...% -> 66.67%.
    assert_eq!(percent_hundredths(2, 3), 6_667);
}

#[test]
fn format_two_decimals() {
    assert_eq!(format_percent(5_000), "50.00");
    assert_eq!(format_percent(10_000), "100.00");
    assert_eq!(format_percent(0), "0.00");
    assert_eq!(format_percent(7), "0.07");
    assert_eq!(format_percent(250), "2.50");
    assert_eq!(format_percent(9_999), "99.99");
}

#[test]
fn slice_updates_carry_the_slice_discriminator() {
    let u = slice_progress_update(5_000, String::from("slicing video"));
    assert_eq!(u.progress, 5_000);
    assert_eq!(u.message, "slicing video");
    assert_eq!(u.task, Some(String::from("slice")));
}

#[test]
fn extract_updates_carry_no_discriminator() {
    let u = extract_progress_update(2_500, String::from("extracting audio"));
    assert_eq!(u.progress, 2_500);
    assert_eq!(u.message, "extracting audio");
    assert_eq!(u.task, None);
}
