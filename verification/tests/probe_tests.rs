use transcode_progress::probe::get_video_duration;
use transcode_progress::TaskError;

/// A minimal container: an `ftyp` box and a `moov` box holding only a
/// version-0 movie header with the given timescale and duration.
fn minimal_container(timescale: u32, duration: u32) -> Vec<u8> {
    let mut v = Vec::new();
    v.extend_from_slice(&16u32.to_be_bytes());
    v.extend_from_slice(b"ftyp");
    v.extend_from_slice(b"isom");
    v.extend_from_slice(&0x200u32.to_be_bytes());
    v.extend_from_slice(&116u32.to_be_bytes());
    v.extend_from_slice(b"moov");
    v.extend_from_slice(&108u32.to_be_bytes());
    v.extend_from_slice(b"mvhd");
    v.extend_from_slice(&[0u8; 4]); // version 0, no flags
    v.extend_from_slice(&0u32.to_be_bytes()); // creation time
    v.extend_from_slice(&0u32.to_be_bytes()); // modification time
    v.extend_from_slice(&timescale.to_be_bytes());
    v.extend_from_slice(&duration.to_be_bytes());
    v.extend_from_slice(&0x0001_0000u32.to_be_bytes()); // rate 1.0
    v.extend_from_slice(&0x0100u16.to_be_bytes()); // volume 1.0
    v.extend_from_slice(&[0u8; 2]); // reserved
    v.extend_from_slice(&[0u8; 8]); // reserved
    v.extend_from_slice(&[0u8; 36]); // matrix
    v.extend_from_slice(&[0u8; 24]); // pre-defined
    v.extend_from_slice(&1u32.to_be_bytes()); // next track id
    v
}

#[test]
fn plain_text_is_not_a_container() {
    let data = b"this is plain text, not a media container";
    assert_eq!(get_video_duration(data), Err(TaskError::ProbeError));
}

#[test]
fn empty_input_fails() {
    assert_eq!(get_video_duration(b""), Err(TaskError::ProbeError));
}

#[test]
fn known_duration_is_probed() {
    // 120_000 units at 1000 units per second: 120 seconds.
    let data = minimal_container(1000, 120_000);
    assert_eq!(get_video_duration(&data), Ok(120_000_000));
}

#[test]
fn zero_duration_is_a_probe_failure() {
    let data = minimal_container(1000, 0);
    assert_eq!(get_video_duration(&data), Err(TaskError::ProbeError));
}

#[test]
fn zero_timescale_is_a_probe_failure() {
    let data = minimal_container(0, 120_000);
    assert_eq!(get_video_duration(&data), Err(TaskError::ProbeError));
}

#[test]
fn nested_zero_size_box_is_rejected() {
    // A moov child whose declared size is zero would keep the parser's
    // child loop from advancing; the structural scan refuses it.
    let mut data = Vec::new();
    data.extend_from_slice(&16u32.to_be_bytes());
    data.extend_from_slice(b"ftyp");
    data.extend_from_slice(b"isom");
    data.extend_from_slice(&0x200u32.to_be_bytes());
    data.extend_from_slice(&16u32.to_be_bytes());
    data.extend_from_slice(b"moov");
    data.extend_from_slice(&0u32.to_be_bytes());
    data.extend_from_slice(b"free");
    assert_eq!(get_video_duration(&data), Err(TaskError::ProbeError));
}

#[test]
fn nested_short_box_is_rejected() {
    // A nested box shorter than its own header would underflow the
    // parser's size arithmetic; the scan refuses it.
    let mut data = Vec::new();
    data.extend_from_slice(&16u32.to_be_bytes());
    data.extend_from_slice(b"ftyp");
    data.extend_from_slice(b"isom");
    data.extend_from_slice(&0x200u32.to_be_bytes());
    data.extend_from_slice(&16u32.to_be_bytes());
    data.extend_from_slice(b"moov");
    data.extend_from_slice(&4u32.to_be_bytes());
    data.extend_from_slice(b"mvhd");
    assert_eq!(get_video_duration(&data), Err(TaskError::ProbeError));
}

#[test]
fn truncated_container_fails() {
    let mut data = minimal_container(1000, 120_000);
    data.truncate(40);
    assert_eq!(get_video_duration(&data), Err(TaskError::ProbeError));
}
