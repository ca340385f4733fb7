use transcode_progress::orchestrator::{
    build_extract_args, build_slice_args, build_slice_to_ts_args, extract_accepted_result,
    get_embedded_ffmpeg_path, slice_to_ts_outcome, Platform,
};
use transcode_progress::TaskError;

#[test]
fn extract_args_are_exact() {
    let args = build_extract_args("in.mp4", "out.mp3");
    let expected = vec![
        "-i",
        "in.mp4",
        "-vn",
        "-acodec",
        "libmp3lame",
        "-q:a",
        "2",
        "out.mp3",
        "-y",
        "-progress",
        "pipe:1",
        "-loglevel",
        "info",
        "-stats",
    ];
    assert_eq!(args, expected);
}

#[test]
fn slice_to_ts_args_are_exact() {
    let args = build_slice_to_ts_args("in.mp4", "out.ts");
    let expected = vec![
        "-i",
        "in.mp4",
        "-c",
        "copy",
        "-bsf:v",
        "h264_mp4toannexb",
        "-f",
        "segment",
        "-segment_time",
        "100",
        "-segment_format",
        "mpegts",
        "out.ts",
        "-y",
    ];
    assert_eq!(args, expected);
}

#[test]
fn slice_args_carry_segment_interval_and_paths() {
    let args = build_slice_args("in.mp4", "out", 10);
    assert_eq!(args.len(), 35);
    assert_eq!(args[16], "-force_key_frames");
    assert_eq!(args[17], "expr:gte(t,n_forced*10)");
    assert_eq!(args[20], "-segment_time");
    assert_eq!(args[21], "10");
    assert_eq!(args[26], "-segment_list");
    assert_eq!(args[27], "out/index.m3u8");
    assert_eq!(args[29], "+live");
    assert_eq!(args[33], "pipe:1");
    assert_eq!(args[34], "out/segment_%03d.ts");
}

#[test]
fn tool_path_is_resolved_per_platform() {
    assert_eq!(
        get_embedded_ffmpeg_path("res", Platform::Windows, true),
        Ok(String::from("res/bin/windows/ffmpeg.exe"))
    );
    assert_eq!(
        get_embedded_ffmpeg_path("res", Platform::MacOs, true),
        Ok(String::from("res/bin/macos/ffmpeg"))
    );
    assert_eq!(
        get_embedded_ffmpeg_path("res", Platform::Linux, true),
        Ok(String::from("res/bin/linux/ffmpeg"))
    );
}

#[test]
fn missing_tool_is_a_spawn_error() {
    assert_eq!(
        get_embedded_ffmpeg_path("res", Platform::Linux, false),
        Err(TaskError::SpawnError)
    );
}

#[test]
fn slice_to_ts_success_reports_destination() {
    let r = slice_to_ts_outcome(true, "", "out.ts");
    let p = r.unwrap();
    assert!(p.success);
    assert_eq!(p.message, "video sliced to: out.ts");
}

#[test]
fn slice_to_ts_failure_surfaces_diagnostics() {
    let r = slice_to_ts_outcome(false, "boom: no such file", "out.ts");
    assert_eq!(r.unwrap_err(), "tool error: boom: no such file");
}

#[test]
fn extraction_acceptance_reports_destination() {
    let p = extract_accepted_result("out.mp3");
    assert!(p.success);
    assert_eq!(p.message, "audio extracted to: out.mp3");
}
