use transcode_progress::probe::get_video_duration;
use transcode_progress::tasks::{
    extract_step, slice_step, ExtractAction, ExtractEvent, ExtractState, SliceAction, SliceEvent,
    SliceState,
};
use transcode_progress::TaskError;

/// The same minimal container as the probe tests build: 120 seconds.
fn container_120s() -> Vec<u8> {
    let mut v = Vec::new();
    v.extend_from_slice(&16u32.to_be_bytes());
    v.extend_from_slice(b"ftyp");
    v.extend_from_slice(b"isom");
    v.extend_from_slice(&0x200u32.to_be_bytes());
    v.extend_from_slice(&116u32.to_be_bytes());
    v.extend_from_slice(b"moov");
    v.extend_from_slice(&108u32.to_be_bytes());
    v.extend_from_slice(b"mvhd");
    v.extend_from_slice(&[0u8; 4]);
    v.extend_from_slice(&0u32.to_be_bytes());
    v.extend_from_slice(&0u32.to_be_bytes());
    v.extend_from_slice(&1000u32.to_be_bytes());
    v.extend_from_slice(&120_000u32.to_be_bytes());
    v.extend_from_slice(&0x0001_0000u32.to_be_bytes());
    v.extend_from_slice(&0x0100u16.to_be_bytes());
    v.extend_from_slice(&[0u8; 2]);
    v.extend_from_slice(&[0u8; 8]);
    v.extend_from_slice(&[0u8; 36]);
    v.extend_from_slice(&[0u8; 24]);
    v.extend_from_slice(&1u32.to_be_bytes());
    v
}

#[test]
fn extraction_end_to_end_progress() {
    // Probe a container with a known 120s duration, then drive the
    // extraction machine: one minute in publishes 50.00, two minutes in
    // publishes 100.00, and a clean exit publishes the terminal update.
    let total = get_video_duration(&container_120s()).unwrap();
    assert_eq!(total, 120_000_000);

    let (s, a) = extract_step(ExtractState::Init, &ExtractEvent::ToolResolved(true));
    assert_eq!((s, a), (ExtractState::Starting, ExtractAction::PublishInitial));
    let (s, a) = extract_step(s, &ExtractEvent::StartEmitted);
    assert_eq!((s, a), (ExtractState::Probing, ExtractAction::Probe));
    let (s, a) = extract_step(s, &ExtractEvent::Probed(Some(total)));
    assert_eq!((s, a), (ExtractState::Spawning(total), ExtractAction::Spawn));
    let (s, a) = extract_step(s, &ExtractEvent::Spawned(true));
    assert_eq!((s, a), (ExtractState::Streaming(total), ExtractAction::NoAction));

    let (s, a) = extract_step(s, &ExtractEvent::Line(b"out_time=00:01:00".to_vec()));
    assert_eq!(a, ExtractAction::Publish(5_000));
    let (s, a) = extract_step(s, &ExtractEvent::Line(b"out_time=00:02:00".to_vec()));
    assert_eq!(a, ExtractAction::Publish(10_000));
    let (s, a) = extract_step(s, &ExtractEvent::Eof);
    assert_eq!((s, a), (ExtractState::Drained(total), ExtractAction::NoAction));
    let (s, a) = extract_step(s, &ExtractEvent::Exited(true));
    assert_eq!((s, a), (ExtractState::Done, ExtractAction::PublishComplete));
}

#[test]
fn extraction_skips_unusable_lines() {
    let s = ExtractState::Streaming(120_000_000);
    let (_, a) = extract_step(s, &ExtractEvent::Line(b"frame=  12 fps= 30".to_vec()));
    assert_eq!(a, ExtractAction::NoAction);
    let (_, a) = extract_step(s, &ExtractEvent::Line(b"out_time=N/A".to_vec()));
    assert_eq!(a, ExtractAction::NoAction);
}

#[test]
fn undecodable_line_publishes_nothing() {
    let mut line = vec![0xffu8];
    line.extend_from_slice(b"time=00:01:00");
    let (_, a) = slice_step(SliceState::Streaming(120_000_000), &SliceEvent::Line(line.clone()));
    assert_eq!(a, SliceAction::NoAction);
    let mut line = vec![0xfeu8];
    line.extend_from_slice(b"out_time=00:01:00");
    let (_, a) = extract_step(ExtractState::Streaming(120_000_000), &ExtractEvent::Line(line));
    assert_eq!(a, ExtractAction::NoAction);
}

#[test]
fn probe_failure_fails_before_spawn_and_stays_silent() {
    // A failed probe fails the task; nothing is spawned and no progress
    // is ever published afterwards.
    let (s, a) = extract_step(ExtractState::Probing, &ExtractEvent::Probed(None));
    assert_eq!(
        (s, a),
        (
            ExtractState::Failed(TaskError::ProbeError),
            ExtractAction::NoAction
        )
    );
    let (s, a) = extract_step(s, &ExtractEvent::Line(b"out_time=00:01:00".to_vec()));
    assert_eq!(
        (s, a),
        (
            ExtractState::Failed(TaskError::ProbeError),
            ExtractAction::NoAction
        )
    );
    let (_, a) = extract_step(s, &ExtractEvent::Exited(true));
    assert_eq!(a, ExtractAction::NoAction);
}

#[test]
fn zero_duration_probe_is_a_probe_failure() {
    let (s, _) = extract_step(ExtractState::Probing, &ExtractEvent::Probed(Some(0)));
    assert_eq!(s, ExtractState::Failed(TaskError::ProbeError));
}

#[test]
fn tool_exit_failure_is_a_process_failure() {
    let (s, a) = extract_step(ExtractState::Streaming(120_000_000), &ExtractEvent::Eof);
    assert_eq!((s, a), (ExtractState::Drained(120_000_000), ExtractAction::NoAction));
    let (s, a) = extract_step(s, &ExtractEvent::Exited(false));
    assert_eq!(s, ExtractState::Failed(TaskError::ProcessFailure));
    assert_eq!(a, ExtractAction::NoAction);
}

#[test]
fn exit_before_end_of_stream_is_deferred() {
    // The terminal update waits for the draining of standard output: an
    // exit report during streaming changes nothing, and completion is
    // published only after end of stream.
    let (s, a) = extract_step(
        ExtractState::Streaming(120_000_000),
        &ExtractEvent::Exited(true),
    );
    assert_eq!((s, a), (ExtractState::Streaming(120_000_000), ExtractAction::NoAction));
    let (s, _) = extract_step(s, &ExtractEvent::Eof);
    let (s, a) = extract_step(s, &ExtractEvent::Exited(true));
    assert_eq!((s, a), (ExtractState::Done, ExtractAction::PublishComplete));
}

#[test]
fn slice_dir_failure_is_io_error_and_never_spawns() {
    // Directory creation failure is an I/O error, not a process failure,
    // and the tool is never spawned afterwards.
    let (s, a) = slice_step(SliceState::Init, &SliceEvent::DirCreated(false));
    assert_eq!(
        (s, a),
        (SliceState::Failed(TaskError::IoError), SliceAction::NoAction)
    );
    let (s, a) = slice_step(s, &SliceEvent::Probed(Some(120_000_000)));
    assert_eq!(
        (s, a),
        (SliceState::Failed(TaskError::IoError), SliceAction::NoAction)
    );
    let (_, a) = slice_step(s, &SliceEvent::Spawned(true));
    assert_eq!(a, SliceAction::NoAction);
}

#[test]
fn slice_happy_path_publishes_tagged_progress() {
    let (s, a) = slice_step(SliceState::Init, &SliceEvent::DirCreated(true));
    assert_eq!((s, a), (SliceState::Probing, SliceAction::Probe));
    let (s, a) = slice_step(s, &SliceEvent::Probed(Some(120_000_000)));
    assert_eq!(
        (s, a),
        (SliceState::Resolving(120_000_000), SliceAction::ResolveTool)
    );
    let (s, a) = slice_step(s, &SliceEvent::ToolResolved(true));
    assert_eq!((s, a), (SliceState::Spawning(120_000_000), SliceAction::Spawn));
    let (s, a) = slice_step(s, &SliceEvent::Spawned(true));
    assert_eq!(
        (s, a),
        (SliceState::Streaming(120_000_000), SliceAction::NoAction)
    );
    let (s, a) = slice_step(s, &SliceEvent::Line(b"out_time=00:00:30".to_vec()));
    assert_eq!(a, SliceAction::Publish(2_500));
    let (s, a) = slice_step(s, &SliceEvent::Eof);
    assert_eq!((s, a), (SliceState::Drained(120_000_000), SliceAction::NoAction));
    let (_, a) = slice_step(s, &SliceEvent::Exited(true));
    assert_eq!(a, SliceAction::PublishComplete);
}
