//! Task orchestration around the task machines: resolving the embedded
//! tool's path, building the exact argument vector of each task shape,
//! and interpreting terminal outcomes for the caller.

use crate::ProcessResult;
use crate::TaskError;
use crate::text::{append_str, dec_chars, u32_to_string};
use vstd::prelude::*;

verus! {

/// The platforms the embedded tool ships for.
#[derive(Clone, Copy, Debug, PartialEq, Eq, Structural)]
pub enum Platform {
    Windows,
    MacOs,
    Linux,
}

/// Path of the embedded tool binary relative to the resource directory.
pub open spec fn spec_ffmpeg_rel_path(p: Platform) -> Seq<char> {
    match p {
        Platform::Windows => "/bin/windows/ffmpeg.exe"@,
        Platform::MacOs => "/bin/macos/ffmpeg"@,
        Platform::Linux => "/bin/linux/ffmpeg"@,
    }
}

/// Resolves the embedded tool's path under the resource directory for the
/// given platform. `present` reports whether a file exists at that path —
/// a filesystem fact the caller supplies — and when it does not, the tool
/// cannot be launched and the task fails with a spawn error.
pub fn get_embedded_ffmpeg_path(resource_dir: &str, platform: Platform, present: bool) -> (r:
    Result<String, TaskError>)
    ensures
        present ==> (r matches Ok(p) && p@ == resource_dir@ + spec_ffmpeg_rel_path(platform)),
        !present ==> r == Result::<String, TaskError>::Err(TaskError::SpawnError),
{
    let mut path = resource_dir.to_owned();
    match platform {
        Platform::Windows => append_str(&mut path, "/bin/windows/ffmpeg.exe"),
        Platform::MacOs => append_str(&mut path, "/bin/macos/ffmpeg"),
        Platform::Linux => append_str(&mut path, "/bin/linux/ffmpeg"),
    }
    if present {
        Ok(path)
    } else {
        Err(TaskError::SpawnError)
    }
}

/// The argument vector for audio extraction: strip video, encode the audio
/// track, overwrite the output, and stream progress markers to standard
/// output.
pub fn build_extract_args(input_path: &str, output_path: &str) -> (r: Vec<String>)
    ensures
        r@.len() == 14,
        r@[0]@ == "-i"@,
        r@[1]@ == input_path@,
        r@[2]@ == "-vn"@,
        r@[3]@ == "-acodec"@,
        r@[4]@ == "libmp3lame"@,
        r@[5]@ == "-q:a"@,
        r@[6]@ == "2"@,
        r@[7]@ == output_path@,
        r@[8]@ == "-y"@,
        r@[9]@ == "-progress"@,
        r@[10]@ == "pipe:1"@,
        r@[11]@ == "-loglevel"@,
        r@[12]@ == "info"@,
        r@[13]@ == "-stats"@,
{
    let mut v: Vec<String> = Vec::new();
    v.push("-i".to_owned());
    v.push(input_path.to_owned());
    v.push("-vn".to_owned());
    v.push("-acodec".to_owned());
    v.push("libmp3lame".to_owned());
    v.push("-q:a".to_owned());
    v.push("2".to_owned());
    v.push(output_path.to_owned());
    v.push("-y".to_owned());
    v.push("-progress".to_owned());
    v.push("pipe:1".to_owned());
    v.push("-loglevel".to_owned());
    v.push("info".to_owned());
    v.push("-stats".to_owned());
    v
}

/// The argument vector for the synchronous transport-stream slicing: copy
/// the streams without re-encoding, convert the video bitstream format,
/// and segment the output at a fixed interval.
pub fn build_slice_to_ts_args(input_path: &str, output_path: &str) -> (r: Vec<String>)
    ensures
        r@.len() == 14,
        r@[0]@ == "-i"@,
        r@[1]@ == input_path@,
        r@[2]@ == "-c"@,
        r@[3]@ == "copy"@,
        r@[4]@ == "-bsf:v"@,
        r@[5]@ == "h264_mp4toannexb"@,
        r@[6]@ == "-f"@,
        r@[7]@ == "segment"@,
        r@[8]@ == "-segment_time"@,
        r@[9]@ == "100"@,
        r@[10]@ == "-segment_format"@,
        r@[11]@ == "mpegts"@,
        r@[12]@ == output_path@,
        r@[13]@ == "-y"@,
{
    let mut v: Vec<String> = Vec::new();
    v.push("-i".to_owned());
    v.push(input_path.to_owned());
    v.push("-c".to_owned());
    v.push("copy".to_owned());
    v.push("-bsf:v".to_owned());
    v.push("h264_mp4toannexb".to_owned());
    v.push("-f".to_owned());
    v.push("segment".to_owned());
    v.push("-segment_time".to_owned());
    v.push("100".to_owned());
    v.push("-segment_format".to_owned());
    v.push("mpegts".to_owned());
    v.push(output_path.to_owned());
    v.push("-y".to_owned());
    v
}

/// The keyframe-forcing expression for a segment length in seconds:
/// `expr:gte(t,n_forced*N)`.
pub open spec fn spec_keyframe_expr(seconds: nat) -> Seq<char> {
    "expr:gte(t,n_forced*"@ + dec_chars(seconds) + ")"@
}

/// The segment index manifest path inside the output directory.
pub open spec fn spec_playlist_path(dir: Seq<char>) -> Seq<char> {
    dir + "/index.m3u8"@
}

/// The numbered segment file pattern inside the output directory.
pub open spec fn spec_segment_path(dir: Seq<char>) -> Seq<char> {
    dir + "/segment_%03d.ts"@
}

/// The argument vector for segmented slicing: re-encode to a widely
/// compatible baseline profile, force keyframes at the segment interval so
/// segment boundaries align, segment into fixed-length transport-stream
/// chunks, write an appendable index manifest beside them, and stream
/// progress markers to standard output.
pub fn build_slice_args(input_path: &str, output_dir: &str, duration: u32) -> (r: Vec<String>)
    ensures
        r@.len() == 35,
        r@[0]@ == "-i"@,
        r@[1]@ == input_path@,
        r@[2]@ == "-c:v"@,
        r@[3]@ == "libx264"@,
        r@[4]@ == "-preset"@,
        r@[5]@ == "veryfast"@,
        r@[6]@ == "-profile:v"@,
        r@[7]@ == "baseline"@,
        r@[8]@ == "-level"@,
        r@[9]@ == "4.1"@,
        r@[10]@ == "-c:a"@,
        r@[11]@ == "aac"@,
        r@[12]@ == "-ar"@,
        r@[13]@ == "48000"@,
        r@[14]@ == "-b:a"@,
        r@[15]@ == "128k"@,
        r@[16]@ == "-force_key_frames"@,
        r@[17]@ == spec_keyframe_expr(duration as nat),
        r@[18]@ == "-f"@,
        r@[19]@ == "segment"@,
        r@[20]@ == "-segment_time"@,
        r@[21]@ == dec_chars(duration as nat),
        r@[22]@ == "-segment_format"@,
        r@[23]@ == "mpegts"@,
        r@[24]@ == "-segment_list_type"@,
        r@[25]@ == "m3u8"@,
        r@[26]@ == "-segment_list"@,
        r@[27]@ == spec_playlist_path(output_dir@),
        r@[28]@ == "-segment_list_flags"@,
        r@[29]@ == "+live"@,
        r@[30]@ == "-segment_wrap"@,
        r@[31]@ == "0"@,
        r@[32]@ == "-progress"@,
        r@[33]@ == "pipe:1"@,
        r@[34]@ == spec_segment_path(output_dir@),
{
    let dur = u32_to_string(duration);
    let mut keyframes = "expr:gte(t,n_forced*".to_owned();
    append_str(&mut keyframes, dur.as_str());
    append_str(&mut keyframes, ")");
    let mut playlist = output_dir.to_owned();
    append_str(&mut playlist, "/index.m3u8");
    let mut segment = output_dir.to_owned();
    append_str(&mut segment, "/segment_%03d.ts");
    let mut v: Vec<String> = Vec::new();
    v.push("-i".to_owned());
    v.push(input_path.to_owned());
    v.push("-c:v".to_owned());
    v.push("libx264".to_owned());
    v.push("-preset".to_owned());
    v.push("veryfast".to_owned());
    v.push("-profile:v".to_owned());
    v.push("baseline".to_owned());
    v.push("-level".to_owned());
    v.push("4.1".to_owned());
    v.push("-c:a".to_owned());
    v.push("aac".to_owned());
    v.push("-ar".to_owned());
    v.push("48000".to_owned());
    v.push("-b:a".to_owned());
    v.push("128k".to_owned());
    v.push("-force_key_frames".to_owned());
    v.push(keyframes);
    v.push("-f".to_owned());
    v.push("segment".to_owned());
    v.push("-segment_time".to_owned());
    v.push(dur);
    v.push("-segment_format".to_owned());
    v.push("mpegts".to_owned());
    v.push("-segment_list_type".to_owned());
    v.push("m3u8".to_owned());
    v.push("-segment_list".to_owned());
    v.push(playlist);
    v.push("-segment_list_flags".to_owned());
    v.push("+live".to_owned());
    v.push("-segment_wrap".to_owned());
    v.push("0".to_owned());
    v.push("-progress".to_owned());
    v.push("pipe:1".to_owned());
    v.push(segment);
    v
}

/// Interprets the synchronous slicing run's outcome: a successful exit
/// reports where the slices went; a failing one surfaces the tool's
/// captured diagnostic text.
pub fn slice_to_ts_outcome(exit_ok: bool, stderr_text: &str, output_path: &str) -> (r: Result<
    ProcessResult,
    String,
>)
    ensures
        exit_ok ==> (r matches Ok(p) && p.success && p.message@ == "video sliced to: "@
            + output_path@),
        !exit_ok ==> (r matches Err(m) && m@ == "tool error: "@ + stderr_text@),
{
    if exit_ok {
        let mut message = "video sliced to: ".to_owned();
        append_str(&mut message, output_path);
        Ok(ProcessResult { success: true, message })
    } else {
        let mut message = "tool error: ".to_owned();
        append_str(&mut message, stderr_text);
        Err(message)
    }
}

/// The acceptance result returned to the caller as soon as an extraction
/// task has been spawned: extraction is long-running, so the caller gets
/// an acknowledgement, not completion.
pub fn extract_accepted_result(output_path: &str) -> (r: ProcessResult)
    ensures
        r.success,
        r.message@ == "audio extracted to: "@ + output_path@,
{
    let mut message = "audio extracted to: ".to_owned();
    append_str(&mut message, output_path);
    ProcessResult { success: true, message }
}

} // verus!
