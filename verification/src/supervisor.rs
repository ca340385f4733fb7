//! Per-line supervision of the external tool's output: find the progress
//! marker, convert its timecode, and compute the percentage to publish.
//! The progress stream is best-effort: a line without a marker, or with a
//! timecode that does not parse, is skipped, never fatal.

use crate::extractor::{extract_marker, spec_extract_marker};
use crate::publisher::{percent_hundredths, spec_percent_hundredths};
use crate::text::utf8_valid;
use crate::timecode::{parse_time_to_seconds, spec_timecode_micros, spec_timecode_valid};
use vstd::prelude::*;
use vstd::utf8::valid_utf8;

verus! {

/// The marker tag the tool emits on standard output during extraction,
/// when progress is directed to the pipe: the bytes of `out_time`.
pub open spec fn spec_out_time_key() -> Seq<u8> {
    seq![111u8, 117u8, 116u8, 95u8, 116u8, 105u8, 109u8, 101u8]
}

/// The marker tag watched during slicing: the bytes of `time`. Since
/// `out_time` contains `time`, this tag also matches the piped progress
/// lines, exactly as the slicing variant of the original tool output does.
pub open spec fn spec_time_key() -> Seq<u8> {
    seq![116u8, 105u8, 109u8, 101u8]
}

/// The extraction marker tag, `out_time`, as bytes.
pub fn out_time_key() -> (r: Vec<u8>)
    ensures
        r@ == spec_out_time_key(),
{
    let mut v: Vec<u8> = Vec::new();
    v.push(111);
    v.push(117);
    v.push(116);
    v.push(95);
    v.push(116);
    v.push(105);
    v.push(109);
    v.push(101);
    proof {
        assert(v@ =~= spec_out_time_key());
    }
    v
}

/// The slicing marker tag, `time`, as bytes.
pub fn time_key() -> (r: Vec<u8>)
    ensures
        r@ == spec_time_key(),
{
    let mut v: Vec<u8> = Vec::new();
    v.push(116);
    v.push(105);
    v.push(109);
    v.push(101);
    proof {
        assert(v@ =~= spec_time_key());
    }
    v
}

/// What one output line contributes to the progress stream: the clamped
/// percentage of its marker's timecode over the total, or nothing when
/// the line is not valid UTF-8 — an undecodable line is treated as
/// unmatched — has no marker, an empty capture, or an unparseable
/// timecode.
pub open spec fn spec_line_progress(line: Seq<u8>, key: Seq<u8>, total: nat) -> Option<nat>
    recommends
        total > 0,
{
    if !valid_utf8(line) {
        Option::None
    } else {
        spec_decoded_line_progress(line, key, total)
    }
}

/// The contribution of a line already known to decode: the marker search
/// and timecode conversion on its bytes.
pub open spec fn spec_decoded_line_progress(line: Seq<u8>, key: Seq<u8>, total: nat) -> Option<
    nat,
>
    recommends
        total > 0,
{
    match spec_extract_marker(line, key) {
        Some(tc) => if tc.len() > 0 && spec_timecode_valid(tc) && spec_timecode_micros(tc)
            <= u64::MAX {
            Some(spec_percent_hundredths(spec_timecode_micros(tc), total))
        } else {
            None
        },
        None => None,
    }
}

/// Drives one line of the tool's standard output through decoding,
/// marker extraction, timecode conversion and percentage computation.
/// Yields the percentage to publish, in hundredths, or nothing when the
/// line is undecodable or carries no usable marker — in either case the
/// line is silently skipped, never fatal.
pub fn handle_progress_line(line: &[u8], key: &[u8], total_micros: u64) -> (r: Option<u32>)
    requires
        total_micros > 0,
    ensures
        r is Some <==> spec_line_progress(line@, key@, total_micros as nat) is Some,
        r matches Some(p) ==> spec_line_progress(line@, key@, total_micros as nat) == Some(
            p as nat,
        ),
{
    if !utf8_valid(line) {
        return None;
    }
    match extract_marker(line, key) {
        None => None,
        Some(tc) => {
            if tc.len() == 0 {
                return None;
            }
            match parse_time_to_seconds(tc.as_slice()) {
                None => None,
                Some(elapsed) => Some(percent_hundredths(elapsed, total_micros)),
            }
        },
    }
}

} // verus!
