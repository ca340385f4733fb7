//! Duration probing from container metadata: the total duration of a
//! media file is read from its box structure alone, without decoding any
//! payload, and validated before it may drive a percentage. The verified
//! box walk first isolates the movie-header box and rebuilds a minimal
//! fixed-shape stream, so the delegated parser only ever sees input on
//! which its behaviour is fully auditable.

use crate::boxes::{extract_movie_stream, spec_movie_stream, spec_probe_stream};
use crate::TaskError;
use vstd::prelude::*;

verus! {

/// The movie-header pair — duration in timescale units, and the timescale
/// in units per second — that the container parser reads from these
/// bytes' box structure; nothing when the bytes are not a well-formed
/// container. A pure function of the bytes alone.
pub uninterp spec fn mp4_movie_header(data: Seq<u8>) -> Option<(u64, u32)>;

/// Relies on `mp4::Mp4Reader::read_header`, which parses only the
/// container's box metadata from an in-memory reader; the result's public
/// movie-header fields `duration` and `timescale` are handed back as they
/// were parsed. The parse depends on the bytes alone; a parse failure of
/// any kind is reported as no header. The input must be a rebuilt probe
/// stream — a fixed file-type box and a movie box holding exactly one
/// movie-header box, both sized to the end of the stream — because on
/// that shape the parser visits only its file-type, movie and
/// movie-header paths, all of whose reads are bounded and whose loops
/// advance; its deeper box and descriptor loops, which trust declared
/// sizes, are never entered.
#[verifier::external_body]
fn read_movie_header(data: &[u8]) -> (r: Option<(u64, u32)>)
    requires
        spec_probe_stream(data@),
    ensures
        r == mp4_movie_header(data@),
{
    let cursor = std::io::Cursor::new(data);
    match mp4::Mp4Reader::read_header(cursor, data.len() as u64) {
        Ok(m) => Some((m.moov.mvhd.duration, m.moov.mvhd.timescale)),
        Err(_) => None,
    }
}

/// Total duration in microseconds of a movie header: duration units over
/// units-per-second, scaled to microseconds, rounded down.
pub open spec fn spec_duration_micros(duration: nat, timescale: nat) -> nat
    recommends
        timescale > 0,
{
    duration * 1_000_000 / timescale
}

/// Probes the total duration of a media file's bytes from its container
/// metadata. Succeeds exactly when the verified box walk finds a
/// movie-header box, the parser reads from it a header whose timescale is
/// usable, and the duration is non-zero and representable in
/// microseconds: a zero duration cannot serve as the divisor of a
/// percentage, so it is reported as a probe failure, and no progress is
/// ever computed for such a task. Every other malformation — a failed
/// box walk included — is the same probe failure.
pub fn get_video_duration(data: &[u8]) -> (r: Result<u64, TaskError>)
    ensures
        r matches Ok(t) ==> ({
            &&& spec_movie_stream(data@) matches Some(f)
            &&& mp4_movie_header(f) matches Some(h)
            &&& h.1 > 0
            &&& t == spec_duration_micros(h.0 as nat, h.1 as nat)
            &&& t > 0
        }),
        r is Ok <==> ({
            &&& spec_movie_stream(data@) matches Some(f)
            &&& mp4_movie_header(f) matches Some(h)
            &&& h.1 > 0
            &&& 0 < spec_duration_micros(h.0 as nat, h.1 as nat) <= u64::MAX
        }),
        r is Err ==> r == Result::<u64, TaskError>::Err(TaskError::ProbeError),
{
    let stream = match extract_movie_stream(data) {
        None => {
            return Err(TaskError::ProbeError);
        },
        Some(v) => v,
    };
    match read_movie_header(stream.as_slice()) {
        Some((duration, timescale)) => {
            if timescale == 0 {
                return Err(TaskError::ProbeError);
            }
            let micros_wide: u128 = (duration as u128) * 1_000_000 / (timescale as u128);
            proof {
                assert((duration as u128) * 1_000_000 <= u128::MAX) by (nonlinear_arith)
                    requires
                        duration <= u64::MAX,
                ;
                assert(micros_wide == spec_duration_micros(duration as nat, timescale as nat));
            }
            if micros_wide == 0 || micros_wide > u64::MAX as u128 {
                Err(TaskError::ProbeError)
            } else {
                Ok(micros_wide as u64)
            }
        },
        None => Err(TaskError::ProbeError),
    }
}

} // verus!
