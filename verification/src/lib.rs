//! Orchestration core for an external media-transcoding tool: duration
//! probing from container metadata, incremental line reading of the tool's
//! streaming output, progress-marker extraction, timecode conversion,
//! clamped percentage publication, and the decision logic of the two task
//! shapes (audio extraction and video slicing).

pub mod boxes;
pub mod extractor;
pub mod linereader;
pub mod orchestrator;
pub mod probe;
pub mod publisher;
pub mod supervisor;
pub mod tasks;
pub mod text;
pub mod timecode;

use vstd::prelude::*;

verus! {

/// The ways a task can fail. Setup failures — probing, spawning, output
/// directory creation — abort a task before any percentage is published; a
/// non-zero tool exit surfaces as a terminal process failure. A malformed
/// progress line is never an error: it is silently skipped.
#[derive(Clone, Copy, Debug, PartialEq, Eq, Structural)]
pub enum TaskError {
    /// The total duration could not be read from the container metadata,
    /// or was zero and so cannot drive a percentage.
    ProbeError,
    /// The external tool is missing or could not be launched.
    SpawnError,
    /// The slicing output directory could not be created.
    IoError,
    /// The external tool exited with a non-zero status.
    ProcessFailure,
}

/// Terminal outcome of an accepted task: a success flag with a
/// human-readable message.
#[derive(Debug)]
pub struct ProcessResult {
    pub success: bool,
    pub message: String,
}

} // verus!
