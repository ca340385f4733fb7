//! The decision cores of the two task shapes, as explicit state machines.
//! A step takes the current state and an observed event and yields the
//! next state and the next action; the caller performs the action — probe,
//! spawn, publish — and feeds the outcome back as the next event. All
//! ordering rules live here, verified: no spawn before the probe is
//! validated, no percentage published after a setup failure.

use crate::TaskError;
use crate::supervisor::{handle_progress_line, out_time_key, spec_line_progress,
    spec_out_time_key, spec_time_key, time_key};
use vstd::prelude::*;

verus! {

// ----- audio extraction -----------------------------------------------

/// Where an extraction task stands. The integer carried by the later
/// phases is the probed total duration in microseconds.
#[derive(Clone, Copy, Debug, PartialEq, Eq, Structural)]
pub enum ExtractState {
    /// Nothing has happened; the tool path is being resolved.
    Init,
    /// The tool was found; the initial zero-percent update goes out next.
    Starting,
    /// The input's total duration is being probed.
    Probing,
    /// The duration is known and validated; the tool is being spawned.
    Spawning(u64),
    /// The tool runs; its output lines drive progress updates.
    Streaming(u64),
    /// The tool's output reached end of stream; only the exit status is
    /// awaited.
    Drained(u64),
    /// The tool exited successfully and the final update went out.
    Done,
    /// The task failed; no further action is ever taken.
    Failed(TaskError),
}

/// What the caller observed and reports back to the extraction machine.
pub enum ExtractEvent {
    /// Whether the embedded tool binary was found.
    ToolResolved(bool),
    /// The initial zero-percent update has been handed to the sink.
    StartEmitted,
    /// The probed total duration in microseconds, if the container's
    /// metadata yielded one.
    Probed(Option<u64>),
    /// Whether the tool process was spawned.
    Spawned(bool),
    /// One complete line of the tool's standard output.
    Line(Vec<u8>),
    /// The tool's standard output reached end of stream.
    Eof,
    /// The tool exited; `true` for a zero exit status.
    Exited(bool),
}

/// What the caller must do next for an extraction task.
#[derive(Clone, Copy, Debug, PartialEq, Eq, Structural)]
pub enum ExtractAction {
    /// Publish the initial zero-percent update.
    PublishInitial,
    /// Probe the input's total duration.
    Probe,
    /// Spawn the tool with the extraction argument vector.
    Spawn,
    /// Publish a progress update at this many hundredths of a percent.
    Publish(u32),
    /// Publish the terminal hundred-percent update.
    PublishComplete,
    /// Nothing to do.
    NoAction,
}

/// A state only ever carries a validated, non-zero total duration.
pub open spec fn extract_state_wf(s: ExtractState) -> bool {
    match s {
        ExtractState::Spawning(t) => t > 0,
        ExtractState::Streaming(t) => t > 0,
        ExtractState::Drained(t) => t > 0,
        _ => true,
    }
}

/// The extraction decision table. Setup failures absorb: from a failed
/// state every event yields no action. A probe that yields no duration,
/// or a zero one, fails the task before any spawn. During streaming, a
/// line's contribution is computed against the `out_time` marker tag,
/// and an exit report is not acted on — the terminal update must wait —
/// until end of stream has been observed, so no buffered line is lost.
pub open spec fn spec_extract_step(s: ExtractState, e: ExtractEvent) -> (
    ExtractState,
    ExtractAction,
) {
    match s {
        ExtractState::Init => match e {
            ExtractEvent::ToolResolved(true) => (
                ExtractState::Starting,
                ExtractAction::PublishInitial,
            ),
            ExtractEvent::ToolResolved(false) => (
                ExtractState::Failed(TaskError::SpawnError),
                ExtractAction::NoAction,
            ),
            _ => (s, ExtractAction::NoAction),
        },
        ExtractState::Starting => match e {
            ExtractEvent::StartEmitted => (ExtractState::Probing, ExtractAction::Probe),
            _ => (s, ExtractAction::NoAction),
        },
        ExtractState::Probing => match e {
            ExtractEvent::Probed(Some(t)) => if t > 0 {
                (ExtractState::Spawning(t), ExtractAction::Spawn)
            } else {
                (ExtractState::Failed(TaskError::ProbeError), ExtractAction::NoAction)
            },
            ExtractEvent::Probed(None) => (
                ExtractState::Failed(TaskError::ProbeError),
                ExtractAction::NoAction,
            ),
            _ => (s, ExtractAction::NoAction),
        },
        ExtractState::Spawning(t) => match e {
            ExtractEvent::Spawned(true) => (ExtractState::Streaming(t), ExtractAction::NoAction),
            ExtractEvent::Spawned(false) => (
                ExtractState::Failed(TaskError::SpawnError),
                ExtractAction::NoAction,
            ),
            _ => (s, ExtractAction::NoAction),
        },
        ExtractState::Streaming(t) => match e {
            ExtractEvent::Line(l) => match spec_line_progress(l@, spec_out_time_key(), t as nat) {
                Some(p) => (ExtractState::Streaming(t), ExtractAction::Publish(p as u32)),
                None => (ExtractState::Streaming(t), ExtractAction::NoAction),
            },
            ExtractEvent::Eof => (ExtractState::Drained(t), ExtractAction::NoAction),
            _ => (s, ExtractAction::NoAction),
        },
        ExtractState::Drained(t) => match e {
            ExtractEvent::Exited(true) => (ExtractState::Done, ExtractAction::PublishComplete),
            ExtractEvent::Exited(false) => (
                ExtractState::Failed(TaskError::ProcessFailure),
                ExtractAction::NoAction,
            ),
            _ => (s, ExtractAction::NoAction),
        },
        ExtractState::Done => (s, ExtractAction::NoAction),
        ExtractState::Failed(_) => (s, ExtractAction::NoAction),
    }
}

/// Advances an extraction task by one observed event.
pub fn extract_step(s: ExtractState, e: &ExtractEvent) -> (r: (ExtractState, ExtractAction))
    requires
        extract_state_wf(s),
    ensures
        r == spec_extract_step(s, *e),
        extract_state_wf(r.0),
{
    match s {
        ExtractState::Init => match e {
            ExtractEvent::ToolResolved(true) => (
                ExtractState::Starting,
                ExtractAction::PublishInitial,
            ),
            ExtractEvent::ToolResolved(false) => (
                ExtractState::Failed(TaskError::SpawnError),
                ExtractAction::NoAction,
            ),
            _ => (s, ExtractAction::NoAction),
        },
        ExtractState::Starting => match e {
            ExtractEvent::StartEmitted => (ExtractState::Probing, ExtractAction::Probe),
            _ => (s, ExtractAction::NoAction),
        },
        ExtractState::Probing => match e {
            ExtractEvent::Probed(Some(t)) => if *t > 0 {
                (ExtractState::Spawning(*t), ExtractAction::Spawn)
            } else {
                (ExtractState::Failed(TaskError::ProbeError), ExtractAction::NoAction)
            },
            ExtractEvent::Probed(None) => (
                ExtractState::Failed(TaskError::ProbeError),
                ExtractAction::NoAction,
            ),
            _ => (s, ExtractAction::NoAction),
        },
        ExtractState::Spawning(t) => match e {
            ExtractEvent::Spawned(true) => (ExtractState::Streaming(t), ExtractAction::NoAction),
            ExtractEvent::Spawned(false) => (
                ExtractState::Failed(TaskError::SpawnError),
                ExtractAction::NoAction,
            ),
            _ => (s, ExtractAction::NoAction),
        },
        ExtractState::Streaming(t) => match e {
            ExtractEvent::Line(l) => {
                let key = out_time_key();
                match handle_progress_line(l.as_slice(), key.as_slice(), t) {
                    Some(p) => (ExtractState::Streaming(t), ExtractAction::Publish(p)),
                    None => (ExtractState::Streaming(t), ExtractAction::NoAction),
                }
            },
            ExtractEvent::Eof => (ExtractState::Drained(t), ExtractAction::NoAction),
            _ => (s, ExtractAction::NoAction),
        },
        ExtractState::Drained(t) => match e {
            ExtractEvent::Exited(true) => (ExtractState::Done, ExtractAction::PublishComplete),
            ExtractEvent::Exited(false) => (
                ExtractState::Failed(TaskError::ProcessFailure),
                ExtractAction::NoAction,
            ),
            _ => (s, ExtractAction::NoAction),
        },
        ExtractState::Done => (s, ExtractAction::NoAction),
        ExtractState::Failed(_) => (s, ExtractAction::NoAction),
    }
}

// ----- video slicing --------------------------------------------------

/// Where a slicing task stands. The integer carried by the later phases
/// is the probed total duration in microseconds.
#[derive(Clone, Copy, Debug, PartialEq, Eq, Structural)]
pub enum SliceState {
    /// Nothing has happened; the output directory is being created.
    Init,
    /// The directory exists; the input's duration is being probed.
    Probing,
    /// The duration is known and validated; the tool path is being
    /// resolved.
    Resolving(u64),
    /// The tool was found and is being spawned.
    Spawning(u64),
    /// The tool runs; its output lines drive tagged progress updates.
    Streaming(u64),
    /// The tool's output reached end of stream; only the exit status is
    /// awaited.
    Drained(u64),
    /// The tool exited successfully and the final update went out.
    Done,
    /// The task failed; no further action is ever taken.
    Failed(TaskError),
}

/// What the caller observed and reports back to the slicing machine.
pub enum SliceEvent {
    /// Whether the output directory exists now.
    DirCreated(bool),
    /// The probed total duration in microseconds, if any.
    Probed(Option<u64>),
    /// Whether the embedded tool binary was found.
    ToolResolved(bool),
    /// Whether the tool process was spawned.
    Spawned(bool),
    /// One complete line of the tool's standard output.
    Line(Vec<u8>),
    /// The tool's standard output reached end of stream.
    Eof,
    /// The tool exited; `true` for a zero exit status.
    Exited(bool),
}

/// What the caller must do next for a slicing task.
#[derive(Clone, Copy, Debug, PartialEq, Eq, Structural)]
pub enum SliceAction {
    /// Probe the input's total duration.
    Probe,
    /// Resolve the embedded tool's path.
    ResolveTool,
    /// Spawn the tool with the slicing argument vector.
    Spawn,
    /// Publish a tagged progress update at this many hundredths of a
    /// percent.
    Publish(u32),
    /// Publish the terminal hundred-percent update.
    PublishComplete,
    /// Nothing to do.
    NoAction,
}

/// A state only ever carries a validated, non-zero total duration.
pub open spec fn slice_state_wf(s: SliceState) -> bool {
    match s {
        SliceState::Resolving(t) => t > 0,
        SliceState::Spawning(t) => t > 0,
        SliceState::Streaming(t) => t > 0,
        SliceState::Drained(t) => t > 0,
        _ => true,
    }
}

/// The slicing decision table. A directory that cannot be created fails
/// the task with an I/O error before anything else is attempted; a probe
/// that yields no duration, or a zero one, fails it before any spawn.
/// During streaming, a line's contribution is computed against the `time`
/// marker tag, and an exit report is not acted on — the terminal update
/// must wait — until end of stream has been observed.
pub open spec fn spec_slice_step(s: SliceState, e: SliceEvent) -> (SliceState, SliceAction) {
    match s {
        SliceState::Init => match e {
            SliceEvent::DirCreated(true) => (SliceState::Probing, SliceAction::Probe),
            SliceEvent::DirCreated(false) => (
                SliceState::Failed(TaskError::IoError),
                SliceAction::NoAction,
            ),
            _ => (s, SliceAction::NoAction),
        },
        SliceState::Probing => match e {
            SliceEvent::Probed(Some(t)) => if t > 0 {
                (SliceState::Resolving(t), SliceAction::ResolveTool)
            } else {
                (SliceState::Failed(TaskError::ProbeError), SliceAction::NoAction)
            },
            SliceEvent::Probed(None) => (
                SliceState::Failed(TaskError::ProbeError),
                SliceAction::NoAction,
            ),
            _ => (s, SliceAction::NoAction),
        },
        SliceState::Resolving(t) => match e {
            SliceEvent::ToolResolved(true) => (SliceState::Spawning(t), SliceAction::Spawn),
            SliceEvent::ToolResolved(false) => (
                SliceState::Failed(TaskError::SpawnError),
                SliceAction::NoAction,
            ),
            _ => (s, SliceAction::NoAction),
        },
        SliceState::Spawning(t) => match e {
            SliceEvent::Spawned(true) => (SliceState::Streaming(t), SliceAction::NoAction),
            SliceEvent::Spawned(false) => (
                SliceState::Failed(TaskError::SpawnError),
                SliceAction::NoAction,
            ),
            _ => (s, SliceAction::NoAction),
        },
        SliceState::Streaming(t) => match e {
            SliceEvent::Line(l) => match spec_line_progress(l@, spec_time_key(), t as nat) {
                Some(p) => (SliceState::Streaming(t), SliceAction::Publish(p as u32)),
                None => (SliceState::Streaming(t), SliceAction::NoAction),
            },
            SliceEvent::Eof => (SliceState::Drained(t), SliceAction::NoAction),
            _ => (s, SliceAction::NoAction),
        },
        SliceState::Drained(t) => match e {
            SliceEvent::Exited(true) => (SliceState::Done, SliceAction::PublishComplete),
            SliceEvent::Exited(false) => (
                SliceState::Failed(TaskError::ProcessFailure),
                SliceAction::NoAction,
            ),
            _ => (s, SliceAction::NoAction),
        },
        SliceState::Done => (s, SliceAction::NoAction),
        SliceState::Failed(_) => (s, SliceAction::NoAction),
    }
}

/// Advances a slicing task by one observed event.
pub fn slice_step(s: SliceState, e: &SliceEvent) -> (r: (SliceState, SliceAction))
    requires
        slice_state_wf(s),
    ensures
        r == spec_slice_step(s, *e),
        slice_state_wf(r.0),
{
    match s {
        SliceState::Init => match e {
            SliceEvent::DirCreated(true) => (SliceState::Probing, SliceAction::Probe),
            SliceEvent::DirCreated(false) => (
                SliceState::Failed(TaskError::IoError),
                SliceAction::NoAction,
            ),
            _ => (s, SliceAction::NoAction),
        },
        SliceState::Probing => match e {
            SliceEvent::Probed(Some(t)) => if *t > 0 {
                (SliceState::Resolving(*t), SliceAction::ResolveTool)
            } else {
                (SliceState::Failed(TaskError::ProbeError), SliceAction::NoAction)
            },
            SliceEvent::Probed(None) => (
                SliceState::Failed(TaskError::ProbeError),
                SliceAction::NoAction,
            ),
            _ => (s, SliceAction::NoAction),
        },
        SliceState::Resolving(t) => match e {
            SliceEvent::ToolResolved(true) => (SliceState::Spawning(t), SliceAction::Spawn),
            SliceEvent::ToolResolved(false) => (
                SliceState::Failed(TaskError::SpawnError),
                SliceAction::NoAction,
            ),
            _ => (s, SliceAction::NoAction),
        },
        SliceState::Spawning(t) => match e {
            SliceEvent::Spawned(true) => (SliceState::Streaming(t), SliceAction::NoAction),
            SliceEvent::Spawned(false) => (
                SliceState::Failed(TaskError::SpawnError),
                SliceAction::NoAction,
            ),
            _ => (s, SliceAction::NoAction),
        },
        SliceState::Streaming(t) => match e {
            SliceEvent::Line(l) => {
                let key = time_key();
                match handle_progress_line(l.as_slice(), key.as_slice(), t) {
                    Some(p) => (SliceState::Streaming(t), SliceAction::Publish(p)),
                    None => (SliceState::Streaming(t), SliceAction::NoAction),
                }
            },
            SliceEvent::Eof => (SliceState::Drained(t), SliceAction::NoAction),
            _ => (s, SliceAction::NoAction),
        },
        SliceState::Drained(t) => match e {
            SliceEvent::Exited(true) => (SliceState::Done, SliceAction::PublishComplete),
            SliceEvent::Exited(false) => (
                SliceState::Failed(TaskError::ProcessFailure),
                SliceAction::NoAction,
            ),
            _ => (s, SliceAction::NoAction),
        },
        SliceState::Done => (s, SliceAction::NoAction),
        SliceState::Failed(_) => (s, SliceAction::NoAction),
    }
}

// ----- ordering laws --------------------------------------------------

/// The actions a slicing run takes from a starting state through a
/// sequence of observed events.
pub open spec fn slice_run_actions(s: SliceState, evs: Seq<SliceEvent>) -> Seq<SliceAction>
    decreases evs.len(),
{
    if evs.len() == 0 {
        Seq::empty()
    } else {
        let step = spec_slice_step(s, evs[0]);
        seq![step.1] + slice_run_actions(step.0, evs.drop_first())
    }
}

/// The actions an extraction run takes from a starting state through a
/// sequence of observed events.
pub open spec fn extract_run_actions(s: ExtractState, evs: Seq<ExtractEvent>) -> Seq<
    ExtractAction,
>
    decreases evs.len(),
{
    if evs.len() == 0 {
        Seq::empty()
    } else {
        let step = spec_extract_step(s, evs[0]);
        seq![step.1] + extract_run_actions(step.0, evs.drop_first())
    }
}

/// A run takes exactly one action per observed event.
pub proof fn lemma_slice_run_len(s: SliceState, evs: Seq<SliceEvent>)
    ensures
        slice_run_actions(s, evs).len() == evs.len(),
    decreases evs.len(),
{
    if evs.len() > 0 {
        lemma_slice_run_len(spec_slice_step(s, evs[0]).0, evs.drop_first());
    }
}

/// A run takes exactly one action per observed event.
pub proof fn lemma_extract_run_len(s: ExtractState, evs: Seq<ExtractEvent>)
    ensures
        extract_run_actions(s, evs).len() == evs.len(),
    decreases evs.len(),
{
    if evs.len() > 0 {
        lemma_extract_run_len(spec_extract_step(s, evs[0]).0, evs.drop_first());
    }
}

/// The terminal update is never published before end of stream: an exit
/// report during streaming is deferred with no action, and the
/// hundred-percent update goes out only once the drained stream's exit
/// status arrives clean.
pub proof fn lemma_extract_terminal_waits_for_eof(t: u64, ok: bool)
    ensures
        spec_extract_step(ExtractState::Streaming(t), ExtractEvent::Exited(ok)) == (
            ExtractState::Streaming(t),
            ExtractAction::NoAction,
        ),
        spec_extract_step(ExtractState::Drained(t), ExtractEvent::Exited(true)) == (
            ExtractState::Done,
            ExtractAction::PublishComplete,
        ),
{
}

/// The slicing machine defers an exit report the same way.
pub proof fn lemma_slice_terminal_waits_for_eof(t: u64, ok: bool)
    ensures
        spec_slice_step(SliceState::Streaming(t), SliceEvent::Exited(ok)) == (
            SliceState::Streaming(t),
            SliceAction::NoAction,
        ),
        spec_slice_step(SliceState::Drained(t), SliceEvent::Exited(true)) == (
            SliceState::Done,
            SliceAction::PublishComplete,
        ),
{
}

/// A failed slicing task is absorbing: whatever else is observed, the
/// state never changes and no further action — no spawn, no publication —
/// is ever taken.
pub proof fn lemma_slice_failed_run_silent(err: TaskError, evs: Seq<SliceEvent>)
    ensures
        forall|i: int|
            0 <= i < evs.len() ==> slice_run_actions(SliceState::Failed(err), evs)[i]
                == SliceAction::NoAction,
    decreases evs.len(),
{
    if evs.len() > 0 {
        lemma_slice_failed_run_silent(err, evs.drop_first());
        lemma_slice_run_len(SliceState::Failed(err), evs.drop_first());
        assert(spec_slice_step(SliceState::Failed(err), evs[0]) == (
            SliceState::Failed(err),
            SliceAction::NoAction,
        ));
        let rest = slice_run_actions(SliceState::Failed(err), evs.drop_first());
        assert(slice_run_actions(SliceState::Failed(err), evs) == seq![SliceAction::NoAction]
            + rest);
        assert forall|i: int|
            0 <= i < evs.len() implies slice_run_actions(SliceState::Failed(err), evs)[i]
            == SliceAction::NoAction by {
            assert(slice_run_actions(SliceState::Failed(err), evs)[i] == (seq![
                SliceAction::NoAction,
            ] + rest)[i]);
            if i > 0 {
                assert((seq![SliceAction::NoAction] + rest)[i] == rest[i - 1]);
                assert(rest[i - 1] == SliceAction::NoAction);
            } else {
                assert((seq![SliceAction::NoAction] + rest)[0] == SliceAction::NoAction);
            }
        }
    }
}

/// A failed extraction task is absorbing in the same way.
pub proof fn lemma_extract_failed_run_silent(err: TaskError, evs: Seq<ExtractEvent>)
    ensures
        forall|i: int|
            0 <= i < evs.len() ==> extract_run_actions(ExtractState::Failed(err), evs)[i]
                == ExtractAction::NoAction,
    decreases evs.len(),
{
    if evs.len() > 0 {
        lemma_extract_failed_run_silent(err, evs.drop_first());
        lemma_extract_run_len(ExtractState::Failed(err), evs.drop_first());
        assert(spec_extract_step(ExtractState::Failed(err), evs[0]) == (
            ExtractState::Failed(err),
            ExtractAction::NoAction,
        ));
        assert(extract_run_actions(ExtractState::Failed(err), evs) == seq![ExtractAction::NoAction]
            + extract_run_actions(ExtractState::Failed(err), evs.drop_first()));
        assert forall|i: int|
            0 <= i < evs.len() implies extract_run_actions(ExtractState::Failed(err), evs)[i]
            == ExtractAction::NoAction by {
            if i > 0 {
                assert(extract_run_actions(ExtractState::Failed(err), evs.drop_first())[i - 1]
                    == ExtractAction::NoAction);
            }
        }
    }
}

/// A slicing task whose output directory cannot be created fails with the
/// I/O error — not a process failure — and then, whatever further events
/// arrive, never spawns the tool and never publishes a percentage.
pub proof fn lemma_slice_dir_failure_never_spawns(evs: Seq<SliceEvent>)
    ensures
        spec_slice_step(SliceState::Init, SliceEvent::DirCreated(false)) == (
            SliceState::Failed(TaskError::IoError),
            SliceAction::NoAction,
        ),
        forall|i: int|
            0 <= i < evs.len() ==> slice_run_actions(
                SliceState::Failed(TaskError::IoError),
                evs,
            )[i] == SliceAction::NoAction,
{
    lemma_slice_failed_run_silent(TaskError::IoError, evs);
}

/// An extraction task whose duration probe fails — or yields zero —
/// fails with the probe error and then, whatever further events arrive,
/// never spawns the tool and never publishes a percentage.
pub proof fn lemma_extract_probe_failure_silent(evs: Seq<ExtractEvent>)
    ensures
        spec_extract_step(ExtractState::Probing, ExtractEvent::Probed(None)) == (
            ExtractState::Failed(TaskError::ProbeError),
            ExtractAction::NoAction,
        ),
        spec_extract_step(ExtractState::Probing, ExtractEvent::Probed(Some(0))) == (
            ExtractState::Failed(TaskError::ProbeError),
            ExtractAction::NoAction,
        ),
        forall|i: int|
            0 <= i < evs.len() ==> extract_run_actions(
                ExtractState::Failed(TaskError::ProbeError),
                evs,
            )[i] == ExtractAction::NoAction,
{
    lemma_extract_failed_run_silent(TaskError::ProbeError, evs);
}

} // verus!
