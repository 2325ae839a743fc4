//! The processing pipeline: from "selected" through "verified" and
//! "transformed" to "committed or unchanged".
//!
//! The pipeline is a state machine.  The surrounding program performs each
//! requested [`PipelineAction`] (read the header, run the normalization
//! transform, commit the result) and feeds what happened back as a
//! [`PipelineEvent`]; every decision between those actions is taken here.
//! The original file is never written except through a single `Commit`
//! action, so the laws at the end of this module pin down when a commit can
//! happen at all.

use vstd::prelude::*;
use crate::errors::PycError;
use crate::header::{MagicHeader, spec_header_of};
use crate::version::{spec_verify, verify_python3_pyc};

verus! {

/// The result of running the pipeline on one file.
#[derive(Clone, Copy, PartialEq, Eq, Structural, Debug)]
pub enum ProcessingOutcome {
    /// The file is a valid pyc artifact of an ineligible version; nothing
    /// was done.
    Skipped,
    /// The transform ran and produced no difference; the file was left as
    /// it was.
    Unchanged,
    /// The transform produced a different artifact, now committed in place
    /// of the original.
    Modified,
}

/// What the surrounding program is asked to do next.
#[derive(Clone, Copy, PartialEq, Eq, Structural, Debug)]
pub enum PipelineAction {
    /// Read the first four bytes of the candidate file.
    ReadHeader,
    /// Invoke the normalization transform on the candidate path.
    RunTransform,
    /// Atomically replace the original with the derived artifact.
    Commit,
    /// Nothing more to do: the pipeline is in a terminal state.
    Stop,
}

/// What the surrounding program reports back after performing an action.
pub enum PipelineEvent {
    /// The bytes the initial read produced; possibly fewer than four.
    HeaderBytes(Vec<u8>),
    /// Reading the candidate file failed.
    ReadFailed,
    /// The transform finished; `true` means it produced a derived artifact.
    TransformDone(bool),
    /// The transform failed (possibly after partially writing a derived
    /// artifact; the original is untouched either way).
    TransformFailed,
    /// The atomic replacement succeeded.
    CommitDone,
    /// The atomic replacement failed, leaving the original in place.
    CommitFailed,
}

/// Where the pipeline stands between actions.
#[derive(Clone, Copy, PartialEq, Eq, Structural, Debug)]
pub enum PipelineState {
    /// A `ReadHeader` action is outstanding.
    AwaitingHeader,
    /// The header verified as eligible; a `RunTransform` action is
    /// outstanding.
    AwaitingTransform,
    /// The transform produced a derived artifact; a `Commit` action is
    /// outstanding.
    AwaitingCommit,
    /// Terminal: the pipeline finished with this outcome.
    Done(ProcessingOutcome),
    /// Terminal: the pipeline failed; the error is surfaced to the caller.
    Failed(PycError),
}

/// How the pipeline reacts to header bytes: too few bytes are a truncated
/// input, then the header must verify as an eligible pyc header before the
/// transform is requested; an ineligible version is a skip, not an error.
pub open spec fn spec_step_header(data: Seq<u8>) -> (PipelineState, PipelineAction) {
    if data.len() < 4 {
        (PipelineState::Failed(PycError::TruncatedInput), PipelineAction::Stop)
    } else {
        match spec_verify(spec_header_of(data)) {
            Err(e) => (PipelineState::Failed(e), PipelineAction::Stop),
            Ok(false) => (PipelineState::Done(ProcessingOutcome::Skipped), PipelineAction::Stop),
            Ok(true) => (PipelineState::AwaitingTransform, PipelineAction::RunTransform),
        }
    }
}

/// The transition function of the pipeline.
///
/// Terminal states absorb every event; an event that does not answer the
/// outstanding action leaves the state unchanged and asks for nothing.
pub open spec fn spec_step(s: PipelineState, e: PipelineEvent) -> (PipelineState, PipelineAction) {
    match s {
        PipelineState::AwaitingHeader => match e {
            PipelineEvent::HeaderBytes(data) => spec_step_header(data@),
            PipelineEvent::ReadFailed => (PipelineState::Failed(PycError::Io), PipelineAction::Stop),
            _ => (s, PipelineAction::Stop),
        },
        PipelineState::AwaitingTransform => match e {
            PipelineEvent::TransformDone(false) => (
                PipelineState::Done(ProcessingOutcome::Unchanged),
                PipelineAction::Stop,
            ),
            PipelineEvent::TransformDone(true) => (
                PipelineState::AwaitingCommit,
                PipelineAction::Commit,
            ),
            PipelineEvent::TransformFailed => (
                PipelineState::Failed(PycError::TransformFailed),
                PipelineAction::Stop,
            ),
            _ => (s, PipelineAction::Stop),
        },
        PipelineState::AwaitingCommit => match e {
            PipelineEvent::CommitDone => (
                PipelineState::Done(ProcessingOutcome::Modified),
                PipelineAction::Stop,
            ),
            PipelineEvent::CommitFailed => (PipelineState::Failed(PycError::Io), PipelineAction::Stop),
            _ => (s, PipelineAction::Stop),
        },
        PipelineState::Done(_) => (s, PipelineAction::Stop),
        PipelineState::Failed(_) => (s, PipelineAction::Stop),
    }
}

/// Starts the pipeline on one candidate file.
pub fn pipeline_start() -> (r: (PipelineState, PipelineAction))
    ensures
        r == (PipelineState::AwaitingHeader, PipelineAction::ReadHeader),
{
    (PipelineState::AwaitingHeader, PipelineAction::ReadHeader)
}

/// Advances the pipeline by one event.
pub fn pipeline_step(s: &PipelineState, e: &PipelineEvent) -> (r: (PipelineState, PipelineAction))
    ensures
        r == spec_step(*s, *e),
{
    match s {
        PipelineState::AwaitingHeader => match e {
            PipelineEvent::HeaderBytes(data) => {
                if data.len() < 4 {
                    (PipelineState::Failed(PycError::TruncatedInput), PipelineAction::Stop)
                } else {
                    let h = MagicHeader { b0: data[0], b1: data[1], b2: data[2], b3: data[3] };
                    match verify_python3_pyc(&h) {
                        Err(err) => (PipelineState::Failed(err), PipelineAction::Stop),
                        Ok(false) => (
                            PipelineState::Done(ProcessingOutcome::Skipped),
                            PipelineAction::Stop,
                        ),
                        Ok(true) => (PipelineState::AwaitingTransform, PipelineAction::RunTransform),
                    }
                }
            },
            PipelineEvent::ReadFailed => (PipelineState::Failed(PycError::Io), PipelineAction::Stop),
            _ => (*s, PipelineAction::Stop),
        },
        PipelineState::AwaitingTransform => match e {
            PipelineEvent::TransformDone(false) => (
                PipelineState::Done(ProcessingOutcome::Unchanged),
                PipelineAction::Stop,
            ),
            PipelineEvent::TransformDone(true) => (
                PipelineState::AwaitingCommit,
                PipelineAction::Commit,
            ),
            PipelineEvent::TransformFailed => (
                PipelineState::Failed(PycError::TransformFailed),
                PipelineAction::Stop,
            ),
            _ => (*s, PipelineAction::Stop),
        },
        PipelineState::AwaitingCommit => match e {
            PipelineEvent::CommitDone => (
                PipelineState::Done(ProcessingOutcome::Modified),
                PipelineAction::Stop,
            ),
            PipelineEvent::CommitFailed => (
                PipelineState::Failed(PycError::Io),
                PipelineAction::Stop,
            ),
            _ => (*s, PipelineAction::Stop),
        },
        PipelineState::Done(o) => (PipelineState::Done(*o), PipelineAction::Stop),
        PipelineState::Failed(err) => (PipelineState::Failed(*err), PipelineAction::Stop),
    }
}

/// The state after feeding `events`, in order, from state `s`.
pub open spec fn spec_run_from(s: PipelineState, events: Seq<PipelineEvent>) -> PipelineState
    decreases events.len(),
{
    if events.len() == 0 {
        s
    } else {
        spec_run_from(spec_step(s, events[0]).0, events.drop_first())
    }
}

/// Whether feeding `events`, in order, from state `s` ever asks the
/// surrounding program to commit.
pub open spec fn spec_emits_commit(s: PipelineState, events: Seq<PipelineEvent>) -> bool
    decreases events.len(),
{
    events.len() > 0 && {
        ||| spec_step(s, events[0]).1 == PipelineAction::Commit
        ||| spec_emits_commit(spec_step(s, events[0]).0, events.drop_first())
    }
}

/// A header whose trailer bytes at positions 2-3 are not `{0x0D, 0x0A}`
/// fails the pipeline with `NotAPycFile`, whatever bytes 0-1 hold.
pub proof fn lemma_bad_trailer_fails(data: Seq<u8>)
    requires
        data.len() >= 4,
        data[2] != 0x0D || data[3] != 0x0A,
    ensures
        spec_step_header(data) == (
            PipelineState::Failed(PycError::NotAPycFile(spec_header_of(data))),
            PipelineAction::Stop,
        ),
{
}

/// Atomicity of the original file: a commit is requested only in answer to
/// a transform that reported a derived artifact.  A run in which the
/// collaborator never reports success — in particular one where it fails
/// after partially writing a derived artifact — never asks for a commit,
/// so the original path is never written.
pub proof fn lemma_commit_needs_artifact(s: PipelineState, events: Seq<PipelineEvent>)
    requires
        forall|i: int|
            0 <= i < events.len() ==> events[i] != PipelineEvent::TransformDone(true),
    ensures
        !spec_emits_commit(s, events),
    decreases events.len(),
{
    if events.len() > 0 {
        assert(events[0] != PipelineEvent::TransformDone(true));
        assert(spec_step(s, events[0]).1 != PipelineAction::Commit);
        assert(forall|i: int|
            0 <= i < events.drop_first().len()
                ==> events.drop_first()[i] != PipelineEvent::TransformDone(true));
        lemma_commit_needs_artifact(spec_step(s, events[0]).0, events.drop_first());
    }
}

/// Idempotence on an already-normalized file: when the header bytes verify
/// as eligible and the transform reports no derived artifact, the run ends
/// in `Unchanged` and never asks for a commit.  Such a run performs no
/// write at all, so the file's bytes afterwards are identical to its bytes
/// before; a second run therefore sees the same bytes and the same
/// transform verdict, and this law applies to it unchanged — the outcome is
/// `Unchanged` both times.
pub proof fn lemma_unchanged_is_idempotent(data: Vec<u8>, events: Seq<PipelineEvent>)
    requires
        data@.len() >= 4,
        spec_verify(spec_header_of(data@)) == Ok::<bool, PycError>(true),
        events =~= seq![
            PipelineEvent::HeaderBytes(data),
            PipelineEvent::TransformDone(false),
        ],
    ensures
        spec_run_from(PipelineState::AwaitingHeader, events)
            == PipelineState::Done(ProcessingOutcome::Unchanged),
        !spec_emits_commit(PipelineState::AwaitingHeader, events),
{
    reveal_with_fuel(spec_run_from, 3);
    reveal_with_fuel(spec_emits_commit, 3);
    let rest = events.drop_first();
    assert(spec_step(PipelineState::AwaitingHeader, events[0])
        == (PipelineState::AwaitingTransform, PipelineAction::RunTransform));
    assert(rest[0] == PipelineEvent::TransformDone(false));
    assert(spec_step(PipelineState::AwaitingTransform, rest[0])
        == (PipelineState::Done(ProcessingOutcome::Unchanged), PipelineAction::Stop));
    assert(rest.drop_first().len() == 0);
}

} // verus!
