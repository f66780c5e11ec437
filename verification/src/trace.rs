//! Logical schedule of one round.
//!
//! Every round records the same phases in the same order and the same number of
//! reads, frames and bytes, whatever it was asked and whatever it found.

use crate::profile::AccessBudget;
use vstd::prelude::*;

verus! {

/// Phases of a round, in their order.
#[derive(Debug, Clone, Copy, PartialEq, Eq, Structural)]
pub enum RuntimePhase {
    RequestDecode,
    NonceAcquisition,
    TokenOpen,
    ReplayGuard,
    ReadinessSelect,
    EngineExecution,
    ResultNormalization,
    TokenIssue,
    ResponseEncode,
    Completion,
}

/// Number of phases of a round.
pub const RUNTIME_PHASE_COUNT: usize = 10;

impl RuntimePhase {
    /// Position of the phase in a round.
    pub open spec fn position(self) -> usize {
        match self {
            Self::RequestDecode => 0,
            Self::NonceAcquisition => 1,
            Self::TokenOpen => 2,
            Self::ReplayGuard => 3,
            Self::ReadinessSelect => 4,
            Self::EngineExecution => 5,
            Self::ResultNormalization => 6,
            Self::TokenIssue => 7,
            Self::ResponseEncode => 8,
            Self::Completion => 9,
        }
    }

    pub fn ordinal(self) -> (ordinal: usize)
        ensures
            ordinal == self.position(),
    {
        match self {
            Self::RequestDecode => 0,
            Self::NonceAcquisition => 1,
            Self::TokenOpen => 2,
            Self::ReplayGuard => 3,
            Self::ReadinessSelect => 4,
            Self::EngineExecution => 5,
            Self::ResultNormalization => 6,
            Self::TokenIssue => 7,
            Self::ResponseEncode => 8,
            Self::Completion => 9,
        }
    }
}

/// How a round ends.
#[derive(Debug, Clone, Copy, PartialEq, Eq, Structural)]
pub enum CompletionShape {
    UnaryFixedEnvelope,
}

/// A step was recorded out of order, or the finished schedule is not the budgeted one.
#[derive(Debug, Clone, Copy, PartialEq, Eq, Structural)]
pub struct TraceError;

/// Finished schedule of one round.
#[derive(Debug, Clone, Copy, PartialEq, Eq, Structural)]
pub struct AccessTrace {
    pub runtime_phases: usize,
    pub store_reads: usize,
    pub recent_snapshot_reads: usize,
    pub replay_reads: usize,
    pub replay_writes: usize,
    pub request_frames: usize,
    pub response_frames: usize,
    pub request_bytes: usize,
    pub response_bytes: usize,
    pub completion: CompletionShape,
}

/// The one schedule that a budget admits.
pub open spec fn budgeted_trace(budget: AccessBudget) -> AccessTrace {
    AccessTrace {
        runtime_phases: RUNTIME_PHASE_COUNT,
        store_reads: budget.store_reads,
        recent_snapshot_reads: budget.recent_snapshot_reads,
        replay_reads: 1,
        replay_writes: 1,
        request_frames: 1,
        response_frames: 1,
        request_bytes: budget.envelope_bytes,
        response_bytes: budget.envelope_bytes,
        completion: CompletionShape::UnaryFixedEnvelope,
    }
}

/// Schedule of a round so far.
#[derive(Debug, Clone, Copy, PartialEq, Eq, Structural)]
pub struct TraceRecorder {
    pub phases: usize,
    pub store_reads: usize,
    pub recent_snapshot_reads: usize,
    pub recent_snapshot_complete: bool,
    pub replay_accesses: usize,
    pub request_frames: usize,
    pub request_bytes: usize,
    pub response_frames: usize,
    pub response_bytes: usize,
    pub completed: bool,
}

/// Nothing recorded yet.
pub open spec fn empty_trace() -> TraceRecorder {
    TraceRecorder {
        phases: 0,
        store_reads: 0,
        recent_snapshot_reads: 0,
        recent_snapshot_complete: false,
        replay_accesses: 0,
        request_frames: 0,
        request_bytes: 0,
        response_frames: 0,
        response_bytes: 0,
        completed: false,
    }
}

impl TraceRecorder {
    pub fn new() -> (recorder: Self)
        ensures
            recorder == empty_trace(),
    {
        TraceRecorder {
            phases: 0,
            store_reads: 0,
            recent_snapshot_reads: 0,
            recent_snapshot_complete: false,
            replay_accesses: 0,
            request_frames: 0,
            request_bytes: 0,
            response_frames: 0,
            response_bytes: 0,
            completed: false,
        }
    }

    /// Records the one request frame.
    pub fn record_request_frame(&mut self, bytes: usize) -> (result: Result<(), TraceError>)
        ensures
            result is Ok <==> old(self).request_frames == 0,
            *final(self) == if result is Ok {
                TraceRecorder { request_frames: 1, request_bytes: bytes, ..*old(self) }
            } else {
                *old(self)
            },
    {
        if self.request_frames != 0 {
            return Err(TraceError);
        }
        self.request_frames = 1;
        self.request_bytes = bytes;
        Ok(())
    }

    /// Records the one response frame.
    pub fn record_response_frame(&mut self, bytes: usize) -> (result: Result<(), TraceError>)
        ensures
            result is Ok <==> old(self).response_frames == 0,
            *final(self) == if result is Ok {
                TraceRecorder { response_frames: 1, response_bytes: bytes, ..*old(self) }
            } else {
                *old(self)
            },
    {
        if self.response_frames != 0 {
            return Err(TraceError);
        }
        self.response_frames = 1;
        self.response_bytes = bytes;
        Ok(())
    }

    /// Records the next phase.
    pub fn record_runtime_phase(&mut self, phase: RuntimePhase) -> (result: Result<(), TraceError>)
        ensures
            result is Ok <==> old(self).phases == phase.position(),
            *final(self) == if result is Ok {
                TraceRecorder { phases: (phase.position() + 1) as usize, ..*old(self) }
            } else {
                *old(self)
            },
    {
        let ordinal: usize = phase.ordinal();
        if self.phases != ordinal {
            return Err(TraceError);
        }
        self.phases = ordinal + 1;
        Ok(())
    }

    /// Records the one replay read and write.
    pub fn record_replay_access(&mut self) -> (result: Result<(), TraceError>)
        ensures
            result is Ok <==> old(self).replay_accesses == 0,
            *final(self) == if result is Ok {
                TraceRecorder { replay_accesses: 1, ..*old(self) }
            } else {
                *old(self)
            },
    {
        if self.replay_accesses != 0 {
            return Err(TraceError);
        }
        self.replay_accesses = 1;
        Ok(())
    }

    /// Records the read of the next recent-snapshot slot.
    pub fn record_recent_snapshot_read(&mut self, ordinal: usize) -> (result: Result<
        (),
        TraceError,
    >)
        ensures
            result is Ok <==> old(self).recent_snapshot_reads == ordinal && ordinal < usize::MAX
                && !old(self).recent_snapshot_complete,
            *final(self) == if result is Ok {
                TraceRecorder { recent_snapshot_reads: (ordinal + 1) as usize, ..*old(self) }
            } else {
                *old(self)
            },
    {
        if self.recent_snapshot_reads != ordinal || ordinal == usize::MAX
            || self.recent_snapshot_complete {
            return Err(TraceError);
        }
        self.recent_snapshot_reads = ordinal + 1;
        Ok(())
    }

    /// Records that every recent-snapshot slot was read.
    pub fn complete_recent_snapshot_scan(&mut self, slots: usize) -> (result: Result<
        (),
        TraceError,
    >)
        ensures
            result is Ok <==> old(self).recent_snapshot_reads == slots
                && !old(self).recent_snapshot_complete,
            *final(self) == if result is Ok {
                TraceRecorder { recent_snapshot_complete: true, ..*old(self) }
            } else {
                *old(self)
            },
    {
        if self.recent_snapshot_reads != slots || self.recent_snapshot_complete {
            return Err(TraceError);
        }
        self.recent_snapshot_complete = true;
        Ok(())
    }

    /// Records the store reads of the one engine execution.
    pub fn record_store_reads(&mut self, reads: usize) -> (result: Result<(), TraceError>)
        ensures
            result is Ok <==> old(self).store_reads == 0,
            *final(self) == if result is Ok {
                TraceRecorder { store_reads: reads, ..*old(self) }
            } else {
                *old(self)
            },
    {
        if self.store_reads != 0 {
            return Err(TraceError);
        }
        self.store_reads = reads;
        Ok(())
    }

    /// Records the end of the round.
    pub fn record_completion(&mut self, shape: CompletionShape) -> (result: Result<(), TraceError>)
        ensures
            result is Ok <==> !old(self).completed,
            *final(self) == if result is Ok {
                TraceRecorder { completed: true, ..*old(self) }
            } else {
                *old(self)
            },
    {
        if self.completed {
            return Err(TraceError);
        }
        match shape {
            CompletionShape::UnaryFixedEnvelope => {
                self.completed = true;
            },
        }
        Ok(())
    }

    /// The recorded schedule is the one that the budget admits.
    pub open spec fn meets(self, budget: AccessBudget) -> bool {
        &&& self.phases == RUNTIME_PHASE_COUNT
        &&& self.store_reads == budget.store_reads
        &&& self.recent_snapshot_reads == budget.recent_snapshot_reads
        &&& self.recent_snapshot_complete
        &&& self.replay_accesses == 1
        &&& self.request_frames == 1
        &&& self.request_bytes == budget.envelope_bytes
        &&& self.response_frames == 1
        &&& self.response_bytes == budget.envelope_bytes
        &&& self.completed
    }

    /// Finishes a schedule that is exactly the budgeted one.
    pub fn finish(self, budget: AccessBudget) -> (result: Result<AccessTrace, TraceError>)
        ensures
            result == if self.meets(budget) {
                Ok(budgeted_trace(budget))
            } else {
                Err(TraceError)
            },
    {
        if self.phases != RUNTIME_PHASE_COUNT || self.store_reads != budget.store_reads
            || self.recent_snapshot_reads != budget.recent_snapshot_reads
            || !self.recent_snapshot_complete || self.replay_accesses != 1 || self.request_frames
            != 1 || self.request_bytes != budget.envelope_bytes || self.response_frames != 1
            || self.response_bytes != budget.envelope_bytes || !self.completed {
            return Err(TraceError);
        }
        Ok(
            AccessTrace {
                runtime_phases: self.phases,
                store_reads: self.store_reads,
                recent_snapshot_reads: self.recent_snapshot_reads,
                replay_reads: self.replay_accesses,
                replay_writes: self.replay_accesses,
                request_frames: self.request_frames,
                response_frames: self.response_frames,
                request_bytes: self.request_bytes,
                response_bytes: self.response_bytes,
                completion: CompletionShape::UnaryFixedEnvelope,
            },
        )
    }
}

/// The phases follow each other from decoding to completion, each one place behind the one
/// before it.
pub proof fn phases_follow_each_other()
    ensures
        RuntimePhase::RequestDecode.position() == 0,
        RuntimePhase::NonceAcquisition.position() == RuntimePhase::RequestDecode.position() + 1,
        RuntimePhase::TokenOpen.position() == RuntimePhase::NonceAcquisition.position() + 1,
        RuntimePhase::ReplayGuard.position() == RuntimePhase::TokenOpen.position() + 1,
        RuntimePhase::ReadinessSelect.position() == RuntimePhase::ReplayGuard.position() + 1,
        RuntimePhase::EngineExecution.position() == RuntimePhase::ReadinessSelect.position() + 1,
        RuntimePhase::ResultNormalization.position() == RuntimePhase::EngineExecution.position()
            + 1,
        RuntimePhase::TokenIssue.position() == RuntimePhase::ResultNormalization.position() + 1,
        RuntimePhase::ResponseEncode.position() == RuntimePhase::TokenIssue.position() + 1,
        RuntimePhase::Completion.position() == RuntimePhase::ResponseEncode.position() + 1,
        RUNTIME_PHASE_COUNT == RuntimePhase::Completion.position() + 1,
{
}

/// A schedule is finished exactly where it was completed after every phase, read the store
/// and every recent slot as often as budgeted, touched the journal once, and took one frame
/// each way of the budgeted width; and the finished trace says just that.
pub proof fn finished_schedule_is_what_was_recorded(recorder: TraceRecorder, budget: AccessBudget)
    ensures
        recorder.meets(budget) <==> {
            &&& recorder.completed
            &&& recorder.phases == 10
            &&& recorder.store_reads == budget.store_reads
            &&& recorder.recent_snapshot_complete
            &&& recorder.recent_snapshot_reads == budget.recent_snapshot_reads
            &&& recorder.replay_accesses == 1
            &&& recorder.request_frames == 1
            &&& recorder.response_frames == 1
            &&& recorder.request_bytes == budget.envelope_bytes
            &&& recorder.response_bytes == budget.envelope_bytes
        },
        recorder.meets(budget) ==> {
            let trace = budgeted_trace(budget);
            &&& trace.runtime_phases == recorder.phases
            &&& trace.store_reads == recorder.store_reads
            &&& trace.recent_snapshot_reads == recorder.recent_snapshot_reads
            &&& trace.replay_reads == recorder.replay_accesses
            &&& trace.replay_writes == recorder.replay_accesses
            &&& trace.request_frames == recorder.request_frames
            &&& trace.response_frames == recorder.response_frames
            &&& trace.request_bytes == recorder.request_bytes
            &&& trace.response_bytes == recorder.response_bytes
        },
        empty_trace().phases == 0 && empty_trace().store_reads == 0
            && empty_trace().recent_snapshot_reads == 0 && !empty_trace().recent_snapshot_complete
            && empty_trace().replay_accesses == 0 && empty_trace().request_frames == 0
            && empty_trace().response_frames == 0 && !empty_trace().completed,
{
}

} // verus!
