//! What a journal asks of its storage, and in which order.
//!
//! A commit makes its directories durable, writes and synchronizes its entry,
//! and only then replaces the head. Recovery looks at the paths, reads the
//! head, and reads the entries that the head counts.

use crate::record_files::ExactFileRead;
use crate::record_files::PathKind;
use crate::replay_journal::ReplayJournalEntry;
use crate::replay_journal::ReplayJournalHead;
use crate::replay_journal::ReplayJournalLimits;
use crate::replay_journal::ReplayJournalState;
use crate::replay_record::ReplayJournalProtectionContext;
use crate::replay_record::ReplayJournalRecordProtector;
use crate::replay_store::JournalFileStep;
use crate::replay_store::ReplayJournalDirectory;
use crate::replay_store::ReplayJournalFiles;
use crate::replay_store::ReplayJournalPath;
use crate::replay_store::ReplayJournalStore;
use crate::replay_store::ReplayJournalStoreError;
use crate::security_state::PROFILE_ID_BYTES;
use vstd::prelude::*;

verus! {

/// Calls of a storage, one after the other, that may lead from one state of it to another.
pub open spec fn storage_runs<F: ReplayJournalFiles>(
    before: F,
    steps: Seq<JournalFileStep<F::Staged>>,
    after: F,
) -> bool
    decreases steps.len(),
{
    if steps.len() == 0 {
        after == before
    } else {
        exists|middle: F|
            storage_runs(before, steps.drop_last(), middle) && #[trigger] F::steps_to(
                middle,
                steps.last(),
                after,
            )
    }
}

/// A run goes on with one more call.
pub proof fn lemma_run_goes_on<F: ReplayJournalFiles>(
    before: F,
    steps: Seq<JournalFileStep<F::Staged>>,
    middle: F,
    step: JournalFileStep<F::Staged>,
    after: F,
)
    requires
        storage_runs(before, steps, middle),
        F::steps_to(middle, step, after),
    ensures
        storage_runs(before, steps.push(step), after),
{
    assert(steps.push(step).drop_last() =~= steps);
    assert(steps.push(step).last() == step);
}

/// Two runs in a row are one.
pub proof fn lemma_runs_join<F: ReplayJournalFiles>(
    before: F,
    first: Seq<JournalFileStep<F::Staged>>,
    middle: F,
    second: Seq<JournalFileStep<F::Staged>>,
    after: F,
)
    requires
        storage_runs(before, first, middle),
        storage_runs(middle, second, after),
    ensures
        storage_runs(before, first + second, after),
    decreases second.len(),
{
    if second.len() == 0 {
        assert(first + second =~= first);
    } else {
        let between = choose|between: F|
            storage_runs(middle, second.drop_last(), between) && #[trigger] F::steps_to(
                between,
                second.last(),
                after,
            );
        lemma_runs_join(before, first, middle, second.drop_last(), between);
        lemma_run_goes_on(before, first + second.drop_last(), between, second.last(), after);
        assert((first + second.drop_last()).push(second.last()) =~= first + second);
    }
}

/// The call did what it was asked.
pub open spec fn step_succeeded<S>(step: JournalFileStep<S>) -> bool {
    match step {
        JournalFileStep::Ensured { reply, .. } => reply is Ok,
        JournalFileStep::SyncedDirectory { done, .. } => done,
        JournalFileStep::Staged { staged, .. } => staged is Some,
        JournalFileStep::ReplacedEntry { done, .. } => done,
        JournalFileStep::SyncedEntry { done, .. } => done,
        JournalFileStep::ReplacedCurrent { done, .. } => done,
        _ => true,
    }
}

/// The call is the one that readies directories at this position.
pub open spec fn readies_directory<S>(position: int, step: JournalFileStep<S>) -> bool {
    match step {
        JournalFileStep::Ensured { directory, .. } => match directory {
            ReplayJournalDirectory::Recovery => position == 0,
            ReplayJournalDirectory::Entries => position == 1,
            ReplayJournalDirectory::Staging => position == 2,
            ReplayJournalDirectory::Parent => false,
        },
        JournalFileStep::SyncedDirectory { directory, .. } => match directory {
            ReplayJournalDirectory::Parent => position == 3,
            ReplayJournalDirectory::Recovery => position == 4,
            ReplayJournalDirectory::Entries => position == 5,
            ReplayJournalDirectory::Staging => position == 6,
        },
        _ => false,
    }
}

/// The call is the one that writes this entry at this position.
pub open spec fn writes_entry<S, P: ReplayJournalRecordProtector>(
    position: int,
    step: JournalFileStep<S>,
    entry: ReplayJournalEntry,
    context: ReplayJournalProtectionContext,
    protector: P,
) -> bool {
    match step {
        JournalFileStep::Staged { record, .. } => position == 7
            && crate::replay_record::entry_record_holds(record, context, protector, entry),
        JournalFileStep::ReplacedEntry { name, .. } => position == 8 && name
            == crate::replay_store::entry_name(entry.sequence),
        JournalFileStep::SyncedEntry { name, .. } => position == 9 && name
            == crate::replay_store::entry_name(entry.sequence),
        JournalFileStep::SyncedDirectory { directory, .. } => match directory {
            ReplayJournalDirectory::Entries => position == 10,
            ReplayJournalDirectory::Staging => position == 11,
            _ => false,
        },
        _ => false,
    }
}

/// The call is the one that makes a renamed head durable at this position.
pub open spec fn syncs_head<S>(position: int, step: JournalFileStep<S>) -> bool {
    step matches JournalFileStep::SyncedDirectory { directory, .. } && match directory {
        ReplayJournalDirectory::Recovery => position == 14,
        ReplayJournalDirectory::Staging => position == 15,
        _ => false,
    }
}

/// The call is the one that writes this head at this position.
pub open spec fn writes_head<S, P: ReplayJournalRecordProtector>(
    position: int,
    step: JournalFileStep<S>,
    head: ReplayJournalHead,
    context: ReplayJournalProtectionContext,
    protector: P,
) -> bool {
    match step {
        JournalFileStep::Staged { record, .. } => position == 12
            && crate::replay_record::head_record_holds(record, context, protector, head),
        JournalFileStep::ReplacedCurrent { .. } => position == 13,
        _ => syncs_head(position, step),
    }
}

/// Failure of the call at a position, as the store reports it.
///
/// Once the entry has been renamed nobody knows what a failure left behind.
pub open spec fn step_error<S>(position: int, step: JournalFileStep<S>) -> ReplayJournalStoreError {
    match step {
        JournalFileStep::Ensured { reply: Err(error), .. } =>
            crate::replay_store::replay_directory_error(error),
        _ => if position < 8 || position == 12 {
            ReplayJournalStoreError::LocalStageUnavailable
        } else if position < 12 {
            ReplayJournalStoreError::CandidateStateIndeterminate
        } else {
            ReplayJournalStoreError::CurrentStateIndeterminate
        },
    }
}

/// Only the last call may have failed.
pub open spec fn uninterrupted<S>(steps: Seq<JournalFileStep<S>>) -> bool {
    forall|i: int| 0 <= i < steps.len() - 1 ==> step_succeeded(#[trigger] steps[i])
}

/// Calls from one position on: all up to a position, or up to the first that failed.
pub open spec fn ends_at<S>(
    from: int,
    to: int,
    steps: Seq<JournalFileStep<S>>,
    error: Option<ReplayJournalStoreError>,
) -> bool {
    &&& uninterrupted(steps)
    &&& steps.len() <= to - from
    &&& match error {
        None => steps.len() == to - from && (steps.len() > 0 ==> step_succeeded(steps.last())),
        Some(error) => steps.len() > 0 && !step_succeeded(steps.last()) && error == step_error(
            from + steps.len() - 1,
            steps.last(),
        ),
    }
}

/// The error of a result.
pub open spec fn error_of<T>(result: Result<T, ReplayJournalStoreError>) -> Option<
    ReplayJournalStoreError,
> {
    match result {
        Ok(_) => None,
        Err(error) => Some(error),
    }
}

/// Making the directories exist and be durable.
pub open spec fn directories_run<S>(
    steps: Seq<JournalFileStep<S>>,
    error: Option<ReplayJournalStoreError>,
) -> bool {
    &&& ends_at(0, 7, steps, error)
    &&& forall|i: int| 0 <= i < steps.len() ==> readies_directory(i, #[trigger] steps[i])
}

/// Sealing and staging an entry, once the directories are ready.
pub open spec fn entry_staging_run<S, P: ReplayJournalRecordProtector>(
    steps: Seq<JournalFileStep<S>>,
    entry: ReplayJournalEntry,
    context: ReplayJournalProtectionContext,
    protector: P,
    result: Result<S, ReplayJournalStoreError>,
) -> bool {
    if steps.len() < 7 || (steps.len() == 7 && !step_succeeded(steps.last())) {
        result is Err && directories_run(steps, error_of(result))
    } else {
        &&& directories_run(steps.take(7), None)
        &&& if steps.len() == 7 {
            result == Err::<S, _>(ReplayJournalStoreError::CommittedEntryProtectionUnavailable)
                && crate::replay_record::entry_may_be_declined(context, protector, entry)
        } else {
            &&& steps.len() == 8
            &&& writes_entry(7, steps[7], entry, context, protector)
            &&& steps[7] matches JournalFileStep::Staged { staged, .. } && result == match staged {
                Some(file) => Ok(file),
                None => Err(ReplayJournalStoreError::LocalStageUnavailable),
            }
        }
    }
}

/// Making a renamed entry durable.
pub open spec fn entry_sync_run<S, P: ReplayJournalRecordProtector>(
    steps: Seq<JournalFileStep<S>>,
    entry: ReplayJournalEntry,
    context: ReplayJournalProtectionContext,
    protector: P,
    error: Option<ReplayJournalStoreError>,
) -> bool {
    &&& ends_at(9, 12, steps, error)
    &&& forall|i: int|
        0 <= i < steps.len() ==> writes_entry(9 + i, #[trigger] steps[i], entry, context, protector)
}

/// Sealing and staging a head, if it is one that can be written.
pub open spec fn head_staging_run<S, P: ReplayJournalRecordProtector>(
    steps: Seq<JournalFileStep<S>>,
    state: ReplayJournalState,
    context: ReplayJournalProtectionContext,
    protector: P,
    result: Result<S, ReplayJournalStoreError>,
) -> bool {
    if steps.len() == 0 {
        result == Err::<S, _>(unsealed_head_error(state)) && head_stays_unsealed(
            state,
            context,
            protector,
        )
    } else {
        &&& steps.len() == 1
        &&& crate::replay_record::current_value_error(state) is None
        &&& writes_head(12, steps[0], state@, context, protector)
        &&& steps[0] matches JournalFileStep::Staged { staged, .. } && result == match staged {
            Some(file) => Ok(file),
            None => Err(ReplayJournalStoreError::LocalStageUnavailable),
        }
    }
}

/// Why a head was not sealed.
pub open spec fn unsealed_head_error(state: ReplayJournalState) -> ReplayJournalStoreError {
    if crate::replay_record::current_value_error(state) is Some {
        ReplayJournalStoreError::CurrentStateCorrupt
    } else {
        ReplayJournalStoreError::CurrentStateProtectionUnavailable
    }
}

/// The head cannot be written, or the protector may fail to seal it.
pub open spec fn head_stays_unsealed<P: ReplayJournalRecordProtector>(
    state: ReplayJournalState,
    context: ReplayJournalProtectionContext,
    protector: P,
) -> bool {
    crate::replay_record::current_value_error(state) is Some
        || crate::replay_record::head_may_be_declined(context, protector, state@)
}

/// Making a renamed head durable.
pub open spec fn head_sync_run<S>(
    steps: Seq<JournalFileStep<S>>,
    error: Option<ReplayJournalStoreError>,
) -> bool {
    &&& ends_at(14, 16, steps, error)
    &&& forall|i: int| 0 <= i < steps.len() ==> syncs_head(14 + i, #[trigger] steps[i])
}

/// What is renamed is what was staged.
pub open spec fn renames_staged<S>(staging: JournalFileStep<S>, renaming: JournalFileStep<S>) -> bool {
    staging matches JournalFileStep::Staged { staged: Some(file), .. } && match renaming {
        JournalFileStep::ReplacedEntry { staged, .. } => staged == file,
        JournalFileStep::ReplacedCurrent { staged, .. } => staged == file,
        _ => false,
    }
}

/// The calls of a commit, in their order: all of them, or up to what failed.
///
/// A protector that is unavailable stops the commit before the entry or before
/// the head is staged.
pub open spec fn commit_run<S, P: ReplayJournalRecordProtector>(
    steps: Seq<JournalFileStep<S>>,
    entry: ReplayJournalEntry,
    head: ReplayJournalHead,
    context: ReplayJournalProtectionContext,
    protector: P,
    error: Option<ReplayJournalStoreError>,
) -> bool {
    &&& steps.len() <= 16
    &&& uninterrupted(steps)
    &&& forall|i: int|
        0 <= i < steps.len() ==> if i < 7 {
            readies_directory(i, #[trigger] steps[i])
        } else if i < 12 {
            writes_entry(i, steps[i], entry, context, protector)
        } else {
            writes_head(i, steps[i], head, context, protector)
        }
    &&& steps.len() > 8 ==> renames_staged(steps[7], steps[8])
    &&& steps.len() > 13 ==> renames_staged(steps[12], steps[13])
    &&& if steps.len() > 0 && !step_succeeded(steps.last()) {
        error == Some(step_error(steps.len() - 1, steps.last()))
    } else if steps.len() == 7 {
        error == Some(ReplayJournalStoreError::CommittedEntryProtectionUnavailable)
            && crate::replay_record::entry_may_be_declined(context, protector, entry)
    } else if steps.len() == 12 {
        error == Some(ReplayJournalStoreError::CurrentStateProtectionUnavailable)
            && crate::replay_record::head_may_be_declined(context, protector, head)
    } else {
        steps.len() == 16 && error is None
    }
}

/// The calls of a watermark advance: the directories, and the head.
pub open spec fn maintenance_run<S, P: ReplayJournalRecordProtector>(
    steps: Seq<JournalFileStep<S>>,
    state: ReplayJournalState,
    context: ReplayJournalProtectionContext,
    protector: P,
    error: Option<ReplayJournalStoreError>,
) -> bool {
    &&& steps.len() <= 11
    &&& uninterrupted(steps)
    &&& forall|i: int|
        0 <= i < steps.len() ==> if i < 7 {
            readies_directory(i, #[trigger] steps[i])
        } else {
            writes_head(i + 5, steps[i], state@, context, protector)
        }
    &&& steps.len() > 7 ==> crate::replay_record::current_value_error(state) is None
    &&& steps.len() > 8 ==> renames_staged(steps[7], steps[8])
    &&& if steps.len() > 0 && !step_succeeded(steps.last()) {
        error == Some(
            step_error(
                if steps.len() <= 7 {
                    steps.len() - 1
                } else {
                    steps.len() as int + 4
                },
                steps.last(),
            ),
        )
    } else if steps.len() == 7 {
        error == Some(unsealed_head_error(state)) && head_stays_unsealed(
            state,
            context,
            protector,
        )
    } else {
        steps.len() == 11 && error is None
    }
}

/// Path that recovery inspects at a position.
pub open spec fn recovery_path(position: int) -> ReplayJournalPath {
    if position == 0 {
        ReplayJournalPath::Recovery
    } else if position == 1 {
        ReplayJournalPath::Entries
    } else if position == 2 {
        ReplayJournalPath::Staging
    } else {
        ReplayJournalPath::Current
    }
}

/// The path at a position is what it should be, or is not there yet.
pub open spec fn path_accepted(position: int, kind: PathKind) -> bool {
    match kind {
        PathKind::Directory => position < 3,
        PathKind::RegularFile => position == 3,
        PathKind::Missing => position > 0,
        _ => false,
    }
}

/// Inspecting the paths: without a recovery directory there is nothing more to inspect.
pub open spec fn paths_end(
    kinds: Seq<PathKind>,
    result: Result<(), ReplayJournalStoreError>,
) -> bool {
    &&& 0 < kinds.len() <= 4
    &&& forall|i: int| 0 <= i < kinds.len() - 1 ==> path_accepted(i, #[trigger] kinds[i])
    &&& if kinds.len() == 1 && kinds[0] is Missing {
        result is Ok
    } else if path_accepted(kinds.len() - 1, kinds.last()) {
        result is Ok && kinds.len() == 4
    } else {
        result == Err::<(), _>(ReplayJournalStoreError::UnsafeRecoveryPath)
    }
}

/// The calls that inspect the paths.
pub open spec fn path_steps<S>(kinds: Seq<PathKind>) -> Seq<JournalFileStep<S>> {
    Seq::new(
        kinds.len(),
        |i: int| JournalFileStep::Inspected { path: recovery_path(i), kind: kinds[i] },
    )
}

/// The calls that read the first entries.
pub open spec fn entry_steps<S>(reads: Seq<ExactFileRead>) -> Seq<JournalFileStep<S>> {
    Seq::new(
        reads.len(),
        |i: int|
            JournalFileStep::ReadEntry {
                name: crate::replay_store::entry_name((i + 1) as u64),
                read: reads[i],
            },
    )
}

/// Everything that storage answered in one recovery.
pub struct RecoveryTranscript {
    /// What the inspected paths are.
    pub paths: Seq<PathKind>,
    /// The read of the head, once the paths were accepted.
    pub head: Option<ExactFileRead>,
    /// What the directory of the entries is, once there was a head to follow.
    pub entries_directory: Option<PathKind>,
    /// The reads of the entries, from the first one on.
    pub entries: Seq<ExactFileRead>,
}

impl RecoveryTranscript {
    /// The calls of the recovery.
    pub open spec fn steps<S>(self) -> Seq<JournalFileStep<S>> {
        path_steps(self.paths) + match self.head {
            None => Seq::empty(),
            Some(read) => seq![JournalFileStep::ReadCurrent { read }],
        } + match self.entries_directory {
            None => Seq::empty(),
            Some(kind) => seq![
                JournalFileStep::Inspected { path: ReplayJournalPath::Entries, kind },
            ],
        } + entry_steps(self.entries)
    }

    /// Recovery went no further than the head.
    pub open spec fn stops_at_head(self) -> bool {
        self.entries_directory is None && self.entries.len() == 0
    }

    /// How reading the counted entries ends: all of them loaded, or the first
    /// that is unusable.
    pub open spec fn entries_end<P: ReplayJournalRecordProtector>(
        self,
        max_transactions: u64,
        profile_id: Seq<u8>,
        context: ReplayJournalProtectionContext,
        protector: P,
        loaded: Seq<ReplayJournalEntry>,
        failure: Option<ReplayJournalStoreError>,
    ) -> bool {
        &&& crate::replay_store::rebuilt(max_transactions, profile_id, loaded) is Some
        &&& forall|i: int|
            0 <= i < loaded.len() ==> crate::replay_store::entry_read_amounts_to(
                self.entries[i],
                (i + 1) as u64,
                context,
                protector,
                Ok(#[trigger] loaded[i]),
            )
        &&& match failure {
            None => self.entries.len() == loaded.len(),
            Some(error) => self.entries.len() == loaded.len() + 1 && exists|
                outcome: Result<ReplayJournalEntry, ReplayJournalStoreError>,
            |
                #![trigger unusable_entry(max_transactions, profile_id, loaded, outcome)]
                crate::replay_store::entry_read_amounts_to(
                    self.entries.last(),
                    self.entries.len() as u64,
                    context,
                    protector,
                    outcome,
                ) && unusable_entry(max_transactions, profile_id, loaded, outcome) == Some(error),
        }
    }

    /// How a recovery ends.
    ///
    /// The head record is the sole local authority: without one the journal is
    /// empty. With one, exactly the entries that it counts are read, and they
    /// must rebuild it.
    pub open spec fn ends<F, P: ReplayJournalRecordProtector>(
        self,
        limits: ReplayJournalLimits,
        profile_id: [u8; PROFILE_ID_BYTES],
        context: ReplayJournalProtectionContext,
        protector: P,
        head: Result<Option<ReplayJournalState>, ReplayJournalStoreError>,
        loaded: Seq<ReplayJournalEntry>,
        failure: Option<ReplayJournalStoreError>,
        result: Result<ReplayJournalStore<F, P>, ReplayJournalStoreError>,
    ) -> bool {
        if crate::bytes::is_zero(profile_id@) {
            &&& self.paths.len() == 0 && self.head is None && self.stops_at_head()
            &&& result == Err::<ReplayJournalStore<F, P>, _>(
                ReplayJournalStoreError::ConfigurationMismatch,
            )
        } else if self.head is None {
            &&& paths_end(self.paths, Err(ReplayJournalStoreError::UnsafeRecoveryPath)) && self.stops_at_head()
            &&& result == Err::<ReplayJournalStore<F, P>, _>(
                ReplayJournalStoreError::UnsafeRecoveryPath,
            )
        } else {
            &&& paths_end(self.paths, Ok(()))
            &&& crate::replay_store::head_read_amounts_to(self.head->0, context, protector, head)
            &&& match head {
                Err(error) => {
                    &&& self.stops_at_head()
                    &&& result == Err::<ReplayJournalStore<F, P>, _>(error)
                },
                Ok(None) => {
                    &&& self.stops_at_head()
                    &&& result matches Ok(store) && store@ == crate::replay_store::empty_journal(
                        limits.max_transactions,
                        profile_id@,
                    ) && store.history@ == Seq::<ReplayJournalEntry>::empty()
                },
                Ok(Some(state)) => if state.limits != limits || state.profile_id != profile_id {
                    &&& self.stops_at_head()
                    &&& result == Err::<ReplayJournalStore<F, P>, _>(
                        ReplayJournalStoreError::ConfigurationMismatch,
                    )
                } else {
                    self.follows_head(state, context, protector, loaded, failure, result)
                },
            }
        }
    }

    /// How a recovery ends that has a head to follow.
    pub open spec fn follows_head<F, P: ReplayJournalRecordProtector>(
        self,
        state: ReplayJournalState,
        context: ReplayJournalProtectionContext,
        protector: P,
        loaded: Seq<ReplayJournalEntry>,
        failure: Option<ReplayJournalStoreError>,
        result: Result<ReplayJournalStore<F, P>, ReplayJournalStoreError>,
    ) -> bool {
        match self.entries_directory {
            None => false,
            Some(PathKind::Directory) => {
                &&& self.entries.len() <= state.committed_sequence
                &&& self.entries_end(
                    state@.max_transactions,
                    state@.profile_id,
                    context,
                    protector,
                    loaded,
                    failure,
                )
                &&& match failure {
                    Some(error) => result == Err::<ReplayJournalStore<F, P>, _>(error),
                    None => {
                        let rebuilt = crate::replay_store::with_watermark(
                            crate::replay_store::rebuilt(
                                state@.max_transactions,
                                state@.profile_id,
                                loaded,
                            )->0,
                            state@.watermark,
                        );
                        &&& self.entries.len() == state.committed_sequence
                        &&& if rebuilt.head == state@ {
                            result matches Ok(store) && store.state == state && store@ == rebuilt
                                && store.history@ == loaded
                        } else {
                            result == Err::<ReplayJournalStore<F, P>, _>(
                                ReplayJournalStoreError::CurrentStateMismatch,
                            )
                        }
                    },
                }
            },
            Some(PathKind::Missing) | Some(PathKind::Unreadable) => {
                &&& self.entries.len() == 0
                &&& result == Err::<ReplayJournalStore<F, P>, _>(
                    ReplayJournalStoreError::CommittedEntryMissing,
                )
            },
            Some(_) => {
                &&& self.entries.len() == 0
                &&& result == Err::<ReplayJournalStore<F, P>, _>(
                    ReplayJournalStoreError::UnsafeRecoveryPath,
                )
            },
        }
    }
}

/// Why a read entry cannot follow the entries before it.
pub open spec fn unusable_entry(
    max_transactions: u64,
    profile_id: Seq<u8>,
    loaded: Seq<ReplayJournalEntry>,
    outcome: Result<ReplayJournalEntry, ReplayJournalStoreError>,
) -> Option<ReplayJournalStoreError> {
    match outcome {
        Err(error) => Some(error),
        Ok(entry) => if crate::replay_store::journal_error(
            crate::replay_store::rebuilt(max_transactions, profile_id, loaded)->0,
            entry,
        ) is Some {
            Some(ReplayJournalStoreError::CommittedEntryCorrupt)
        } else {
            None
        },
    }
}

/// How opening a journal over its files ends.
pub open spec fn opening_ends<F: ReplayJournalFiles, P: ReplayJournalRecordProtector>(
    files: F,
    limits: ReplayJournalLimits,
    profile_id: [u8; PROFILE_ID_BYTES],
    context: ReplayJournalProtectionContext,
    protector: P,
    result: Result<ReplayJournalStore<F, P>, ReplayJournalStoreError>,
) -> bool {
    exists|
        transcript: RecoveryTranscript,
        head: Result<Option<ReplayJournalState>, ReplayJournalStoreError>,
        loaded: Seq<ReplayJournalEntry>,
        failure: Option<ReplayJournalStoreError>,
        after: F,
    |
        #![trigger transcript.ends(limits, profile_id, context, protector, head, loaded, failure, result), storage_runs(files, transcript.steps(), after)]
        transcript.ends(limits, profile_id, context, protector, head, loaded, failure, result)
            && storage_runs(files, transcript.steps(), after) && (result matches Ok(store)
            ==> store.files == after)
}

/// A step of a journal's storage failed exactly where its reply says so; what is only looked
/// at or read cannot fail as a step.
pub proof fn failed_step_says_so<S>(step: JournalFileStep<S>)
    ensures
        step_succeeded(step) <==> {
            &&& step is Ensured ==> step->Ensured_reply is Ok
            &&& step is SyncedDirectory ==> step->SyncedDirectory_done
            &&& step is Staged ==> step->Staged_staged is Some
            &&& step is ReplacedEntry ==> step->ReplacedEntry_done
            &&& step is SyncedEntry ==> step->SyncedEntry_done
            &&& step is ReplacedCurrent ==> step->ReplacedCurrent_done
        },
{
}

/// A commit that ends well took its steps in one order: the three directories were made and
/// synchronized with the one above them; a record of the entry was staged, given the entry's
/// name and synchronized, with its directory and the staging one; and only after that the
/// head's record was staged, put in place, and its two directories synchronized.
pub proof fn commit_takes_its_steps_in_order<S, P: ReplayJournalRecordProtector>(
    steps: Seq<JournalFileStep<S>>,
    entry: ReplayJournalEntry,
    head: ReplayJournalHead,
    context: ReplayJournalProtectionContext,
    protector: P,
)
    requires
        commit_run(steps, entry, head, context, protector, None),
    ensures
        steps.len() == 16,
        steps[0] is Ensured && steps[0]->Ensured_directory is Recovery,
        steps[1] is Ensured && steps[1]->Ensured_directory is Entries,
        steps[2] is Ensured && steps[2]->Ensured_directory is Staging,
        steps[3] is SyncedDirectory && steps[3]->SyncedDirectory_directory is Parent,
        steps[4] is SyncedDirectory && steps[4]->SyncedDirectory_directory is Recovery,
        steps[5] is SyncedDirectory && steps[5]->SyncedDirectory_directory is Entries,
        steps[6] is SyncedDirectory && steps[6]->SyncedDirectory_directory is Staging,
        steps[7] is Staged && crate::replay_record::entry_record_holds(
            steps[7]->Staged_record,
            context,
            protector,
            entry,
        ),
        steps[8] is ReplacedEntry && steps[8]->ReplacedEntry_name
            == crate::replay_store::entry_name(entry.sequence),
        steps[7]->Staged_staged == Some(steps[8]->ReplacedEntry_staged),
        steps[9] is SyncedEntry && steps[9]->SyncedEntry_name == crate::replay_store::entry_name(
            entry.sequence,
        ),
        steps[10] is SyncedDirectory && steps[10]->SyncedDirectory_directory is Entries,
        steps[11] is SyncedDirectory && steps[11]->SyncedDirectory_directory is Staging,
        steps[12] is Staged && crate::replay_record::head_record_holds(
            steps[12]->Staged_record,
            context,
            protector,
            head,
        ),
        steps[13] is ReplacedCurrent,
        steps[12]->Staged_staged == Some(steps[13]->ReplacedCurrent_staged),
        steps[14] is SyncedDirectory && steps[14]->SyncedDirectory_directory is Recovery,
        steps[15] is SyncedDirectory && steps[15]->SyncedDirectory_directory is Staging,
        forall|i: int| 0 <= i < 16 ==> step_succeeded(#[trigger] steps[i]),
{
    assert(readies_directory(0, steps[0]));
    assert(readies_directory(1, steps[1]));
    assert(readies_directory(2, steps[2]));
    assert(readies_directory(3, steps[3]));
    assert(readies_directory(4, steps[4]));
    assert(readies_directory(5, steps[5]));
    assert(readies_directory(6, steps[6]));
    assert(writes_entry(7, steps[7], entry, context, protector));
    assert(writes_entry(8, steps[8], entry, context, protector));
    assert(writes_entry(9, steps[9], entry, context, protector));
    assert(writes_entry(10, steps[10], entry, context, protector));
    assert(writes_entry(11, steps[11], entry, context, protector));
    assert(writes_head(12, steps[12], head, context, protector));
    assert(writes_head(13, steps[13], head, context, protector));
    assert(writes_head(14, steps[14], head, context, protector));
    assert(writes_head(15, steps[15], head, context, protector));
    assert(steps.last() == steps[15]);
}

/// A commit that fails names what stopped it: a directory that is not one, a stage that was
/// not there, a protector that declined, or, once the entry or the head was being put in
/// place, that it is unknown which of the two is there.
pub proof fn failed_commit_names_what_stopped_it<S, P: ReplayJournalRecordProtector>(
    steps: Seq<JournalFileStep<S>>,
    entry: ReplayJournalEntry,
    head: ReplayJournalHead,
    context: ReplayJournalProtectionContext,
    protector: P,
    error: ReplayJournalStoreError,
)
    requires
        commit_run(steps, entry, head, context, protector, Some(error)),
    ensures
        steps.len() <= 16,
        forall|i: int| 0 <= i < steps.len() - 1 ==> step_succeeded(#[trigger] steps[i]),
        error is CommittedEntryProtectionUnavailable ==> steps.len() == 7 && step_succeeded(
            steps[6],
        ) && crate::replay_record::entry_may_be_declined(context, protector, entry),
        error is CurrentStateProtectionUnavailable ==> steps.len() == 12 && step_succeeded(
            steps[11],
        ) && crate::replay_record::head_may_be_declined(context, protector, head),
        !(error is CommittedEntryProtectionUnavailable) && !(
        error is CurrentStateProtectionUnavailable) ==> steps.len() > 0 && !step_succeeded(
            steps.last(),
        ),
        error is UnsafeRecoveryPath ==> steps.len() <= 3,
        error is CandidateStateIndeterminate ==> 9 <= steps.len() <= 12,
        error is CurrentStateIndeterminate ==> 14 <= steps.len() <= 16,
        error is LocalStageUnavailable ==> steps.len() <= 8 || steps.len() == 13,
        9 <= steps.len() <= 12 && !step_succeeded(steps.last()) ==> error
            is CandidateStateIndeterminate,
        14 <= steps.len() <= 16 ==> error is CurrentStateIndeterminate,
{
    if steps.len() > 0 {
        let last = steps.len() - 1;
        if last < 7 {
            assert(readies_directory(last, steps[last]));
        } else if last < 12 {
            assert(writes_entry(last, steps[last], entry, context, protector));
        } else {
            assert(writes_head(last, steps[last], head, context, protector));
        }
    }
}

/// Raising a watermark readies the directories and writes the head, and no entry.
pub proof fn maintenance_writes_the_head_alone<S, P: ReplayJournalRecordProtector>(
    steps: Seq<JournalFileStep<S>>,
    state: ReplayJournalState,
    context: ReplayJournalProtectionContext,
    protector: P,
)
    requires
        maintenance_run(steps, state, context, protector, None),
    ensures
        steps.len() == 11,
        steps[0] is Ensured && steps[0]->Ensured_directory is Recovery,
        steps[1] is Ensured && steps[1]->Ensured_directory is Entries,
        steps[2] is Ensured && steps[2]->Ensured_directory is Staging,
        steps[3] is SyncedDirectory && steps[3]->SyncedDirectory_directory is Parent,
        steps[4] is SyncedDirectory && steps[4]->SyncedDirectory_directory is Recovery,
        steps[5] is SyncedDirectory && steps[5]->SyncedDirectory_directory is Entries,
        steps[6] is SyncedDirectory && steps[6]->SyncedDirectory_directory is Staging,
        steps[7] is Staged && crate::replay_record::head_record_holds(
            steps[7]->Staged_record,
            context,
            protector,
            state@,
        ),
        steps[8] is ReplacedCurrent,
        steps[7]->Staged_staged == Some(steps[8]->ReplacedCurrent_staged),
        steps[9] is SyncedDirectory && steps[9]->SyncedDirectory_directory is Recovery,
        steps[10] is SyncedDirectory && steps[10]->SyncedDirectory_directory is Staging,
        forall|i: int| 0 <= i < 11 ==> step_succeeded(#[trigger] steps[i]),
{
    assert(readies_directory(0, steps[0]));
    assert(readies_directory(1, steps[1]));
    assert(readies_directory(2, steps[2]));
    assert(readies_directory(3, steps[3]));
    assert(readies_directory(4, steps[4]));
    assert(readies_directory(5, steps[5]));
    assert(readies_directory(6, steps[6]));
    assert(writes_head(12, steps[7], state@, context, protector));
    assert(writes_head(13, steps[8], state@, context, protector));
    assert(writes_head(14, steps[9], state@, context, protector));
    assert(writes_head(15, steps[10], state@, context, protector));
    assert(steps.last() == steps[10]);
}

/// Recovery goes on exactly where the recovery directory is missing, or is a directory in
/// which the entries and the staging are directories or missing and the head is a regular
/// file or missing; the paths are looked at in this order, and anything else is unsafe.
pub proof fn recovery_accepts_only_real_paths(
    kinds: Seq<PathKind>,
    result: Result<(), ReplayJournalStoreError>,
)
    requires
        paths_end(kinds, result),
    ensures
        recovery_path(0) is Recovery,
        recovery_path(1) is Entries,
        recovery_path(2) is Staging,
        recovery_path(3) is Current,
        result is Ok <==> {
            ||| kinds.len() == 1 && kinds[0] is Missing
            ||| {
                &&& kinds.len() == 4
                &&& kinds[0] is Directory
                &&& kinds[1] is Directory || kinds[1] is Missing
                &&& kinds[2] is Directory || kinds[2] is Missing
                &&& kinds[3] is RegularFile || kinds[3] is Missing
            }
        },
        result matches Err(error) ==> error is UnsafeRecoveryPath,
{
    if kinds.len() == 4 {
        assert(path_accepted(0, kinds[0]));
        assert(path_accepted(1, kinds[1]));
        assert(path_accepted(2, kinds[2]));
    }
}

/// A journal is opened from its head and every entry that the head counts. Without a head
/// it is empty under the given limit and profile; with one it is of that limit and profile,
/// has the head's state, and holds what the entries rebuild.
pub proof fn opened_journal_is_what_was_kept<F, P: ReplayJournalRecordProtector>(
    transcript: RecoveryTranscript,
    limits: ReplayJournalLimits,
    profile_id: [u8; PROFILE_ID_BYTES],
    context: ReplayJournalProtectionContext,
    protector: P,
    head: Result<Option<ReplayJournalState>, ReplayJournalStoreError>,
    loaded: Seq<ReplayJournalEntry>,
    failure: Option<ReplayJournalStoreError>,
    store: ReplayJournalStore<F, P>,
)
    requires
        transcript.ends(
            limits,
            profile_id,
            context,
            protector,
            head,
            loaded,
            failure,
            Ok(store),
        ),
    ensures
        exists|i: int| 0 <= i < 16 && #[trigger] profile_id@[i] > 0,
        head is Ok,
        head->Ok_0 is None ==> store@.head.committed_sequence == 0 && store@.head.watermark == 0
            && store@.head.max_transactions == limits.max_transactions && store@.head.profile_id
            == profile_id@ && store@.requests.len() == 0 && store@.continuations.len() == 0
            && store.history@.len() == 0,
        head->Ok_0 matches Some(state) ==> {
            &&& state.limits == limits
            &&& state.profile_id == profile_id
            &&& store.state == state
            &&& store.history@ == loaded
            &&& loaded.len() == state.committed_sequence
            &&& forall|i: int|
                0 <= i < loaded.len() ==> (#[trigger] loaded[i]).sequence == i + 1
                    && store@.requests.contains(loaded[i].request_key)
        },
{
    if let Ok(Some(state)) = head {
        crate::replay_store::rebuilt_journal_holds_its_entries(
            state@.max_transactions,
            state@.profile_id,
            loaded,
        );
    }
}

/// Opening refuses a profile without a nonzero byte and a head of another limit or profile
/// as misconfigured, an unreadable head by its own fault, and a missing or unsafe directory
/// of entries by which of the two it is. It refuses a head that does not match its entries.
pub proof fn refused_journal_names_its_fault<F, P: ReplayJournalRecordProtector>(
    transcript: RecoveryTranscript,
    limits: ReplayJournalLimits,
    profile_id: [u8; PROFILE_ID_BYTES],
    context: ReplayJournalProtectionContext,
    protector: P,
    head: Result<Option<ReplayJournalState>, ReplayJournalStoreError>,
    loaded: Seq<ReplayJournalEntry>,
    failure: Option<ReplayJournalStoreError>,
    result: Result<ReplayJournalStore<F, P>, ReplayJournalStoreError>,
)
    requires
        transcript.ends(
            limits,
            profile_id,
            context,
            protector,
            head,
            loaded,
            failure,
            result,
        ),
    ensures
        ({
            let named = exists|i: int| 0 <= i < 16 && #[trigger] profile_id@[i] > 0;
            let looked = named && transcript.head is Some;
            &&& !named ==> result == Err::<ReplayJournalStore<F, P>, _>(
                ReplayJournalStoreError::ConfigurationMismatch,
            )
            &&& named && transcript.head is None ==> result == Err::<ReplayJournalStore<F, P>, _>(
                ReplayJournalStoreError::UnsafeRecoveryPath,
            )
            &&& looked && head is Err ==> result == Err::<ReplayJournalStore<F, P>, _>(head->Err_0)
            &&& looked && head is Ok && head->Ok_0 is None ==> result is Ok
            &&& looked && head is Ok && head->Ok_0 is Some && (head->Ok_0->Some_0.limits != limits
                || head->Ok_0->Some_0.profile_id != profile_id) ==> result == Err::<
                ReplayJournalStore<F, P>,
                _,
            >(ReplayJournalStoreError::ConfigurationMismatch)
            &&& looked && head is Ok && head->Ok_0 is Some && head->Ok_0->Some_0.limits == limits
                && head->Ok_0->Some_0.profile_id == profile_id ==> {
                &&& transcript.entries_directory is Some
                &&& transcript.entries_directory->Some_0 is Missing
                    || transcript.entries_directory->Some_0 is Unreadable ==> result == Err::<
                    ReplayJournalStore<F, P>,
                    _,
                >(ReplayJournalStoreError::CommittedEntryMissing)
                &&& transcript.entries_directory->Some_0 is RegularFile
                    || transcript.entries_directory->Some_0 is Other ==> result == Err::<
                    ReplayJournalStore<F, P>,
                    _,
                >(ReplayJournalStoreError::UnsafeRecoveryPath)
                &&& transcript.entries_directory->Some_0 is Directory && failure is Some
                    ==> result == Err::<ReplayJournalStore<F, P>, _>(failure->Some_0)
                &&& transcript.entries_directory->Some_0 is Directory && failure is None ==> (
                result is Ok || result == Err::<ReplayJournalStore<F, P>, _>(
                    ReplayJournalStoreError::CurrentStateMismatch,
                ))
            }
        }),
{
}

/// Calls of a storage follow each other: none leaves it as it was, and the last of a run
/// leads on from where the calls before it led.
pub proof fn storage_runs_step_by_step<F: ReplayJournalFiles>(
    before: F,
    steps: Seq<JournalFileStep<F::Staged>>,
    after: F,
)
    requires
        storage_runs(before, steps, after),
    ensures
        steps.len() == 0 ==> after == before,
        steps.len() > 0 ==> exists|middle: F|
            storage_runs(before, steps.drop_last(), middle) && #[trigger] F::steps_to(
                middle,
                steps.last(),
                after,
            ),
{
}

/// Recovery looks at the paths first, then reads the head, then looks at the entries'
/// directory again, and reads the entries last, each from the file that is named for it.
pub proof fn recovery_reads_in_order<S>(transcript: RecoveryTranscript)
    requires
        transcript.head is Some,
        transcript.entries_directory is Some,
    ensures
        ({
            let steps = transcript.steps::<S>();
            let paths = transcript.paths.len() as int;
            &&& steps.len() == paths + 2 + transcript.entries.len()
            &&& forall|i: int|
                0 <= i < paths ==> (#[trigger] steps[i]) is Inspected && steps[i]->Inspected_kind
                    == transcript.paths[i] && steps[i]->Inspected_path == recovery_path(i)
            &&& steps[paths] is ReadCurrent && steps[paths]->ReadCurrent_read
                == transcript.head->Some_0
            &&& steps[paths + 1] is Inspected && steps[paths + 1]->Inspected_path is Entries
                && steps[paths + 1]->Inspected_kind == transcript.entries_directory->Some_0
            &&& forall|i: int|
                0 <= i < transcript.entries.len() ==> {
                    let step = #[trigger] steps[paths + 2 + i];
                    step is ReadEntry && step->ReadEntry_read == transcript.entries[i]
                        && step->ReadEntry_name == crate::replay_store::entry_name((i + 1) as u64)
                }
        }),
{
}

/// Maintenance that fails names what stopped it: a head that is out of order or that the
/// protector declined, a directory that is not one, a stage that was not there, or, once the
/// head was being put in place, that it is unknown which head is there.
pub proof fn failed_maintenance_names_what_stopped_it<S, P: ReplayJournalRecordProtector>(
    steps: Seq<JournalFileStep<S>>,
    state: ReplayJournalState,
    context: ReplayJournalProtectionContext,
    protector: P,
    error: ReplayJournalStoreError,
)
    requires
        maintenance_run(steps, state, context, protector, Some(error)),
    ensures
        steps.len() <= 11,
        error is CurrentStateCorrupt ==> steps.len() == 7
            && crate::replay_record::current_value_error(state) is Some,
        error is CurrentStateProtectionUnavailable ==> steps.len() == 7
            && crate::replay_record::current_value_error(state) is None
            && crate::replay_record::head_may_be_declined(context, protector, state@),
        !(error is CurrentStateCorrupt) && !(error is CurrentStateProtectionUnavailable)
            ==> steps.len() > 0 && !step_succeeded(steps.last()),
        error is UnsafeRecoveryPath ==> steps.len() <= 3,
        error is LocalStageUnavailable ==> steps.len() <= 8,
        9 <= steps.len() ==> error is CurrentStateIndeterminate,
        error is CurrentStateIndeterminate ==> 9 <= steps.len(),
{
    if steps.len() > 0 {
        let last = steps.len() - 1;
        if last < 7 {
            assert(readies_directory(last, steps[last]));
        } else {
            assert(writes_head(last + 5, steps[last], state@, context, protector));
        }
    }
}

} // verus!
