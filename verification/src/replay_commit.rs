//! Recovery and durable commit of the replay journal.
//!
//! A transaction writes its entry first and the head second. Until the head is
//! replaced the entry is a candidate without authority; from the first rename
//! on, a failure leaves it open what is durable, and latches the store.

use crate::bytes::all_zero;
use crate::bytes::arrays_equal;
use crate::continuation::ContinuationReplayGuard;
use crate::instances::InstanceNumber;
use crate::journal_storage::RecoveryTranscript;
use crate::profile::PrivacyProfile;
use crate::record_files::PathKind;
use crate::replay_journal::ClaimSet;
use crate::replay_journal::ReplayJournalEntry;
use crate::replay_journal::ReplayJournalLimits;
use crate::replay_journal::ReplayJournalState;
use crate::replay_record::PersistentReplayJournalCurrentStateV3;
use crate::replay_record::PersistentReplayJournalEntry;
use crate::replay_record::ReplayJournalProtectionContext;
use crate::replay_record::ReplayJournalRecordProtector;
use crate::replay_store::entry_filename;
use crate::replay_store::load_authoritative_entry;
use crate::replay_store::load_authoritative_head;
use crate::replay_store::map_current_record_for_commit;
use crate::replay_store::map_directory_error;
use crate::replay_store::map_entry_record_for_commit;
use crate::replay_store::validate_committed_entries_directory;
use crate::replay_store::validate_recovery_paths;
use crate::replay_store::JournalFileStep;
use crate::replay_store::PreparedReplayJournalCommit;
use crate::replay_store::PreparedReplayMaintenanceAdvance;
use crate::replay_store::ReplayJournalAdvanceReceipt;
use crate::replay_store::ReplayJournalCommittedAdvance;
use crate::replay_store::ReplayJournalDirectory;
use crate::replay_store::ReplayJournalFiles;
use crate::replay_store::ReplayJournalMaintenanceAdvanceReceipt;
use crate::replay_store::ReplayJournalPath;
use crate::replay_store::ReplayJournalStore;
use crate::replay_store::ReplayJournalStoreError;
use crate::replay_store::ReplayJournalStoreHealth;
use crate::runtime_security::ContinuationReplayPlan;
use crate::runtime_security::ReplayCommitResult;
use crate::runtime_security::ReplayCommitUnavailable;
use crate::runtime_security::RequestReplayKey;
use crate::runtime_security::SecurityRoundCapture;
use crate::security_state::PROFILE_ID_BYTES;
use vstd::prelude::*;

verus! {

/// How one transaction ends, for one sequence of storage calls.
///
/// A latched or full journal touches no file. Otherwise the entry is written
/// first and the head second; the journal in memory changes only when both are
/// durable, and a failure after the first rename latches the store.
pub open spec fn commit_ends_by<F: ReplayJournalFiles, P: ReplayJournalRecordProtector>(
    before: ReplayJournalStore<F, P>,
    security_round: SecurityRoundCapture,
    request_key: RequestReplayKey,
    plan: ContinuationReplayPlan,
    after: ReplayJournalStore<F, P>,
    steps: Seq<JournalFileStep<F::Staged>>,
    result: Result<ReplayCommitResult, ReplayJournalStoreError>,
) -> bool {
    if before.health is Indeterminate {
        after == before && result == Err::<ReplayCommitResult, _>(
            ReplayJournalStoreError::LatchedIndeterminate,
        )
    } else if crate::replay_store::capacity_error(before@) is Some {
        after == before && result == Err::<ReplayCommitResult, _>(
            crate::replay_store::capacity_error(before@)->0,
        )
    } else {
        let entry = crate::replay_store::planned_entry(before@, request_key, plan);
        &&& crate::journal_storage::storage_runs(before.files, steps, after.files)
        &&& crate::journal_storage::commit_run(
            steps,
            entry,
            crate::replay_store::journal_after(before@, entry).head,
            before.protection_context,
            before.protector,
            crate::journal_storage::error_of(result),
        )
        &&& match result {
            Ok(result) => {
                &&& after.health is Ready
                &&& after@ == crate::replay_store::journal_after(before@, entry)
                &&& after.history@ == before.history@.push(entry)
                &&& after.protection_context == before.protection_context
                &&& after.protector == before.protector
                &&& after.instance_identity == before.instance_identity
                &&& result.authority.round == security_round
                &&& result.decision == crate::replay_store::planned_decision(
                    before@,
                    request_key,
                    plan,
                )
            },
            Err(_) => {
                &&& after.same_contents(before)
                &&& (after.health is Indeterminate <==> steps.len() > 8)
            },
        }
    }
}

/// How one transaction ends.
pub open spec fn commit_ends<F: ReplayJournalFiles, P: ReplayJournalRecordProtector>(
    before: ReplayJournalStore<F, P>,
    security_round: SecurityRoundCapture,
    request_key: RequestReplayKey,
    plan: ContinuationReplayPlan,
    after: ReplayJournalStore<F, P>,
    result: Result<ReplayCommitResult, ReplayJournalStoreError>,
) -> bool {
    exists|steps: Seq<JournalFileStep<F::Staged>>| #[trigger]
        commit_ends_by(before, security_round, request_key, plan, after, steps, result)
}

/// How one prepared watermark advance ends, for one sequence of storage calls.
///
/// A failure before the rename of the head leaves the store ready.
pub open spec fn maintenance_ends_by<F: ReplayJournalFiles, P: ReplayJournalRecordProtector>(
    before: ReplayJournalStore<F, P>,
    prepared: PreparedReplayMaintenanceAdvance,
    after: ReplayJournalStore<F, P>,
    steps: Seq<JournalFileStep<F::Staged>>,
    result: Result<ReplayJournalMaintenanceAdvanceReceipt, ReplayJournalStoreError>,
) -> bool {
    if before.health is Indeterminate {
        after == before && result == Err::<ReplayJournalMaintenanceAdvanceReceipt, _>(
            ReplayJournalStoreError::LatchedIndeterminate,
        )
    } else if prepared.previous_digest.0@ != crate::replay_journal::head_digest(before.state@) {
        after == before && result == Err::<ReplayJournalMaintenanceAdvanceReceipt, _>(
            ReplayJournalStoreError::CurrentStateMismatch,
        )
    } else {
        &&& crate::journal_storage::storage_runs(before.files, steps, after.files)
        &&& crate::journal_storage::maintenance_run(
            steps,
            prepared.next_state,
            before.protection_context,
            before.protector,
            crate::journal_storage::error_of(result),
        )
        &&& match result {
            Ok(receipt) => {
                &&& after.same_but_files(
                    (ReplayJournalStore { state: prepared.next_state, ..before }),
                )
                &&& receipt.instance_identity == before.instance_identity
                &&& receipt.previous_digest == prepared.previous_digest
                &&& receipt.committed_digest.0@ == crate::replay_journal::head_digest(after.state@)
            },
            Err(_) => {
                &&& after.same_contents(before)
                &&& (after.health is Indeterminate <==> steps.len() > 8)
            },
        }
    }
}

/// How one prepared watermark advance ends.
pub open spec fn maintenance_ends<F: ReplayJournalFiles, P: ReplayJournalRecordProtector>(
    before: ReplayJournalStore<F, P>,
    prepared: PreparedReplayMaintenanceAdvance,
    after: ReplayJournalStore<F, P>,
    result: Result<ReplayJournalMaintenanceAdvanceReceipt, ReplayJournalStoreError>,
) -> bool {
    exists|steps: Seq<JournalFileStep<F::Staged>>| #[trigger]
        maintenance_ends_by(before, prepared, after, steps, result)
}

impl<F: ReplayJournalFiles, P: ReplayJournalRecordProtector> ReplayJournalStore<F, P> {
    /// Recovers a journal from its files.
    ///
    /// The head record is the sole local authority: without one the journal is
    /// empty, whatever candidate may lie beside it. With one, every entry up to
    /// its sequence is read and applied in order, and the outcome must be
    /// exactly the head that was recorded.
    pub fn open_with_limits(
        files: F,
        limits: ReplayJournalLimits,
        expected_profile_id: [u8; PROFILE_ID_BYTES],
        protection_context: ReplayJournalProtectionContext,
        protector: P,
        instance: InstanceNumber,
    ) -> (result: Result<Self, ReplayJournalStoreError>)
        ensures
            crate::journal_storage::opening_ends(
                files,
                limits,
                expected_profile_id,
                protection_context,
                protector,
                result,
            ),
            result matches Ok(store) ==> {
                &&& store.wf()
                &&& store.health is Ready
                &&& store.state.limits == limits
                &&& store.state.profile_id == expected_profile_id
                &&& store.protection_context == protection_context
                &&& store.protector == protector
                &&& store.instance_identity == instance@
            },
    {
        let ghost mut transcript = RecoveryTranscript {
            paths: Seq::empty(),
            head: None,
            entries_directory: None,
            entries: Seq::empty(),
        };
        let ghost mut head: Result<Option<ReplayJournalState>, ReplayJournalStoreError> = Ok(None);
        let ghost mut entries: Seq<ReplayJournalEntry> = Seq::empty();
        let ghost mut failure: Option<ReplayJournalStoreError> = None;
        if all_zero(&expected_profile_id) {
            proof {
                assert(transcript.steps::<F::Staged>() =~= Seq::empty());
                assert(crate::journal_storage::storage_runs(
                    files,
                    transcript.steps::<F::Staged>(),
                    files,
                ));
                assert(transcript.ends::<F, P>(
                    limits,
                    expected_profile_id,
                    protection_context,
                    protector,
                    head,
                    entries,
                    failure,
                    Err(ReplayJournalStoreError::ConfigurationMismatch),
                ));
            }
            return Err(ReplayJournalStoreError::ConfigurationMismatch);
        }
        let mut storage = files;
        let validated = validate_recovery_paths(&mut storage);
        proof {
            let kinds = choose|kinds: Seq<PathKind>| #[trigger]
                crate::journal_storage::paths_end(kinds, validated)
                    && crate::journal_storage::storage_runs(
                    files,
                    crate::journal_storage::path_steps(kinds),
                    storage,
                );
            transcript = RecoveryTranscript { paths: kinds, ..transcript };
            assert(transcript.steps::<F::Staged>() =~= crate::journal_storage::path_steps(kinds));
        }
        match validated {
            Ok(()) => {},
            Err(error) => {
                assert(transcript.ends::<F, P>(
            limits,
            expected_profile_id,
            protection_context,
            protector,
            head,
            entries,
            failure,
            Err(error),
        ));
                return Err(error);
            },
        }
        let ghost middle = storage;
        let read = storage.read_current();
        let ghost head_read = read;
        let loaded_head = load_authoritative_head(read, &protection_context, &protector);
        proof {
            let step = JournalFileStep::ReadCurrent { read: head_read };
            let steps = transcript.steps::<F::Staged>();
            crate::journal_storage::lemma_run_goes_on(files, steps, middle, step, storage);
            transcript = RecoveryTranscript { head: Some(head_read), ..transcript };
            assert(transcript.steps::<F::Staged>() =~= steps.push(step));
            head = loaded_head;
        }
        let persisted_state = match loaded_head {
            Ok(Some(state)) => state,
            Ok(None) => {
                let store = ReplayJournalStore {
                    files: storage,
                    protection_context,
                    protector,
                    instance_identity: instance.into_number(),
                    state: ReplayJournalState::empty(limits, expected_profile_id),
                    request_claims: ClaimSet::new(),
                    continuation_claims: ClaimSet::new(),
                    health: ReplayJournalStoreHealth::Ready,
                    history: Ghost(Seq::empty()),
                };
                proof {
                    lemma_fields_of_view(store.state, limits, expected_profile_id);
                    assert(store@ =~= crate::replay_store::empty_journal(
                        limits.max_transactions,
                        expected_profile_id@,
                    ));
                    assert(crate::replay_store::with_watermark(store@, 0) =~= store@);
                    assert(crate::journal_storage::storage_runs(
                        files,
                        transcript.steps::<F::Staged>(),
                        store.files,
                    ));
                    assert(transcript.ends::<F, P>(
                        limits,
                        expected_profile_id,
                        protection_context,
                        protector,
                        head,
                        entries,
                        failure,
                        Ok(store),
                    ));
                }
                return Ok(store);
            },
            Err(error) => {
                assert(transcript.ends::<F, P>(
            limits,
            expected_profile_id,
            protection_context,
            protector,
            head,
            entries,
            failure,
            Err(error),
        ));
                return Err(error);
            },
        };
        if persisted_state.limits != limits || !arrays_equal(
            &persisted_state.profile_id,
            &expected_profile_id,
        ) {
            assert(transcript.ends::<F, P>(
            limits,
            expected_profile_id,
            protection_context,
            protector,
            head,
            entries,
            failure,
            Err(ReplayJournalStoreError::ConfigurationMismatch),
        ));
            return Err(ReplayJournalStoreError::ConfigurationMismatch);
        }
        let ghost middle = storage;
        let kind = storage.inspect(ReplayJournalPath::Entries);
        proof {
            let step = JournalFileStep::Inspected { path: ReplayJournalPath::Entries, kind };
            let steps = transcript.steps::<F::Staged>();
            crate::journal_storage::lemma_run_goes_on(files, steps, middle, step, storage);
            transcript = RecoveryTranscript { entries_directory: Some(kind), ..transcript };
            assert(transcript.steps::<F::Staged>() =~= steps.push(step));
        }
        match validate_committed_entries_directory(kind) {
            Ok(()) => {},
            Err(error) => {
                assert(transcript.ends::<F, P>(
            limits,
            expected_profile_id,
            protection_context,
            protector,
            head,
            entries,
            failure,
            Err(error),
        ));
                return Err(error);
            },
        }
        let mut state = ReplayJournalState::empty(limits, expected_profile_id);
        let mut request_claims = ClaimSet::new();
        let mut continuation_claims = ClaimSet::new();
        let mut sequence: u64 = 0;
        proof {
            lemma_fields_of_view(state, limits, expected_profile_id);
            assert(crate::replay_store::rebuilt(
                limits.max_transactions,
                expected_profile_id@,
                entries,
            ) == Some(
                crate::replay_store::empty_journal(limits.max_transactions, expected_profile_id@),
            ));
        }
        while sequence < persisted_state.committed_sequence
            invariant
                sequence <= persisted_state.committed_sequence,
                !crate::bytes::is_zero(expected_profile_id@),
                request_claims.wf(),
                continuation_claims.wf(),
                state.limits == limits,
                state.profile_id == expected_profile_id,
                persisted_state.limits == limits,
                persisted_state.profile_id == expected_profile_id,
                crate::replay_store::rebuilt(
                    limits.max_transactions,
                    expected_profile_id@,
                    entries,
                ) == Some(
                    (crate::replay_store::JournalModel {
                        head: state@,
                        requests: request_claims@,
                        continuations: continuation_claims@,
                    }),
                ),
                failure is None,
                entries.len() == sequence,
                transcript.entries_directory == Some(PathKind::Directory),
                transcript.head is Some,
                head == Ok::<_, ReplayJournalStoreError>(Some(persisted_state)),
                crate::journal_storage::paths_end(transcript.paths, Ok(())),
                crate::replay_store::head_read_amounts_to(
                    transcript.head->0,
                    protection_context,
                    protector,
                    head,
                ),
                transcript.entries_end(
                    limits.max_transactions,
                    expected_profile_id@,
                    protection_context,
                    protector,
                    entries,
                    failure,
                ),
                crate::journal_storage::storage_runs(
                    files,
                    transcript.steps::<F::Staged>(),
                    storage,
                ),
            decreases persisted_state.committed_sequence - sequence,
        {
            sequence = sequence + 1;
            let name = entry_filename(sequence);
            let ghost middle = storage;
            let ghost before = transcript;
            let read = storage.read_entry(&name);
            let ghost entry_read = read;
            let outcome = load_authoritative_entry(read, sequence, &protection_context, &protector);
            proof {
                let step = JournalFileStep::ReadEntry { name: name@, read: entry_read };
                let steps = transcript.steps::<F::Staged>();
                crate::journal_storage::lemma_run_goes_on(files, steps, middle, step, storage);
                transcript = RecoveryTranscript {
                    entries: transcript.entries.push(entry_read),
                    ..transcript
                };
                assert(transcript.steps::<F::Staged>() =~= steps.push(step));
                assert forall|i: int| 0 <= i < entries.len() implies
                    crate::replay_store::entry_read_amounts_to(
                    transcript.entries[i],
                    (i + 1) as u64,
                    protection_context,
                    protector,
                    Ok(#[trigger] entries[i]),
                ) by {
                    assert(transcript.entries[i] == before.entries[i]);
                }
            }
            let entry = match outcome {
                Ok(entry) => entry,
                Err(error) => {
                    proof {
                        failure = Some(error);
                        assert(crate::journal_storage::unusable_entry(
                            limits.max_transactions,
                            expected_profile_id@,
                            entries,
                            outcome,
                        ) == Some(error));
                    }
                    assert(transcript.ends::<F, P>(
            limits,
            expected_profile_id,
            protection_context,
            protector,
            head,
            entries,
            failure,
            Err(error),
        ));
                    return Err(error);
                },
            };
            let (next, _) = match state.apply_entry(
                &mut request_claims,
                &mut continuation_claims,
                &entry,
            ) {
                Ok(applied) => applied,
                Err(_) => {
                    proof {
                        failure = Some(ReplayJournalStoreError::CommittedEntryCorrupt);
                        assert(crate::journal_storage::unusable_entry(
                            limits.max_transactions,
                            expected_profile_id@,
                            entries,
                            outcome,
                        ) == Some(ReplayJournalStoreError::CommittedEntryCorrupt));
                    }
                    assert(transcript.ends::<F, P>(
            limits,
            expected_profile_id,
            protection_context,
            protector,
            head,
            entries,
            failure,
            Err(ReplayJournalStoreError::CommittedEntryCorrupt),
        ));
                    return Err(ReplayJournalStoreError::CommittedEntryCorrupt);
                },
            };
            proof {
                crate::replay_store::rebuilding_extends_by_one_entry(
                    limits.max_transactions,
                    expected_profile_id@,
                    entries,
                    entry,
                );
                entries = entries.push(entry);
            }
            state = next;
        }
        let ghost rebuilt_journal = crate::replay_store::JournalModel {
            head: state@,
            requests: request_claims@,
            continuations: continuation_claims@,
        };
        state.maintenance_expiry_bucket_watermark =
        persisted_state.maintenance_expiry_bucket_watermark;
        proof {
            crate::replay_store::rebuilt_journal_is_consistent(
                limits.max_transactions,
                expected_profile_id@,
                entries,
            );
            assert(crate::replay_store::with_watermark(
                rebuilt_journal,
                persisted_state@.watermark,
            ).head =~= state@);
        }
        if !state.same(&persisted_state) {
            proof {
                lemma_different_states(state, persisted_state);
            }
            assert(transcript.ends::<F, P>(
            limits,
            expected_profile_id,
            protection_context,
            protector,
            head,
            entries,
            failure,
            Err(ReplayJournalStoreError::CurrentStateMismatch),
        ));
            return Err(ReplayJournalStoreError::CurrentStateMismatch);
        }
        let store = ReplayJournalStore {
            files: storage,
            protection_context,
            protector,
            instance_identity: instance.into_number(),
            state,
            request_claims,
            continuation_claims,
            health: ReplayJournalStoreHealth::Ready,
            history: Ghost(entries),
        };
        proof {
            assert(crate::replay_store::with_watermark(store@, 0) =~= rebuilt_journal);
            assert(crate::replay_store::with_watermark(rebuilt_journal, persisted_state@.watermark)
                =~= store@);
            assert(crate::journal_storage::storage_runs(
                files,
                transcript.steps::<F::Staged>(),
                store.files,
            ));
            assert(transcript.ends::<F, P>(
                limits,
                expected_profile_id,
                protection_context,
                protector,
                head,
                entries,
                failure,
                Ok(store),
            ));
        }
        Ok(store)
    }

    /// Recovers the journal of one profile, with that profile's capacity.
    pub fn open(
        files: F,
        profile: &PrivacyProfile,
        protection_context: ReplayJournalProtectionContext,
        protector: P,
        instance: InstanceNumber,
    ) -> (result: Result<Self, ReplayJournalStoreError>)
        ensures
            crate::journal_storage::opening_ends(
                files,
                ReplayJournalLimits {
                    max_transactions: profile.replay_policy.transaction_capacity,
                },
                profile.profile_id,
                protection_context,
                protector,
                result,
            ),
            result matches Ok(store) ==> store.wf() && store.health is Ready
                && store.state.limits.max_transactions == profile.replay_policy.transaction_capacity
                && store.state.profile_id == profile.profile_id && store.protection_context
                == protection_context && store.protector == protector && store.instance_identity
                == instance@,
    {
        ReplayJournalStore::open_with_limits(
            files,
            ReplayJournalLimits::from_compiled_policy(profile.replay_policy()),
            *profile.profile_id(),
            protection_context,
            protector,
            instance,
        )
    }

    /// Makes all directories exist and be durable before anything is staged.
    pub fn ensure_directories(&mut self) -> (result: Result<(), ReplayJournalStoreError>)
        ensures
            final(self).same_but_files(*old(self)),
            exists|steps: Seq<JournalFileStep<F::Staged>>| #[trigger]
                crate::journal_storage::storage_runs(old(self).files, steps, final(self).files)
                    && crate::journal_storage::directories_run(
                    steps,
                    crate::journal_storage::error_of(result),
                ),
    {
        let ghost start = self.files;
        let ghost mut steps: Seq<JournalFileStep<F::Staged>> = Seq::empty();
        let ghost middle = self.files;
        let reply = self.files.ensure_real_directory(ReplayJournalDirectory::Recovery);
        proof {
            let step = JournalFileStep::Ensured { directory: ReplayJournalDirectory::Recovery, reply };
            crate::journal_storage::lemma_run_goes_on(start, steps, middle, step, self.files);
            steps = steps.push(step);
        }
        match reply {
            Ok(()) => {},
            Err(error) => {
                return Err(map_directory_error(error));
            },
        }
        let ghost middle = self.files;
        let reply = self.files.ensure_real_directory(ReplayJournalDirectory::Entries);
        proof {
            let step = JournalFileStep::Ensured { directory: ReplayJournalDirectory::Entries, reply };
            crate::journal_storage::lemma_run_goes_on(start, steps, middle, step, self.files);
            steps = steps.push(step);
        }
        match reply {
            Ok(()) => {},
            Err(error) => {
                return Err(map_directory_error(error));
            },
        }
        let ghost middle = self.files;
        let reply = self.files.ensure_real_directory(ReplayJournalDirectory::Staging);
        proof {
            let step = JournalFileStep::Ensured { directory: ReplayJournalDirectory::Staging, reply };
            crate::journal_storage::lemma_run_goes_on(start, steps, middle, step, self.files);
            steps = steps.push(step);
        }
        match reply {
            Ok(()) => {},
            Err(error) => {
                return Err(map_directory_error(error));
            },
        }
        let ghost middle = self.files;
        let done = self.files.sync_directory(ReplayJournalDirectory::Parent);
        proof {
            let step = JournalFileStep::SyncedDirectory {
                directory: ReplayJournalDirectory::Parent,
                done,
            };
            crate::journal_storage::lemma_run_goes_on(start, steps, middle, step, self.files);
            steps = steps.push(step);
        }
        if !done {
            return Err(ReplayJournalStoreError::LocalStageUnavailable);
        }
        let ghost middle = self.files;
        let done = self.files.sync_directory(ReplayJournalDirectory::Recovery);
        proof {
            let step = JournalFileStep::SyncedDirectory {
                directory: ReplayJournalDirectory::Recovery,
                done,
            };
            crate::journal_storage::lemma_run_goes_on(start, steps, middle, step, self.files);
            steps = steps.push(step);
        }
        if !done {
            return Err(ReplayJournalStoreError::LocalStageUnavailable);
        }
        let ghost middle = self.files;
        let done = self.files.sync_directory(ReplayJournalDirectory::Entries);
        proof {
            let step = JournalFileStep::SyncedDirectory {
                directory: ReplayJournalDirectory::Entries,
                done,
            };
            crate::journal_storage::lemma_run_goes_on(start, steps, middle, step, self.files);
            steps = steps.push(step);
        }
        if !done {
            return Err(ReplayJournalStoreError::LocalStageUnavailable);
        }
        let ghost middle = self.files;
        let done = self.files.sync_directory(ReplayJournalDirectory::Staging);
        proof {
            let step = JournalFileStep::SyncedDirectory {
                directory: ReplayJournalDirectory::Staging,
                done,
            };
            crate::journal_storage::lemma_run_goes_on(start, steps, middle, step, self.files);
            steps = steps.push(step);
        }
        if !done {
            return Err(ReplayJournalStoreError::LocalStageUnavailable);
        }
        Ok(())
    }

    /// Seals the prepared entry and stages its record.
    pub fn stage_entry_file(&mut self, prepared: &PreparedReplayJournalCommit) -> (result: Result<
        F::Staged,
        ReplayJournalStoreError,
    >)
        requires
            prepared.entry.sequence != 0,
        ensures
            final(self).same_but_files(*old(self)),
            exists|steps: Seq<JournalFileStep<F::Staged>>| #[trigger]
                crate::journal_storage::storage_runs(old(self).files, steps, final(self).files)
                    && crate::journal_storage::entry_staging_run(
                    steps,
                    prepared.entry,
                    old(self).protection_context,
                    old(self).protector,
                    result,
                ),
    {
        let ghost start = self.files;
        let readied = self.ensure_directories();
        let ghost mut steps = choose|steps: Seq<JournalFileStep<F::Staged>>| #[trigger]
            crate::journal_storage::storage_runs(start, steps, self.files)
                && crate::journal_storage::directories_run(
                steps,
                crate::journal_storage::error_of(readied),
            );
        match readied {
            Ok(()) => {},
            Err(error) => {
                return Err(error);
            },
        }
        assert(steps.take(7) =~= steps);
        let persistent = match PersistentReplayJournalEntry::from_business(
            &prepared.entry,
            &self.protection_context,
            &self.protector,
        ) {
            Ok(persistent) => persistent,
            Err(error) => {
                return Err(map_entry_record_for_commit(error));
            },
        };
        let ghost middle = self.files;
        let staged = self.files.stage(persistent.as_bytes().as_slice());
        proof {
            let step = JournalFileStep::Staged { record: persistent.0@, staged };
            crate::journal_storage::lemma_run_goes_on(start, steps, middle, step, self.files);
            assert(steps.push(step).take(7) =~= steps);
            steps = steps.push(step);
        }
        match staged {
            Some(staged) => Ok(staged),
            None => Err(ReplayJournalStoreError::LocalStageUnavailable),
        }
    }

    /// Renames the staged entry into place.
    pub fn replace_entry_file(
        &mut self,
        staged: F::Staged,
        prepared: &PreparedReplayJournalCommit,
    ) -> (result: Result<(), ReplayJournalStoreError>)
        ensures
            F::steps_to(
                old(self).files,
                JournalFileStep::ReplacedEntry {
                    staged,
                    name: crate::replay_store::entry_name(prepared.entry.sequence),
                    done: result is Ok,
                },
                final(self).files,
            ),
            match result {
                Ok(_) => final(self).same_but_files(*old(self)),
                Err(error) => final(self).same_contents(*old(self))
                    && final(self).health is Indeterminate && error
                    == ReplayJournalStoreError::CandidateStateIndeterminate,
            },
    {
        let name = entry_filename(prepared.entry.sequence);
        if !self.files.replace_entry(staged, &name) {
            return Err(self.latch(ReplayJournalStoreError::CandidateStateIndeterminate));
        }
        Ok(())
    }

    /// Makes the renamed entry durable.
    pub fn confirm_entry_file_durable(&mut self, prepared: &PreparedReplayJournalCommit) -> (result:
        Result<(), ReplayJournalStoreError>)
        ensures
            exists|steps: Seq<JournalFileStep<F::Staged>>| #[trigger]
                crate::journal_storage::storage_runs(old(self).files, steps, final(self).files)
                    && crate::journal_storage::entry_sync_run(
                    steps,
                    prepared.entry,
                    old(self).protection_context,
                    old(self).protector,
                    crate::journal_storage::error_of(result),
                ),
            match result {
                Ok(_) => final(self).same_but_files(*old(self)),
                Err(error) => final(self).same_contents(*old(self))
                    && final(self).health is Indeterminate && error
                    == ReplayJournalStoreError::CandidateStateIndeterminate,
            },
    {
        let ghost start = self.files;
        let ghost mut steps: Seq<JournalFileStep<F::Staged>> = Seq::empty();
        let name = entry_filename(prepared.entry.sequence);
        let ghost middle = self.files;
        let done = self.files.sync_entry(&name);
        proof {
            let step = JournalFileStep::SyncedEntry { name: name@, done };
            crate::journal_storage::lemma_run_goes_on(start, steps, middle, step, self.files);
            steps = steps.push(step);
        }
        if !done {
            return Err(self.latch(ReplayJournalStoreError::CandidateStateIndeterminate));
        }
        let ghost middle = self.files;
        let done = self.files.sync_directory(ReplayJournalDirectory::Entries);
        proof {
            let step = JournalFileStep::SyncedDirectory {
                directory: ReplayJournalDirectory::Entries,
                done,
            };
            crate::journal_storage::lemma_run_goes_on(start, steps, middle, step, self.files);
            steps = steps.push(step);
        }
        if !done {
            return Err(self.latch(ReplayJournalStoreError::CandidateStateIndeterminate));
        }
        let ghost middle = self.files;
        let done = self.files.sync_directory(ReplayJournalDirectory::Staging);
        proof {
            let step = JournalFileStep::SyncedDirectory {
                directory: ReplayJournalDirectory::Staging,
                done,
            };
            crate::journal_storage::lemma_run_goes_on(start, steps, middle, step, self.files);
            steps = steps.push(step);
        }
        if !done {
            return Err(self.latch(ReplayJournalStoreError::CandidateStateIndeterminate));
        }
        Ok(())
    }

    /// Seals a head and stages its record.
    pub fn stage_current_state(&mut self, next_state: &ReplayJournalState) -> (result: Result<
        F::Staged,
        ReplayJournalStoreError,
    >)
        ensures
            final(self).same_but_files(*old(self)),
            exists|steps: Seq<JournalFileStep<F::Staged>>| #[trigger]
                crate::journal_storage::storage_runs(old(self).files, steps, final(self).files)
                    && crate::journal_storage::head_staging_run(
                    steps,
                    *next_state,
                    old(self).protection_context,
                    old(self).protector,
                    result,
                ),
    {
        let ghost start = self.files;
        let ghost mut steps: Seq<JournalFileStep<F::Staged>> = Seq::empty();
        let persistent = match PersistentReplayJournalCurrentStateV3::from_business(
            next_state,
            &self.protection_context,
            &self.protector,
        ) {
            Ok(persistent) => persistent,
            Err(error) => {
                assert(crate::journal_storage::storage_runs(start, steps, self.files));
                return Err(map_current_record_for_commit(error));
            },
        };
        let staged = self.files.stage(persistent.as_bytes().as_slice());
        proof {
            let step = JournalFileStep::Staged { record: persistent.0@, staged };
            crate::journal_storage::lemma_run_goes_on(start, steps, start, step, self.files);
            steps = steps.push(step);
        }
        match staged {
            Some(staged) => Ok(staged),
            None => Err(ReplayJournalStoreError::LocalStageUnavailable),
        }
    }

    /// Renames the staged head into place.
    pub fn replace_current_state(&mut self, staged: F::Staged) -> (result: Result<
        (),
        ReplayJournalStoreError,
    >)
        ensures
            F::steps_to(
                old(self).files,
                JournalFileStep::ReplacedCurrent { staged, done: result is Ok },
                final(self).files,
            ),
            match result {
                Ok(_) => final(self).same_but_files(*old(self)),
                Err(error) => final(self).same_contents(*old(self))
                    && final(self).health is Indeterminate && error
                    == ReplayJournalStoreError::CurrentStateIndeterminate,
            },
    {
        if !self.files.replace_current(staged) {
            return Err(self.latch(ReplayJournalStoreError::CurrentStateIndeterminate));
        }
        Ok(())
    }

    /// Makes the renamed head durable.
    pub fn confirm_current_state_durable(&mut self) -> (result: Result<(), ReplayJournalStoreError>)
        ensures
            exists|steps: Seq<JournalFileStep<F::Staged>>| #[trigger]
                crate::journal_storage::storage_runs(old(self).files, steps, final(self).files)
                    && crate::journal_storage::head_sync_run(
                    steps,
                    crate::journal_storage::error_of(result),
                ),
            match result {
                Ok(_) => final(self).same_but_files(*old(self)),
                Err(error) => final(self).same_contents(*old(self))
                    && final(self).health is Indeterminate && error
                    == ReplayJournalStoreError::CurrentStateIndeterminate,
            },
    {
        let ghost start = self.files;
        let ghost mut steps: Seq<JournalFileStep<F::Staged>> = Seq::empty();
        let ghost middle = self.files;
        let done = self.files.sync_directory(ReplayJournalDirectory::Recovery);
        proof {
            let step = JournalFileStep::SyncedDirectory {
                directory: ReplayJournalDirectory::Recovery,
                done,
            };
            crate::journal_storage::lemma_run_goes_on(start, steps, middle, step, self.files);
            steps = steps.push(step);
        }
        if !done {
            return Err(self.latch(ReplayJournalStoreError::CurrentStateIndeterminate));
        }
        let ghost middle = self.files;
        let done = self.files.sync_directory(ReplayJournalDirectory::Staging);
        proof {
            let step = JournalFileStep::SyncedDirectory {
                directory: ReplayJournalDirectory::Staging,
                done,
            };
            crate::journal_storage::lemma_run_goes_on(start, steps, middle, step, self.files);
            steps = steps.push(step);
        }
        if !done {
            return Err(self.latch(ReplayJournalStoreError::CurrentStateIndeterminate));
        }
        Ok(())
    }

    /// Commits one transaction, and captures the evidence of it.
    ///
    /// The journal in memory changes only once both files are durable.
    pub fn commit_transaction_and_capture(
        &mut self,
        security_round: &SecurityRoundCapture,
        request_key: &RequestReplayKey,
        continuation_plan: &ContinuationReplayPlan,
    ) -> (result: Result<ReplayJournalCommittedAdvance, ReplayJournalStoreError>)
        requires
            old(self).wf(),
        ensures
            final(self).wf(),
            match result {
                Ok(advance) => {
                    &&& commit_ends(
                        *old(self),
                        *security_round,
                        *request_key,
                        *continuation_plan,
                        *final(self),
                        Ok(advance.result),
                    )
                    &&& advance.receipt.instance_identity == old(self).instance_identity
                    &&& advance.receipt.previous_digest.0@ == crate::replay_journal::head_digest(
                        old(self).state@,
                    )
                    &&& advance.receipt.committed_digest.0@ == crate::replay_journal::head_digest(
                        final(self).state@,
                    )
                },
                Err(error) => commit_ends(
                    *old(self),
                    *security_round,
                    *request_key,
                    *continuation_plan,
                    *final(self),
                    Err(error),
                ),
            },
    {
        let ghost before = *self;
        let ghost start = self.files;
        let ghost mut steps: Seq<JournalFileStep<F::Staged>> = Seq::empty();
        let previous_digest = self.state.component_state_digest();
        let prepared = match self.prepare_commit(request_key, continuation_plan) {
            Ok(prepared) => prepared,
            Err(error) => {
                assert(commit_ends_by(
                    before,
                    *security_round,
                    *request_key,
                    *continuation_plan,
                    *self,
                    steps,
                    Err(error),
                ));
                return Err(error);
            },
        };
        proof {
            lemma_next_head_can_be_written(*self, prepared);
        }
        let staging = self.stage_entry_file(&prepared);
        proof {
            steps = choose|steps: Seq<JournalFileStep<F::Staged>>| #[trigger]
                crate::journal_storage::storage_runs(start, steps, self.files)
                    && crate::journal_storage::entry_staging_run(
                    steps,
                    prepared.entry,
                    before.protection_context,
                    before.protector,
                    staging,
                );
            lemma_staged_entry_run(before, prepared, steps, staging);
        }
        let staged_entry = match staging {
            Ok(staged) => staged,
            Err(error) => {
                assert(commit_ends_by(
                    before,
                    *security_round,
                    *request_key,
                    *continuation_plan,
                    *self,
                    steps,
                    Err(error),
                ));
                return Err(error);
            },
        };
        let ghost middle = self.files;
        let ghost renamed = staged_entry;
        let replacing = self.replace_entry_file(staged_entry, &prepared);
        proof {
            let step = JournalFileStep::ReplacedEntry {
                staged: renamed,
                name: crate::replay_store::entry_name(prepared.entry.sequence),
                done: replacing is Ok,
            };
            crate::journal_storage::lemma_run_goes_on(start, steps, middle, step, self.files);
            steps = steps.push(step);
        }
        match replacing {
            Ok(()) => {},
            Err(error) => {
                assert(commit_ends_by(
                    before,
                    *security_round,
                    *request_key,
                    *continuation_plan,
                    *self,
                    steps,
                    Err(error),
                ));
                return Err(error);
            },
        }
        let ghost middle = self.files;
        let confirming = self.confirm_entry_file_durable(&prepared);
        proof {
            let more = choose|more: Seq<JournalFileStep<F::Staged>>| #[trigger]
                crate::journal_storage::storage_runs(middle, more, self.files)
                    && crate::journal_storage::entry_sync_run(
                    more,
                    prepared.entry,
                    before.protection_context,
                    before.protector,
                    crate::journal_storage::error_of(confirming),
                );
            crate::journal_storage::lemma_runs_join(start, steps, middle, more, self.files);
            steps = steps + more;
        }
        match confirming {
            Ok(()) => {},
            Err(error) => {
                assert(commit_ends_by(
                    before,
                    *security_round,
                    *request_key,
                    *continuation_plan,
                    *self,
                    steps,
                    Err(error),
                ));
                return Err(error);
            },
        }
        let ghost middle = self.files;
        let staging = self.stage_current_state(&prepared.next_state);
        proof {
            let more = choose|more: Seq<JournalFileStep<F::Staged>>| #[trigger]
                crate::journal_storage::storage_runs(middle, more, self.files)
                    && crate::journal_storage::head_staging_run(
                    more,
                    prepared.next_state,
                    before.protection_context,
                    before.protector,
                    staging,
                );
            crate::journal_storage::lemma_runs_join(start, steps, middle, more, self.files);
            steps = steps + more;
        }
        let staged_current = match staging {
            Ok(staged) => staged,
            Err(error) => {
                let error = self.latch(error);
                assert(commit_ends_by(
                    before,
                    *security_round,
                    *request_key,
                    *continuation_plan,
                    *self,
                    steps,
                    Err(error),
                ));
                return Err(error);
            },
        };
        let ghost middle = self.files;
        let ghost renamed = staged_current;
        let replacing = self.replace_current_state(staged_current);
        proof {
            let step = JournalFileStep::ReplacedCurrent { staged: renamed, done: replacing is Ok };
            crate::journal_storage::lemma_run_goes_on(start, steps, middle, step, self.files);
            steps = steps.push(step);
        }
        match replacing {
            Ok(()) => {},
            Err(error) => {
                assert(commit_ends_by(
                    before,
                    *security_round,
                    *request_key,
                    *continuation_plan,
                    *self,
                    steps,
                    Err(error),
                ));
                return Err(error);
            },
        }
        let ghost middle = self.files;
        let confirming = self.confirm_current_state_durable();
        proof {
            let more = choose|more: Seq<JournalFileStep<F::Staged>>| #[trigger]
                crate::journal_storage::storage_runs(middle, more, self.files)
                    && crate::journal_storage::head_sync_run(
                    more,
                    crate::journal_storage::error_of(confirming),
                );
            crate::journal_storage::lemma_runs_join(start, steps, middle, more, self.files);
            steps = steps + more;
        }
        match confirming {
            Ok(()) => {},
            Err(error) => {
                assert(commit_ends_by(
                    before,
                    *security_round,
                    *request_key,
                    *continuation_plan,
                    *self,
                    steps,
                    Err(error),
                ));
                return Err(error);
            },
        }
        let result = self.apply_prepared_commit_in_memory(security_round, prepared);
        assert(commit_ends_by(
            before,
            *security_round,
            *request_key,
            *continuation_plan,
            *self,
            steps,
            Ok(result),
        ));
        let receipt = ReplayJournalAdvanceReceipt {
            instance_identity: self.instance_identity,
            previous_digest,
            committed_digest: self.state.component_state_digest(),
        };
        Ok(ReplayJournalCommittedAdvance { result, receipt })
    }

    /// Commits one prepared watermark advance, and captures the evidence of it.
    ///
    /// A failure before the rename leaves the store ready.
    pub fn commit_prepared_maintenance_and_capture(
        &mut self,
        prepared: PreparedReplayMaintenanceAdvance,
    ) -> (result: Result<ReplayJournalMaintenanceAdvanceReceipt, ReplayJournalStoreError>)
        requires
            old(self).wf(),
        ensures
            maintenance_ends(*old(self), prepared, *final(self), result),
            result is Err || prepared.raises(old(self).state) ==> final(self).wf(),
    {
        let ghost before = *self;
        let ghost start = self.files;
        let ghost mut steps: Seq<JournalFileStep<F::Staged>> = Seq::empty();
        match self.health {
            ReplayJournalStoreHealth::Indeterminate => {
                assert(maintenance_ends_by(
                    before,
                    prepared,
                    *self,
                    steps,
                    Err(ReplayJournalStoreError::LatchedIndeterminate),
                ));
                return Err(ReplayJournalStoreError::LatchedIndeterminate);
            },
            ReplayJournalStoreHealth::Ready => {},
        }
        let digest = self.state.component_state_digest();
        if !digest.same(&prepared.previous_digest) {
            proof {
                if digest.0@ == prepared.previous_digest.0@ {
                    crate::bytes::lemma_array_extensional(digest.0, prepared.previous_digest.0);
                }
                assert(maintenance_ends_by(
                    before,
                    prepared,
                    *self,
                    steps,
                    Err(ReplayJournalStoreError::CurrentStateMismatch),
                ));
            }
            return Err(ReplayJournalStoreError::CurrentStateMismatch);
        }
        let readied = self.ensure_directories();
        proof {
            steps = choose|steps: Seq<JournalFileStep<F::Staged>>| #[trigger]
                crate::journal_storage::storage_runs(start, steps, self.files)
                    && crate::journal_storage::directories_run(
                    steps,
                    crate::journal_storage::error_of(readied),
                );
        }
        match readied {
            Ok(()) => {},
            Err(error) => {
                assert(maintenance_ends_by(before, prepared, *self, steps, Err(error)));
                return Err(error);
            },
        }
        let ghost middle = self.files;
        let staging = self.stage_current_state(&prepared.next_state);
        proof {
            let more = choose|more: Seq<JournalFileStep<F::Staged>>| #[trigger]
                crate::journal_storage::storage_runs(middle, more, self.files)
                    && crate::journal_storage::head_staging_run(
                    more,
                    prepared.next_state,
                    before.protection_context,
                    before.protector,
                    staging,
                );
            crate::journal_storage::lemma_runs_join(start, steps, middle, more, self.files);
            steps = steps + more;
        }
        let staged_current = match staging {
            Ok(staged) => staged,
            Err(error) => {
                assert(maintenance_ends_by(before, prepared, *self, steps, Err(error)));
                return Err(error);
            },
        };
        let ghost middle = self.files;
        let ghost renamed = staged_current;
        let replacing = self.replace_current_state(staged_current);
        proof {
            let step = JournalFileStep::ReplacedCurrent { staged: renamed, done: replacing is Ok };
            crate::journal_storage::lemma_run_goes_on(start, steps, middle, step, self.files);
            steps = steps.push(step);
        }
        match replacing {
            Ok(()) => {},
            Err(error) => {
                assert(maintenance_ends_by(before, prepared, *self, steps, Err(error)));
                return Err(error);
            },
        }
        let ghost middle = self.files;
        let confirming = self.confirm_current_state_durable();
        proof {
            let more = choose|more: Seq<JournalFileStep<F::Staged>>| #[trigger]
                crate::journal_storage::storage_runs(middle, more, self.files)
                    && crate::journal_storage::head_sync_run(
                    more,
                    crate::journal_storage::error_of(confirming),
                );
            crate::journal_storage::lemma_runs_join(start, steps, middle, more, self.files);
            steps = steps + more;
        }
        match confirming {
            Ok(()) => {},
            Err(error) => {
                assert(maintenance_ends_by(before, prepared, *self, steps, Err(error)));
                return Err(error);
            },
        }
        self.state = prepared.next_state;
        proof {
            if prepared.raises(before.state) {
                assert(crate::replay_store::with_watermark(self@, 0)
                    =~= crate::replay_store::with_watermark(before@, 0));
            }
        }
        let receipt = ReplayJournalMaintenanceAdvanceReceipt {
            instance_identity: self.instance_identity,
            previous_digest: prepared.previous_digest,
            committed_digest: self.state.component_state_digest(),
        };
        assert(maintenance_ends_by(before, prepared, *self, steps, Ok(receipt)));
        Ok(receipt)
    }

    /// Commits one transaction.
    pub fn commit_transaction(
        &mut self,
        security_round: &SecurityRoundCapture,
        request_key: &RequestReplayKey,
        continuation_plan: &ContinuationReplayPlan,
    ) -> (result: Result<ReplayCommitResult, ReplayJournalStoreError>)
        requires
            old(self).wf(),
        ensures
            final(self).wf(),
            commit_ends(
                *old(self),
                *security_round,
                *request_key,
                *continuation_plan,
                *final(self),
                result,
            ),
    {
        match self.commit_transaction_and_capture(security_round, request_key, continuation_plan) {
            Ok(advance) => {
                let (result, _) = advance.into_parts();
                Ok(result)
            },
            Err(error) => Err(error),
        }
    }
}

impl<F: ReplayJournalFiles, P: ReplayJournalRecordProtector> ContinuationReplayGuard
    for ReplayJournalStore<F, P> {
    open spec fn guard_wf(self) -> bool {
        self.wf()
    }

    /// An unavailable commit is one that the journal refused or could not finish.
    open spec fn may_commit(
        before: Self,
        security_round: SecurityRoundCapture,
        request_key: RequestReplayKey,
        continuation_plan: ContinuationReplayPlan,
        after: Self,
        reply: Result<ReplayCommitResult, ReplayCommitUnavailable>,
    ) -> bool {
        match reply {
            Ok(result) => commit_ends(
                before,
                security_round,
                request_key,
                continuation_plan,
                after,
                Ok(result),
            ),
            Err(_) => exists|error: ReplayJournalStoreError| #[trigger]
                commit_fails(
                    before,
                    security_round,
                    request_key,
                    continuation_plan,
                    after,
                    error,
                ),
        }
    }

    fn commit_request_and_continuation(
        &mut self,
        security_round: &SecurityRoundCapture,
        request_key: &RequestReplayKey,
        continuation_plan: &ContinuationReplayPlan,
    ) -> Result<ReplayCommitResult, ReplayCommitUnavailable> {
        let ghost before = *self;
        match self.commit_transaction(security_round, request_key, continuation_plan) {
            Ok(result) => Ok(result),
            Err(error) => {
                assert(commit_fails(
                    before,
                    *security_round,
                    *request_key,
                    *continuation_plan,
                    *self,
                    error,
                ));
                Err(ReplayCommitUnavailable)
            },
        }
    }
}

/// A transaction ended with this error.
pub open spec fn commit_fails<F: ReplayJournalFiles, P: ReplayJournalRecordProtector>(
    before: ReplayJournalStore<F, P>,
    security_round: SecurityRoundCapture,
    request_key: RequestReplayKey,
    plan: ContinuationReplayPlan,
    after: ReplayJournalStore<F, P>,
    error: ReplayJournalStoreError,
) -> bool {
    commit_ends(before, security_round, request_key, plan, after, Err(error))
}

/// The calls that stage an entry are the first calls of a commit.
proof fn lemma_staged_entry_run<F: ReplayJournalFiles, P: ReplayJournalRecordProtector>(
    store: ReplayJournalStore<F, P>,
    prepared: PreparedReplayJournalCommit,
    steps: Seq<JournalFileStep<F::Staged>>,
    staging: Result<F::Staged, ReplayJournalStoreError>,
)
    requires
        crate::journal_storage::entry_staging_run(
            steps,
            prepared.entry,
            store.protection_context,
            store.protector,
            staging,
        ),
    ensures
        steps.len() <= 8,
        staging is Ok ==> steps.len() == 8 && crate::journal_storage::step_succeeded(steps[7]),
        crate::journal_storage::uninterrupted(steps),
        forall|i: int|
            0 <= i < steps.len() ==> if i < 7 {
                crate::journal_storage::readies_directory(i, #[trigger] steps[i])
            } else {
                crate::journal_storage::writes_entry(
                    i,
                    steps[i],
                    prepared.entry,
                    store.protection_context,
                    store.protector,
                )
            },
{
    if steps.len() >= 7 {
        let ready = steps.take(7);
        assert forall|i: int| 0 <= i < 7 implies crate::journal_storage::readies_directory(
            i,
            #[trigger] steps[i],
        ) by {
            assert(ready[i] == steps[i]);
        }
        assert forall|i: int|
            0 <= i < 7 && i < steps.len() - 1 implies crate::journal_storage::step_succeeded(
            #[trigger] steps[i],
        ) by {
            assert(ready[i] == steps[i]);
            assert(ready.last() == steps[6]);
        }
    }
}

/// A head with an empty journal's view has the limits and profile it was made with.
proof fn lemma_fields_of_view(
    state: ReplayJournalState,
    limits: ReplayJournalLimits,
    profile_id: [u8; PROFILE_ID_BYTES],
)
    requires
        state@ == crate::replay_journal::empty_head(limits.max_transactions, profile_id@),
    ensures
        state.limits == limits,
        state.profile_id == profile_id,
{
    crate::bytes::lemma_array_extensional(state.profile_id, profile_id);
}

/// Two heads with the same view are the same.
proof fn lemma_different_states(left: ReplayJournalState, right: ReplayJournalState)
    requires
        left != right,
    ensures
        left@ != right@,
{
    if left@ == right@ {
        crate::bytes::lemma_array_extensional(left.profile_id, right.profile_id);
        crate::bytes::lemma_array_extensional(left.entry_chain_digest, right.entry_chain_digest);
    }
}

/// The head after a prepared transaction is one that can be written.
proof fn lemma_next_head_can_be_written<F, P>(
    store: ReplayJournalStore<F, P>,
    prepared: PreparedReplayJournalCommit,
)
    requires
        store.wf(),
        crate::replay_store::journal_error(store@, prepared.entry) is None,
        prepared.next_state@ == crate::replay_store::journal_after(store@, prepared.entry).head,
    ensures
        crate::replay_record::current_value_error(prepared.next_state) is None,
{
    store.lemma_consistent();
}

/// What a transaction leaves. One that is committed takes the next number, claims its
/// request and, where it is fresh and has one, its continuation, and nothing else; it says
/// which of the two was claimed before, and carries the authority of its own round. One that
/// is not committed leaves every claim and number as it was.
pub proof fn committed_transaction_is_on_record<F: ReplayJournalFiles, P: ReplayJournalRecordProtector>(
    before: ReplayJournalStore<F, P>,
    security_round: SecurityRoundCapture,
    request_key: RequestReplayKey,
    plan: ContinuationReplayPlan,
    after: ReplayJournalStore<F, P>,
    steps: Seq<JournalFileStep<F::Staged>>,
    result: Result<ReplayCommitResult, ReplayJournalStoreError>,
)
    requires
        before.wf(),
        commit_ends_by(before, security_round, request_key, plan, after, steps, result),
    ensures
        before.health is Indeterminate ==> after == before && result == Err::<
            ReplayCommitResult,
            _,
        >(ReplayJournalStoreError::LatchedIndeterminate),
        before.health is Ready && before.state.committed_sequence
            >= before.state.limits.max_transactions ==> after == before && result is Err,
        result matches Ok(committed) ==> {
            let again = before@.requests.contains(request_key.0);
            let spent = plan is ClaimOrCover && before@.continuations.contains(
                plan->ClaimOrCover_0.key,
            );
            &&& before.state.committed_sequence < before.state.limits.max_transactions
            &&& committed.authority.round == security_round
            &&& committed.decision is RequestDuplicate <==> again
            &&& committed.decision is ContinuationDuplicate <==> !again && spent
            &&& after.health is Ready
            &&& after.state.committed_sequence == before.state.committed_sequence + 1
            &&& after.state.limits.max_transactions == before.state.limits.max_transactions
            &&& after.state.profile_id@ == before.state.profile_id@
            &&& after.state.maintenance_expiry_bucket_watermark.0
                == before.state.maintenance_expiry_bucket_watermark.0
            &&& after.state.claimed_request_count == before.state.claimed_request_count + (if again {
                0int
            } else {
                1
            })
            &&& after.state.claimed_continuation_count == before.state.claimed_continuation_count
                + (if plan is ClaimOrCover && !again && !spent {
                1int
            } else {
                0
            })
            &&& forall|key: [u8; 32]| #[trigger]
                after@.requests.contains(key) <==> before@.requests.contains(key) || key
                    == request_key.0
            &&& forall|key: [u8; 32]| #[trigger]
                after@.continuations.contains(key) <==> before@.continuations.contains(key) || (plan
                    is ClaimOrCover && !again && key == plan->ClaimOrCover_0.key)
            &&& after.history@.len() == before.history@.len() + 1
            &&& after.history@.last().request_key == request_key.0
            &&& after.history@.last().sequence == before.state.committed_sequence + 1
            &&& after.history@.drop_last() == before.history@
        },
        result is Err ==> after@ == before@ && after.history@ == before.history@,
        after.instance_identity == before.instance_identity,
        after.protector == before.protector,
        after.protection_context == before.protection_context,
        before.health is Ready && before.state.committed_sequence
            < before.state.limits.max_transactions ==> crate::journal_storage::storage_runs(
            before.files,
            steps,
            after.files,
        ),
        before.health is Ready && before.state.committed_sequence
            < before.state.limits.max_transactions && result is Err ==> (after.health
            is Indeterminate <==> steps.len() > 8),
        before.health is Ready && before.state.committed_sequence
            < before.state.limits.max_transactions && steps.len() == 16
            && crate::journal_storage::step_succeeded(steps[15]) ==> result is Ok,
{
    before.lemma_consistent();
    if result is Ok {
        assert(after.history@.drop_last() =~= before.history@);
    }
}

/// What raising a watermark leaves. One that succeeds was prepared for this head and changes
/// nothing but the watermark, and its receipt names the journal and the heads before and
/// after; one that fails leaves the head as it was.
pub proof fn raised_watermark_is_on_record<F: ReplayJournalFiles, P: ReplayJournalRecordProtector>(
    before: ReplayJournalStore<F, P>,
    prepared: PreparedReplayMaintenanceAdvance,
    after: ReplayJournalStore<F, P>,
    steps: Seq<JournalFileStep<F::Staged>>,
    result: Result<ReplayJournalMaintenanceAdvanceReceipt, ReplayJournalStoreError>,
)
    requires
        maintenance_ends_by(before, prepared, after, steps, result),
    ensures
        before.health is Indeterminate ==> after == before && result == Err::<
            ReplayJournalMaintenanceAdvanceReceipt,
            _,
        >(ReplayJournalStoreError::LatchedIndeterminate),
        before.health is Ready && prepared.previous_digest.0@
            != crate::replay_journal::head_digest(before.state@) ==> after == before && result
            == Err::<ReplayJournalMaintenanceAdvanceReceipt, _>(
            ReplayJournalStoreError::CurrentStateMismatch,
        ),
        result matches Ok(receipt) ==> {
            &&& before.health is Ready
            &&& after.health is Ready
            &&& after.state == prepared.next_state
            &&& after.request_claims == before.request_claims
            &&& after.continuation_claims == before.continuation_claims
            &&& after.history == before.history
            &&& after.instance_identity == before.instance_identity
            &&& receipt.instance_identity == before.instance_identity
            &&& receipt.previous_digest.0@ == crate::replay_journal::head_digest(before.state@)
            &&& receipt.committed_digest.0@ == crate::replay_journal::head_digest(after.state@)
        },
        result is Err ==> after.state == before.state && after.request_claims
            == before.request_claims && after.continuation_claims == before.continuation_claims
            && after.history == before.history,
        after.instance_identity == before.instance_identity,
        after.protector == before.protector,
        after.protection_context == before.protection_context,
        before.health is Ready && prepared.previous_digest.0@
            == crate::replay_journal::head_digest(before.state@) && steps.len() == 11
            && crate::journal_storage::step_succeeded(steps[10]) ==> result is Ok,
{
}

} // verus!
