//! What holds of the replay journal across transactions and restarts.

use crate::replay_store::JournalModel;
use crate::replay_store::ReplayJournalStore;
use crate::runtime_security::ContinuationReplayPlan;
use crate::runtime_security::RequestReplayKey;
use vstd::prelude::*;

verus! {

/// A committed request is a duplicate in every later transaction, and a
/// duplicate request never consumes a continuation.
pub proof fn committed_request_is_a_duplicate_from_then_on(
    journal: JournalModel,
    request_key: RequestReplayKey,
    plan: ContinuationReplayPlan,
    later: JournalModel,
    later_plan: ContinuationReplayPlan,
)
    requires
        crate::replay_store::journal_after(
            journal,
            crate::replay_store::planned_entry(journal, request_key, plan),
        ).requests.subset_of(later.requests),
    ensures
        crate::replay_store::planned_decision(later, request_key, later_plan)
            == crate::runtime_security::ReplayDuplicateDecision::RequestDuplicate,
        crate::replay_store::planned_lane(later, request_key, later_plan) is Cover,
        crate::replay_store::journal_after(
            later,
            crate::replay_store::planned_entry(later, request_key, later_plan),
        ).continuations == later.continuations,
{
    let entry = crate::replay_store::planned_entry(journal, request_key, plan);
    assert(crate::replay_store::journal_after(journal, entry).requests.contains(request_key.0));
}

/// A claimed continuation is refused to every later fresh request.
pub proof fn claimed_continuation_is_a_duplicate_from_then_on(
    journal: JournalModel,
    request_key: RequestReplayKey,
    plan: ContinuationReplayPlan,
    later: JournalModel,
    later_key: RequestReplayKey,
)
    requires
        crate::replay_store::planned_lane(journal, request_key, plan) is Claim,
        crate::replay_store::journal_after(
            journal,
            crate::replay_store::planned_entry(journal, request_key, plan),
        ).continuations.subset_of(later.continuations),
        !later.requests.contains(later_key.0),
    ensures
        crate::replay_store::planned_decision(later, later_key, plan)
            == crate::runtime_security::ReplayDuplicateDecision::ContinuationDuplicate,
        crate::replay_store::planned_lane(later, later_key, plan) is Cover,
{
    let entry = crate::replay_store::planned_entry(journal, request_key, plan);
    let after = crate::replay_store::journal_after(journal, entry);
    assert(after.continuations.contains(entry.continuation_lane->key));
}

/// A transaction takes exactly one unit of capacity, drops no claim, and
/// leaves the limit, the profile and the watermark alone.
pub proof fn transactions_only_append(
    journal: JournalModel,
    entry: crate::replay_journal::ReplayJournalEntry,
)
    requires
        crate::replay_store::journal_error(journal, entry) is None,
    ensures
        ({
            let after = crate::replay_store::journal_after(journal, entry);
            &&& after.head.committed_sequence == journal.head.committed_sequence + 1
            &&& after.head.claimed_request_count >= journal.head.claimed_request_count
            &&& after.head.claimed_continuation_count >= journal.head.claimed_continuation_count
            &&& journal.requests.subset_of(after.requests)
            &&& journal.continuations.subset_of(after.continuations)
            &&& after.head.max_transactions == journal.head.max_transactions
            &&& after.head.profile_id == journal.head.profile_id
            &&& after.head.watermark == journal.head.watermark
        }),
{
}

/// Entries that rebuild a journal rebuild a prefix of it at every point: no
/// later entry changes what an earlier one amounts to.
pub proof fn every_prefix_of_a_journal_rebuilds(
    max_transactions: u64,
    profile_id: Seq<u8>,
    entries: Seq<crate::replay_journal::ReplayJournalEntry>,
    count: int,
)
    requires
        crate::replay_store::rebuilt(max_transactions, profile_id, entries) is Some,
        0 <= count <= entries.len(),
    ensures
        crate::replay_store::rebuilt(max_transactions, profile_id, entries.take(count)) is Some,
        ({
            let whole = crate::replay_store::rebuilt(max_transactions, profile_id, entries)->0;
            let part = crate::replay_store::rebuilt(
                max_transactions,
                profile_id,
                entries.take(count),
            )->0;
            part.requests.subset_of(whole.requests) && part.continuations.subset_of(
                whole.continuations,
            )
        }),
    decreases entries.len() - count,
{
    if count == entries.len() {
        assert(entries.take(count) =~= entries);
    } else {
        every_prefix_of_a_journal_rebuilds(max_transactions, profile_id, entries, count + 1);
        let longer = entries.take(count + 1);
        assert(longer.drop_last() =~= entries.take(count));
    }
}

/// Two journals over the same committed entries hold the same claims and the
/// same head up to the watermark: recovery reproduces what was committed.
pub proof fn recovery_reproduces_the_committed_journal<F, P, G, Q>(
    live: ReplayJournalStore<F, P>,
    recovered: ReplayJournalStore<G, Q>,
)
    requires
        live.wf(),
        recovered.wf(),
        live.state.limits == recovered.state.limits,
        live.state.profile_id == recovered.state.profile_id,
        live.history@ == recovered.history@,
    ensures
        crate::replay_store::with_watermark(live@, 0) == crate::replay_store::with_watermark(
            recovered@,
            0,
        ),
        live.state.maintenance_expiry_bucket_watermark
            == recovered.state.maintenance_expiry_bucket_watermark ==> live@ == recovered@,
{
    let (a, b) = (
        crate::replay_store::with_watermark(live@, 0),
        crate::replay_store::with_watermark(recovered@, 0),
    );
    assert(a == b);
    assert(a.head == b.head && a.requests == b.requests && a.continuations == b.continuations);
    if live.state.maintenance_expiry_bucket_watermark
        == recovered.state.maintenance_expiry_bucket_watermark {
        assert(live@.head =~= recovered@.head);
    }
}

/// A watermark advance strictly raises the watermark and changes nothing else.
pub proof fn maintenance_only_raises_the_watermark<F, P>(
    store: ReplayJournalStore<F, P>,
    prepared: crate::replay_store::PreparedReplayMaintenanceAdvance,
)
    requires
        prepared.raises(store.state),
    ensures
        prepared.next_state@.watermark > store.state@.watermark,
        prepared.next_state@ == (crate::replay_journal::ReplayJournalHead {
            watermark: prepared.next_state@.watermark,
            ..store.state@
        }),
{
}

/// The read gave back a record of this head.
pub open spec fn reads_head<P: crate::replay_record::ReplayJournalRecordProtector>(
    read: crate::record_files::ExactFileRead,
    context: crate::replay_record::ReplayJournalProtectionContext,
    protector: P,
    head: crate::replay_journal::ReplayJournalHead,
) -> bool {
    read matches crate::record_files::ExactFileRead::Exact(bytes)
        && crate::replay_record::head_record_holds(bytes@, context, protector, head)
}

/// The read gave back a record of this entry.
pub open spec fn reads_entry<P: crate::replay_record::ReplayJournalRecordProtector>(
    read: crate::record_files::ExactFileRead,
    context: crate::replay_record::ReplayJournalProtectionContext,
    protector: P,
    entry: crate::replay_journal::ReplayJournalEntry,
) -> bool {
    read matches crate::record_files::ExactFileRead::Exact(bytes)
        && crate::replay_record::entry_record_holds(bytes@, context, protector, entry)
}

/// A journal whose records come back as they were written is recovered exactly
/// as it was, if its protector opens what it seals and is available.
pub proof fn recovery_gives_back_what_was_written<
    F,
    G,
    P: crate::replay_record::ReplayJournalRecordProtector,
>(
    live: ReplayJournalStore<G, P>,
    transcript: crate::journal_storage::RecoveryTranscript,
    head: Result<
        Option<crate::replay_journal::ReplayJournalState>,
        crate::replay_store::ReplayJournalStoreError,
    >,
    loaded: Seq<crate::replay_journal::ReplayJournalEntry>,
    failure: Option<crate::replay_store::ReplayJournalStoreError>,
    result: Result<ReplayJournalStore<F, P>, crate::replay_store::ReplayJournalStoreError>,
)
    requires
        live.wf(),
        live.state.limits.max_transactions != 0,
        crate::replay_record::opens_what_it_seals(live.protector),
        crate::replay_journal::head_is_persisted(live.state@),
        forall|i: int|
            0 <= i < live.history@.len() ==> (#[trigger] live.history@[i]).continuation_lane.wf(),
        transcript.ends(
            live.state.limits,
            live.state.profile_id,
            live.protection_context,
            live.protector,
            head,
            loaded,
            failure,
            result,
        ),
        transcript.head matches Some(read) && reads_head(
            read,
            live.protection_context,
            live.protector,
            live.state@,
        ),
        transcript.entries_directory matches Some(kind) ==> kind is Directory,
        forall|i: int|
            0 <= i < transcript.entries.len() && i < live.history@.len() ==> reads_entry(
                #[trigger] transcript.entries[i],
                live.protection_context,
                live.protector,
                live.history@[i],
            ),
    ensures
        match result {
            Ok(store) => store@ == live@ && store.history@ == live.history@ && store.state
                == live.state,
            Err(error) => error
                == crate::replay_store::ReplayJournalStoreError::CurrentStateProtectionUnavailable
                || error
                == crate::replay_store::ReplayJournalStoreError::CommittedEntryProtectionUnavailable,
        },
{
    live.lemma_consistent();
    let context = live.protection_context;
    let protector = live.protector;
    let bytes = transcript.head->0->Exact_0;
    assert(crate::replay_store::head_read_amounts_to(
        transcript.head->0,
        context,
        protector,
        head,
    ));
    let record = choose|
        record: Result<
            crate::replay_journal::ReplayJournalState,
            crate::replay_record::ReplayJournalRecordError,
        >,
    | #[trigger]
        crate::replay_record::current_record_reads(bytes@, context, protector, record) && head
            == match record {
            Ok(state) => Ok(Some(state)),
            Err(crate::replay_record::ReplayJournalRecordError::AuthenticationFailed) => Err(
                crate::replay_store::ReplayJournalStoreError::CurrentStateAuthenticationFailed,
            ),
            Err(crate::replay_record::ReplayJournalRecordError::ProtectionUnavailable) => Err(
                crate::replay_store::ReplayJournalStoreError::CurrentStateProtectionUnavailable,
            ),
            Err(_) => Err(crate::replay_store::ReplayJournalStoreError::CurrentStateCorrupt),
        };
    crate::replay_record::sealed_head_reads_back(bytes@, context, protector, live.state, record);
    if record is Ok {
        assert(transcript.follows_head(live.state, context, protector, loaded, failure, result));
        assert(loaded.len() <= live.history@.len());
        assert forall|i: int| 0 <= i < loaded.len() implies loaded[i] == live.history@[i] by {
            lemma_entry_read_back(live, transcript.entries[i], i, Ok(loaded[i]));
        }
        every_prefix_of_a_journal_rebuilds(
            live.state@.max_transactions,
            live.state@.profile_id,
            live.history@,
            loaded.len() as int,
        );
        assert(loaded =~= live.history@.take(loaded.len() as int));
        match failure {
            None => {
                assert(loaded =~= live.history@);
                assert(crate::replay_store::with_watermark(
                    crate::replay_store::with_watermark(live@, 0),
                    live.state@.watermark,
                ) =~= live@);
            },
            Some(error) => {
                let outcome = choose|
                    outcome: Result<
                        crate::replay_journal::ReplayJournalEntry,
                        crate::replay_store::ReplayJournalStoreError,
                    >,
                |
                    #![trigger crate::journal_storage::unusable_entry(live.state@.max_transactions, live.state@.profile_id, loaded, outcome)]
                    crate::replay_store::entry_read_amounts_to(
                        transcript.entries.last(),
                        transcript.entries.len() as u64,
                        context,
                        protector,
                        outcome,
                    ) && crate::journal_storage::unusable_entry(
                        live.state@.max_transactions,
                        live.state@.profile_id,
                        loaded,
                        outcome,
                    ) == Some(error);
                lemma_entry_read_back(
                    live,
                    transcript.entries.last(),
                    loaded.len() as int,
                    outcome,
                );
                every_prefix_of_a_journal_rebuilds(
                    live.state@.max_transactions,
                    live.state@.profile_id,
                    live.history@,
                    loaded.len() as int + 1,
                );
                let longer = live.history@.take(loaded.len() as int + 1);
                assert(longer.drop_last() =~= loaded);
            },
        }
    }
}

/// A committed entry's record reads back as that entry, unless the protector is unavailable.
proof fn lemma_entry_read_back<G, P: crate::replay_record::ReplayJournalRecordProtector>(
    live: ReplayJournalStore<G, P>,
    read: crate::record_files::ExactFileRead,
    index: int,
    outcome: Result<
        crate::replay_journal::ReplayJournalEntry,
        crate::replay_store::ReplayJournalStoreError,
    >,
)
    requires
        live.wf(),
        crate::replay_record::opens_what_it_seals(live.protector),
        0 <= index < live.history@.len(),
        live.history@[index].continuation_lane.wf(),
        reads_entry(read, live.protection_context, live.protector, live.history@[index]),
        crate::replay_store::entry_read_amounts_to(
            read,
            (index + 1) as u64,
            live.protection_context,
            live.protector,
            outcome,
        ),
    ensures
        outcome == Ok::<_, crate::replay_store::ReplayJournalStoreError>(live.history@[index])
            || outcome == Err::<crate::replay_journal::ReplayJournalEntry, _>(
            crate::replay_store::ReplayJournalStoreError::CommittedEntryProtectionUnavailable,
        ),
{
    live.lemma_consistent();
    let bytes = read->Exact_0;
    let entry = live.history@[index];
    every_prefix_of_a_journal_rebuilds(
        live.state@.max_transactions,
        live.state@.profile_id,
        live.history@,
        index,
    );
    every_prefix_of_a_journal_rebuilds(
        live.state@.max_transactions,
        live.state@.profile_id,
        live.history@,
        index + 1,
    );
    crate::replay_store::rebuilt_journal_is_consistent(
        live.state@.max_transactions,
        live.state@.profile_id,
        live.history@.take(index),
    );
    assert(live.history@.take(index + 1).drop_last() =~= live.history@.take(index));
    let record = choose|
        record: Result<
            crate::replay_journal::ReplayJournalEntry,
            crate::replay_record::ReplayJournalRecordError,
        >,
    | #[trigger]
        crate::replay_record::entry_record_reads(
            bytes@,
            live.protection_context,
            live.protector,
            record,
        ) && outcome == match record {
            Ok(entry) => if entry.sequence == (index + 1) as u64 {
                Ok(entry)
            } else {
                Err(crate::replay_store::ReplayJournalStoreError::CommittedEntryCorrupt)
            },
            Err(crate::replay_record::ReplayJournalRecordError::AuthenticationFailed) => Err(
                crate::replay_store::ReplayJournalStoreError::CommittedEntryAuthenticationFailed,
            ),
            Err(crate::replay_record::ReplayJournalRecordError::ProtectionUnavailable) => Err(
                crate::replay_store::ReplayJournalStoreError::CommittedEntryProtectionUnavailable,
            ),
            Err(_) => Err(crate::replay_store::ReplayJournalStoreError::CommittedEntryCorrupt),
        };
    crate::replay_record::sealed_entry_reads_back(
        bytes@,
        live.protection_context,
        live.protector,
        entry,
        record,
    );
}

/// A finished commit staged, renamed and synchronized a record of its entry
/// before it staged the record of its head, and synchronized that one last.
pub proof fn committed_records_are_durable_in_order<
    S,
    P: crate::replay_record::ReplayJournalRecordProtector,
>(
    steps: Seq<crate::replay_store::JournalFileStep<S>>,
    entry: crate::replay_journal::ReplayJournalEntry,
    head: crate::replay_journal::ReplayJournalHead,
    context: crate::replay_record::ReplayJournalProtectionContext,
    protector: P,
)
    requires
        crate::journal_storage::commit_run(steps, entry, head, context, protector, None),
    ensures
        steps.len() == 16,
        forall|i: int|
            0 <= i < 16 ==> crate::journal_storage::step_succeeded(#[trigger] steps[i]),
        steps[7] matches crate::replay_store::JournalFileStep::Staged { record, .. }
            && crate::replay_record::entry_record_holds(record, context, protector, entry),
        crate::journal_storage::renames_staged(steps[7], steps[8]),
        steps[9] is SyncedEntry,
        steps[12] matches crate::replay_store::JournalFileStep::Staged { record, .. }
            && crate::replay_record::head_record_holds(record, context, protector, head),
        crate::journal_storage::renames_staged(steps[12], steps[13]),
        steps[15] is SyncedDirectory,
{
    assert(steps.last() == steps[15]);
}

/// An entry beyond the head has no authority: recovery reads no entry that the
/// head does not count, and without a head it finds an empty journal.
pub proof fn candidates_have_no_authority<
    F,
    P: crate::replay_record::ReplayJournalRecordProtector,
>(
    transcript: crate::journal_storage::RecoveryTranscript,
    limits: crate::replay_journal::ReplayJournalLimits,
    profile_id: [u8; 16],
    context: crate::replay_record::ReplayJournalProtectionContext,
    protector: P,
    head: Result<
        Option<crate::replay_journal::ReplayJournalState>,
        crate::replay_store::ReplayJournalStoreError,
    >,
    loaded: Seq<crate::replay_journal::ReplayJournalEntry>,
    failure: Option<crate::replay_store::ReplayJournalStoreError>,
    result: Result<ReplayJournalStore<F, P>, crate::replay_store::ReplayJournalStoreError>,
)
    requires
        transcript.ends(
            limits,
            profile_id,
            context,
            protector,
            head,
            loaded,
            failure,
            result,
        ),
        transcript.head is Some,
    ensures
        transcript.head->0 is Missing ==> transcript.entries.len() == 0 && (result matches Ok(store)
            && store@ == crate::replay_store::empty_journal(
            limits.max_transactions,
            profile_id@,
        )),
        transcript.entries.len() > 0 ==> (head matches Ok(Some(state)) && transcript.entries.len()
            <= state.committed_sequence),
{
}

} // verus!
