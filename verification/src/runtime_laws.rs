//! What every round of a runtime keeps, whatever it is asked and whatever its
//! providers reply.

use crate::continuation::ContinuationReplayGuard;
use crate::failure::UniformExternalFailure;
use crate::private_service::FinalizedProjection;
use crate::profile::CompiledQueryShape;
use crate::profile::PrivacyProfile;
use crate::providers::ContinuationTokenProtector;
use crate::providers::FrozenRecentSnapshot;
use crate::providers::PrivateQueryCodec;
use crate::providers::PrivateQueryEngine;
use crate::providers::ServingEpochCurrentness;
use crate::providers::PinnedServingEpoch;
use crate::providers::ServingEpochObservation;
use crate::providers::ServingEpochTranscript;
use crate::providers::ServingEpochUnavailable;
use crate::records::PrivateNetwork;
use crate::records::PrivateQueryCheckpoint;
use crate::release_gate::FinalizedRuntimeOwnerError;
use crate::release_gate::ResponseReleaseState;
use crate::replay_record::ReplayJournalRecordProtector;
use crate::replay_store::ReplayJournalFiles;
use crate::replay_store::ReplayJournalStore;
use crate::round::InnerCodecError;
use crate::runtime::EncodedRuntimeRound;
use crate::runtime::EpochReplies;
use crate::runtime::PrivateQueryRuntime;
use crate::runtime::PrivateQueryRuntimeEpoch;
use crate::runtime::RoundTranscript;
use crate::runtime::RuntimeRound;
use crate::runtime_owner::FinalizedRuntimeOwner;
use crate::runtime_owner::PendingRuntimeRound;
use crate::runtime_owner::RecentSnapshotRefreshController;
use crate::runtime_security::SecurityEpochTag;
use crate::security_owner::ActiveSecurityLease;
use crate::security_owner::InProcessSecurityEpochCurrentness;
use crate::security_owner::RoundMaterialSource;
use crate::serving_epoch::ServingEpochCapture;
use crate::serving_epoch::ServingEpochLease;
use vstd::prelude::*;

verus! {

/// Any two completed rounds of one profile have the same trace: it tells nothing
/// of the request, of what was found, or of how the round was answered.
pub proof fn completed_rounds_share_one_schedule<
    Q: PrivateQueryCodec<E, RESPONSE_SLOTS, ENVELOPE_BYTES>,
    E,
    T: ContinuationTokenProtector,
    R: ContinuationReplayGuard,
    N: RoundMaterialSource,
    S: PrivateQueryEngine<D::Slot>,
    C,
    D: FrozenRecentSnapshot,
    const RESPONSE_SLOTS: usize,
    const ENVELOPE_BYTES: usize,
>(
    shape: CompiledQueryShape<RESPONSE_SLOTS, ENVELOPE_BYTES>,
    codec: Q,
    security: ActiveSecurityLease<E, T, R, N>,
    epoch: PrivateQueryRuntimeEpoch<S, C, D>,
    envelope: [u8; ENVELOPE_BYTES],
    healthy: bool,
    transcript: RoundTranscript<E, T, R, N, S, D, ENVELOPE_BYTES>,
    healthy_after: bool,
    round: EncodedRuntimeRound<ENVELOPE_BYTES>,
    other_codec: Q,
    other_security: ActiveSecurityLease<E, T, R, N>,
    other_epoch: PrivateQueryRuntimeEpoch<S, C, D>,
    other_envelope: [u8; ENVELOPE_BYTES],
    other_healthy: bool,
    other_transcript: RoundTranscript<E, T, R, N, S, D, ENVELOPE_BYTES>,
    other_healthy_after: bool,
    other_round: EncodedRuntimeRound<ENVELOPE_BYTES>,
)
    requires
        transcript.ends(shape, codec, security, epoch, envelope, healthy, healthy_after, Ok(round)),
        other_transcript.ends(
            shape,
            other_codec,
            other_security,
            other_epoch,
            other_envelope,
            other_healthy,
            other_healthy_after,
            Ok(other_round),
        ),
    ensures
        round.trace == other_round.trace,
        round.trace == crate::trace::budgeted_trace(crate::runtime::round_budget(shape.profile)),
{
}

/// A runtime that is not healthy never becomes healthy again.
pub proof fn health_is_never_regained<
    Q: PrivateQueryCodec<E, RESPONSE_SLOTS, ENVELOPE_BYTES>,
    E,
    T: ContinuationTokenProtector,
    R: ContinuationReplayGuard,
    N: RoundMaterialSource,
    S: PrivateQueryEngine<D::Slot>,
    C,
    D: FrozenRecentSnapshot,
    const RESPONSE_SLOTS: usize,
    const ENVELOPE_BYTES: usize,
>(
    shape: CompiledQueryShape<RESPONSE_SLOTS, ENVELOPE_BYTES>,
    codec: Q,
    security: ActiveSecurityLease<E, T, R, N>,
    epoch: PrivateQueryRuntimeEpoch<S, C, D>,
    envelope: [u8; ENVELOPE_BYTES],
    healthy: bool,
    transcript: RoundTranscript<E, T, R, N, S, D, ENVELOPE_BYTES>,
    healthy_after: bool,
    result: Result<EncodedRuntimeRound<ENVELOPE_BYTES>, UniformExternalFailure>,
)
    requires
        transcript.ends(shape, codec, security, epoch, envelope, healthy, healthy_after, result),
    ensures
        healthy_after ==> healthy,
{
}

/// A request that does not authenticate, or is not canonical, reaches no private
/// work: no material is drawn, no replay transaction is made, no store and no
/// snapshot is read, and the runtime's health stays as it was.
pub proof fn refused_request_is_harmless<
    Q: PrivateQueryCodec<E, RESPONSE_SLOTS, ENVELOPE_BYTES>,
    E,
    T: ContinuationTokenProtector,
    R: ContinuationReplayGuard,
    N: RoundMaterialSource,
    S: PrivateQueryEngine<D::Slot>,
    C,
    D: FrozenRecentSnapshot,
    const RESPONSE_SLOTS: usize,
    const ENVELOPE_BYTES: usize,
>(
    shape: CompiledQueryShape<RESPONSE_SLOTS, ENVELOPE_BYTES>,
    codec: Q,
    security: ActiveSecurityLease<E, T, R, N>,
    epoch: PrivateQueryRuntimeEpoch<S, C, D>,
    envelope: [u8; ENVELOPE_BYTES],
    healthy: bool,
    transcript: RoundTranscript<E, T, R, N, S, D, ENVELOPE_BYTES>,
    security_after: ActiveSecurityLease<E, T, R, N>,
    epoch_after: PrivateQueryRuntimeEpoch<S, C, D>,
    healthy_after: bool,
    result: Result<EncodedRuntimeRound<ENVELOPE_BYTES>, UniformExternalFailure>,
)
    requires
        transcript.ends(shape, codec, security, epoch, envelope, healthy, healthy_after, result),
        transcript.leaves_lease(shape.profile, security, security_after),
        transcript.leaves_epoch(shape.profile, epoch, epoch_after),
        transcript.decoded is Err,
        !(transcript.decoded->Err_0 is ProtectionUnavailable),
    ensures
        result is Err,
        healthy_after == healthy,
        security_after.material_source == security.material_source,
        security_after.token_protector == security.token_protector,
        security_after.replay_guard == security.replay_guard,
        epoch_after.engine == epoch.engine,
        epoch_after.recent_snapshot == epoch.recent_snapshot,
{
}

/// A completed round carries the reservation of its own material and the
/// authority of its own replay transaction, which was committed.
pub proof fn completed_round_was_reserved_and_committed<
    Q: PrivateQueryCodec<E, RESPONSE_SLOTS, ENVELOPE_BYTES>,
    E,
    T: ContinuationTokenProtector,
    R: ContinuationReplayGuard,
    N: RoundMaterialSource,
    S: PrivateQueryEngine<D::Slot>,
    C,
    D: FrozenRecentSnapshot,
    const RESPONSE_SLOTS: usize,
    const ENVELOPE_BYTES: usize,
>(
    shape: CompiledQueryShape<RESPONSE_SLOTS, ENVELOPE_BYTES>,
    codec: Q,
    security: ActiveSecurityLease<E, T, R, N>,
    epoch: PrivateQueryRuntimeEpoch<S, C, D>,
    envelope: [u8; ENVELOPE_BYTES],
    healthy: bool,
    transcript: RoundTranscript<E, T, R, N, S, D, ENVELOPE_BYTES>,
    healthy_after: bool,
    round: EncodedRuntimeRound<ENVELOPE_BYTES>,
)
    requires
        transcript.ends(shape, codec, security, epoch, envelope, healthy, healthy_after, Ok(round)),
    ensures
        transcript.commit is Ok,
        transcript.material is Ok,
        round.replay_commit_authority == transcript.commit->Ok_0.authority,
        round.security_round == transcript.material->Ok_0.security_round,
        round.reservation_authority == transcript.material->Ok_0.reservation_authority,
        round.response_nonce == transcript.material->Ok_0.response_nonce,
        round.token_nonce == transcript.material->Ok_0.token_nonce,
        transcript.encoded == Ok::<[u8; ENVELOPE_BYTES], crate::round::InnerCodecError>(
            round.envelope,
        ),
{
}

/// A round that cannot serve its request answers with dummies only, and hands out
/// no continuation: a request for another checkpoint, a duplicate request, a
/// changed or unreadable snapshot, an unhealthy runtime.
pub proof fn unserved_request_learns_nothing<
    Q: PrivateQueryCodec<E, RESPONSE_SLOTS, ENVELOPE_BYTES>,
    E,
    T: ContinuationTokenProtector,
    R: ContinuationReplayGuard,
    N: RoundMaterialSource,
    S: PrivateQueryEngine<D::Slot>,
    C,
    D: FrozenRecentSnapshot,
    const RESPONSE_SLOTS: usize,
    const ENVELOPE_BYTES: usize,
>(
    shape: CompiledQueryShape<RESPONSE_SLOTS, ENVELOPE_BYTES>,
    codec: Q,
    security: ActiveSecurityLease<E, T, R, N>,
    epoch: PrivateQueryRuntimeEpoch<S, C, D>,
    envelope: [u8; ENVELOPE_BYTES],
    healthy: bool,
    transcript: RoundTranscript<E, T, R, N, S, D, ENVELOPE_BYTES>,
    healthy_after: bool,
    round: EncodedRuntimeRound<ENVELOPE_BYTES>,
)
    requires
        transcript.ends(shape, codec, security, epoch, envelope, healthy, healthy_after, Ok(round)),
        !healthy || transcript.decoded->Ok_0.checkpoint != epoch.checkpoint
            || transcript.recent_snapshot_failed(shape.profile, epoch)
            || transcript.commit->Ok_0.decision is RequestDuplicate
            || transcript.commit->Ok_0.decision is ContinuationDuplicate
            || transcript.inspection.continuation_use is InvalidContinuation
            || transcript.execution->Ok_0.page.outcome is StoreFailure,
    ensures
        transcript.response.page.all_dummy(),
        transcript.response.page.slots@.len() == RESPONSE_SLOTS,
        crate::round::outcome_is_masked(transcript.response.page.outcome),
        transcript.response.continuation is None,
        !transcript.response.has_more,
{
}

/// A continuation is handed out exactly where a served page did not hold every
/// result; it is the token that was issued in this round.
pub proof fn continuation_comes_with_more_results<
    Q: PrivateQueryCodec<E, RESPONSE_SLOTS, ENVELOPE_BYTES>,
    E,
    T: ContinuationTokenProtector,
    R: ContinuationReplayGuard,
    N: RoundMaterialSource,
    S: PrivateQueryEngine<D::Slot>,
    C,
    D: FrozenRecentSnapshot,
    const RESPONSE_SLOTS: usize,
    const ENVELOPE_BYTES: usize,
>(
    shape: CompiledQueryShape<RESPONSE_SLOTS, ENVELOPE_BYTES>,
    codec: Q,
    security: ActiveSecurityLease<E, T, R, N>,
    epoch: PrivateQueryRuntimeEpoch<S, C, D>,
    envelope: [u8; ENVELOPE_BYTES],
    healthy: bool,
    transcript: RoundTranscript<E, T, R, N, S, D, ENVELOPE_BYTES>,
    healthy_after: bool,
    round: EncodedRuntimeRound<ENVELOPE_BYTES>,
)
    requires
        transcript.ends(shape, codec, security, epoch, envelope, healthy, healthy_after, Ok(round)),
    ensures
        transcript.response.has_more == (transcript.response.continuation is Some),
        transcript.response.has_more ==> {
            &&& transcript.response.page.outcome is ResultBudgetExceeded
            &&& transcript.execution->Ok_0.page.outcome is ResultBudgetExceeded
            &&& transcript.issued is Ok
            &&& transcript.response.continuation == Some(transcript.issued->Ok_0)
        },
        transcript.response.page.outcome is ResultBudgetExceeded ==> transcript.response.has_more,
{
}

/// A failing store, an unready projection or a failed snapshot is answered once,
/// and then the runtime serves no further request.
pub proof fn degraded_round_is_the_last<
    Q: PrivateQueryCodec<E, RESPONSE_SLOTS, ENVELOPE_BYTES>,
    E,
    T: ContinuationTokenProtector,
    R: ContinuationReplayGuard,
    N: RoundMaterialSource,
    S: PrivateQueryEngine<D::Slot>,
    C,
    D: FrozenRecentSnapshot,
    const RESPONSE_SLOTS: usize,
    const ENVELOPE_BYTES: usize,
>(
    shape: CompiledQueryShape<RESPONSE_SLOTS, ENVELOPE_BYTES>,
    codec: Q,
    security: ActiveSecurityLease<E, T, R, N>,
    epoch: PrivateQueryRuntimeEpoch<S, C, D>,
    envelope: [u8; ENVELOPE_BYTES],
    healthy: bool,
    transcript: RoundTranscript<E, T, R, N, S, D, ENVELOPE_BYTES>,
    healthy_after: bool,
    round: EncodedRuntimeRound<ENVELOPE_BYTES>,
)
    requires
        transcript.ends(shape, codec, security, epoch, envelope, healthy, healthy_after, Ok(round)),
        transcript.recent_snapshot_failed(shape.profile, epoch)
            || transcript.execution->Ok_0.page.outcome is StoreFailure
            || transcript.execution->Ok_0.page.outcome is ProjectionNotReady,
    ensures
        !healthy_after,
{
}

/// A response that is released was encoded by its round, while its serving epoch
/// was observed to be the pinned one and its security epoch was the active one.
pub proof fn released_response_was_current<
    Q: PrivateQueryCodec<E, RESPONSE_SLOTS, ENVELOPE_BYTES>,
    E,
    T: ContinuationTokenProtector,
    R: ContinuationReplayGuard,
    N: RoundMaterialSource,
    S: PrivateQueryEngine<D::Slot>,
    C: ServingEpochCurrentness,
    D: FrozenRecentSnapshot,
    const RESPONSE_SLOTS: usize,
    const ENVELOPE_BYTES: usize,
>(
    shape: CompiledQueryShape<RESPONSE_SLOTS, ENVELOPE_BYTES>,
    codec: Q,
    security: ActiveSecurityLease<E, T, R, N>,
    epoch: PrivateQueryRuntimeEpoch<S, C, D>,
    envelope: [u8; ENVELOPE_BYTES],
    healthy: bool,
    transcript: RoundTranscript<E, T, R, N, S, D, ENVELOPE_BYTES>,
    healthy_encoded: bool,
    encoded: Result<EncodedRuntimeRound<ENVELOPE_BYTES>, UniformExternalFailure>,
    check: ServingEpochTranscript<C>,
    currentness_after: C,
    observed: Result<(), ServingEpochUnavailable>,
    security_after: ActiveSecurityLease<E, T, R, N>,
    healthy_after: bool,
    released: RuntimeRound<ENVELOPE_BYTES>,
)
    requires
        crate::runtime::handled(
            shape,
            codec,
            security,
            epoch,
            envelope,
            healthy,
            transcript,
            healthy_encoded,
            encoded,
            check,
            currentness_after,
            observed,
            security_after,
            healthy_after,
            Ok(released),
        ),
    ensures
        encoded matches Ok(round) && released.envelope == round.envelope && released.trace
            == round.trace && round.claim().is_authorized(security.security_epoch_tag),
        security.currentness.is_current(security.security_epoch_tag),
        check.observed == Ok::<
            crate::providers::ServingEpochObservation,
            ServingEpochUnavailable,
        >(epoch.serving_epoch.pinned),
        check.published,
{
}

/// Once its security epoch is retired or replaced, a pending response cannot be
/// released, even by an epoch minted again with equal values.
pub proof fn stale_response_is_withheld<C, const ENVELOPE_BYTES: usize>(
    pending: PendingRuntimeRound<C, ENVELOPE_BYTES>,
    security: InProcessSecurityEpochCurrentness,
)
    requires
        !security.available || security.active is None || security.active->Some_0.instance
            != pending.security_release_witness.expected.instance,
    ensures
        !pending.is_releasable(security),
{
}

/// A response is not released once the serving epoch that it was made in has moved on: if
/// no handle on that epoch's state observes the pinned epoch any more, the release is
/// refused.
pub proof fn response_is_withheld_once_its_serving_epoch_moves_on<
    C: ServingEpochCurrentness,
    const ENVELOPE_BYTES: usize,
>(
    pending: PendingRuntimeRound<C, ENVELOPE_BYTES>,
    serving_epoch: PinnedServingEpoch<C>,
    security_epoch: SecurityEpochTag,
    gate: ResponseReleaseState,
    security: InProcessSecurityEpochCurrentness,
    check: ServingEpochTranscript<C>,
    observed: Result<(), ServingEpochUnavailable>,
    currentness_after: C,
    decision: Result<(), UniformExternalFailure>,
)
    requires
        crate::runtime_owner::is_pending_round(pending, serving_epoch, security_epoch),
        crate::runtime_owner::release_ends(
            pending,
            gate,
            security,
            check,
            observed,
            currentness_after,
            decision,
        ),
        forall|
            handle: C,
            after: C,
            reply: Result<ServingEpochObservation, ServingEpochUnavailable>,
        |
            #![trigger serving_epoch.currentness.may_hand_out(handle), C::may_observe(handle, after, reply)]
            serving_epoch.currentness.may_hand_out(handle) && C::may_observe(handle, after, reply)
                ==> reply != Ok::<_, ServingEpochUnavailable>(serving_epoch.pinned),
    ensures
        decision is Err,
{
}

/// A response of one security epoch is not released under another epoch of the same
/// source, however alike the two were minted.
pub proof fn epochs_of_one_source_release_apart<C, const ENVELOPE_BYTES: usize>(
    sources: Seq<u64>,
    numbers: Seq<Option<u64>>,
    i: int,
    j: int,
    pending: PendingRuntimeRound<C, ENVELOPE_BYTES>,
    security: InProcessSecurityEpochCurrentness,
)
    requires
        crate::instances::counts(sources, numbers),
        0 <= i < numbers.len(),
        0 <= j < numbers.len(),
        i != j,
        numbers[i] == Some(pending.security_release_witness.expected.instance),
        security.active matches Some(tag) && numbers[j] == Some(tag.instance),
    ensures
        !pending.is_releasable(security),
{
    crate::instances::lemma_draws_differ(sources, numbers, i, j);
    stale_response_is_withheld(pending, security);
}

/// A pending response whose reservation or replay authority is of another round
/// cannot be released.
pub proof fn mixed_authorities_are_withheld<C, const ENVELOPE_BYTES: usize>(
    pending: PendingRuntimeRound<C, ENVELOPE_BYTES>,
    security: InProcessSecurityEpochCurrentness,
)
    requires
        pending.round.reservation_authority.round != pending.round.security_round
            || pending.round.replay_commit_authority.round != pending.round.security_round,
    ensures
        !pending.is_releasable(security),
{
}

/// A request that was committed once is never served again: every later round over a
/// journal that still holds its claim answers it with dummies only.
pub proof fn replayed_request_is_not_served<
    Q: PrivateQueryCodec<E, RESPONSE_SLOTS, ENVELOPE_BYTES>,
    E,
    T: ContinuationTokenProtector,
    F: ReplayJournalFiles,
    P: ReplayJournalRecordProtector,
    N: RoundMaterialSource,
    S: PrivateQueryEngine<D::Slot>,
    C,
    D: FrozenRecentSnapshot,
    const RESPONSE_SLOTS: usize,
    const ENVELOPE_BYTES: usize,
>(
    shape: CompiledQueryShape<RESPONSE_SLOTS, ENVELOPE_BYTES>,
    codec: Q,
    security: ActiveSecurityLease<E, T, ReplayJournalStore<F, P>, N>,
    epoch: PrivateQueryRuntimeEpoch<S, C, D>,
    envelope: [u8; ENVELOPE_BYTES],
    healthy: bool,
    transcript: RoundTranscript<E, T, ReplayJournalStore<F, P>, N, S, D, ENVELOPE_BYTES>,
    healthy_after: bool,
    round: EncodedRuntimeRound<ENVELOPE_BYTES>,
    later_codec: Q,
    later_security: ActiveSecurityLease<E, T, ReplayJournalStore<F, P>, N>,
    later_epoch: PrivateQueryRuntimeEpoch<S, C, D>,
    later_envelope: [u8; ENVELOPE_BYTES],
    later_healthy: bool,
    later: RoundTranscript<E, T, ReplayJournalStore<F, P>, N, S, D, ENVELOPE_BYTES>,
    later_healthy_after: bool,
    later_round: EncodedRuntimeRound<ENVELOPE_BYTES>,
)
    requires
        transcript.ends(shape, codec, security, epoch, envelope, healthy, healthy_after, Ok(round)),
        later.ends(
            shape,
            later_codec,
            later_security,
            later_epoch,
            later_envelope,
            later_healthy,
            later_healthy_after,
            Ok(later_round),
        ),
        transcript.guard@.requests.subset_of(later_security.replay_guard@.requests),
        later.inspection.request_key == transcript.inspection.request_key,
    ensures
        later.commit->Ok_0.decision is RequestDuplicate,
        later.response.page.all_dummy(),
        crate::round::outcome_is_masked(later.response.page.outcome),
        later.response.continuation is None,
        !later.response.has_more,
{
    completed_round_was_reserved_and_committed(
        shape,
        codec,
        security,
        epoch,
        envelope,
        healthy,
        transcript,
        healthy_after,
        round,
    );
    completed_round_was_reserved_and_committed(
        shape,
        later_codec,
        later_security,
        later_epoch,
        later_envelope,
        later_healthy,
        later,
        later_healthy_after,
        later_round,
    );
    crate::replay_laws::committed_request_is_a_duplicate_from_then_on(
        security.replay_guard@,
        transcript.inspection.request_key,
        transcript.inspection.plan,
        later_security.replay_guard@,
        later.inspection.plan,
    );
    unserved_request_learns_nothing(
        shape,
        later_codec,
        later_security,
        later_epoch,
        later_envelope,
        later_healthy,
        later,
        later_healthy_after,
        later_round,
    );
}

/// The response of a round that left its runtime unhealthy is withheld: its owner let
/// go of the security epoch and closed the exclusion.
pub proof fn degraded_response_is_withheld<
    S: PrivateQueryEngine<D::Slot>,
    Q: PrivateQueryCodec<E, RESPONSE_SLOTS, ENVELOPE_BYTES>,
    E,
    T: ContinuationTokenProtector,
    R: ContinuationReplayGuard,
    N: RoundMaterialSource,
    C: ServingEpochCurrentness,
    D: FrozenRecentSnapshot,
    const RESPONSE_SLOTS: usize,
    const ENVELOPE_BYTES: usize,
>(
    before: FinalizedRuntimeOwner<S, Q, E, T, R, N, C, D, RESPONSE_SLOTS, ENVELOPE_BYTES>,
    after: FinalizedRuntimeOwner<S, Q, E, T, R, N, C, D, RESPONSE_SLOTS, ENVELOPE_BYTES>,
    pending: PendingRuntimeRound<C, ENVELOPE_BYTES>,
)
    requires
        FinalizedRuntimeOwner::<
            S,
            Q,
            E,
            T,
            R,
            N,
            C,
            D,
            RESPONSE_SLOTS,
            ENVELOPE_BYTES,
        >::settles(before, after, true),
        !after.runtime.healthy,
    ensures
        !pending.is_releasable(after.runtime.security.currentness),
        after.response_release.state is Closed,
        !after.admits(),
        !after.may_refresh(),
{
}

/// A stopped owner stays stopped: no request and no refresh brings an epoch back.
pub proof fn stopped_owner_stays_stopped<
    S: PrivateQueryEngine<D::Slot>,
    Q: PrivateQueryCodec<E, RESPONSE_SLOTS, ENVELOPE_BYTES>,
    E,
    T: ContinuationTokenProtector,
    R: ContinuationReplayGuard,
    N: RoundMaterialSource,
    C: ServingEpochCurrentness,
    D: FrozenRecentSnapshot,
    const RESPONSE_SLOTS: usize,
    const ENVELOPE_BYTES: usize,
>(
    stopped: FinalizedRuntimeOwner<S, Q, E, T, R, N, C, D, RESPONSE_SLOTS, ENVELOPE_BYTES>,
    after: FinalizedRuntimeOwner<S, Q, E, T, R, N, C, D, RESPONSE_SLOTS, ENVELOPE_BYTES>,
    answered: bool,
)
    requires
        stopped.stopped,
        stopped.runtime.epoch is None,
        stopped.response_release.state is Closed,
        FinalizedRuntimeOwner::<
            S,
            Q,
            E,
            T,
            R,
            N,
            C,
            D,
            RESPONSE_SLOTS,
            ENVELOPE_BYTES,
        >::settles(stopped, after, answered),
    ensures
        !answered,
        after.stopped,
        after.runtime.epoch is None,
        after.response_release.state is Closed,
        !stopped.may_refresh(),
        stopped.after_refresh_begins() == stopped,
{
}

/// A refresh never falls back to the epoch it replaces: that one is gone before a
/// candidate is captured, and no candidate leaves none.
pub proof fn refresh_has_no_stale_fallback<
    S: PrivateQueryEngine<D::Slot>,
    Q: PrivateQueryCodec<E, RESPONSE_SLOTS, ENVELOPE_BYTES>,
    E,
    T: ContinuationTokenProtector,
    R: ContinuationReplayGuard,
    N: RoundMaterialSource,
    C: ServingEpochCurrentness,
    D: FrozenRecentSnapshot,
    const RESPONSE_SLOTS: usize,
    const ENVELOPE_BYTES: usize,
>(
    owner: FinalizedRuntimeOwner<S, Q, E, T, R, N, C, D, RESPONSE_SLOTS, ENVELOPE_BYTES>,
    epoch: Option<PrivateQueryRuntimeEpoch<S, C, D>>,
)
    requires
        owner.response_release.state is Idle,
    ensures
        owner.after_refresh_begins().runtime.epoch is None,
        !owner.after_refresh_begins().admits(),
        crate::runtime_owner::replacement_ends(
            owner.after_refresh_begins().runtime,
            Err(FinalizedRuntimeOwnerError),
            epoch,
        ) ==> epoch is None,
{
}

/// A refresh serves nothing but its own epoch: the network, the schema version, the
/// projection epoch and the key epoch are the owner's, the block is the projection's, the
/// engine was opened over the store that was sealed, for the owner's profile, and the
/// snapshot and the observer are those that were captured. Whatever disagrees leaves no epoch.
pub proof fn refresh_serves_its_own_epoch<
    S: PrivateQueryEngine<D::Slot>,
    Q: PrivateQueryCodec<E, RESPONSE_SLOTS, ENVELOPE_BYTES>,
    E,
    T: ContinuationTokenProtector,
    R: ContinuationReplayGuard,
    N: RoundMaterialSource,
    C: ServingEpochCurrentness,
    D: FrozenRecentSnapshot,
    const RESPONSE_SLOTS: usize,
    const ENVELOPE_BYTES: usize,
>(
    owner: FinalizedRuntimeOwner<S, Q, E, T, R, N, C, D, RESPONSE_SLOTS, ENVELOPE_BYTES>,
    projection: FinalizedProjection<S::Store>,
    capture: ServingEpochCapture<C, D>,
    candidate: Result<ServingEpochLease<S::Store, C, D>, FinalizedRuntimeOwnerError>,
    epoch: Option<PrivateQueryRuntimeEpoch<S, C, D>>,
)
    requires
        owner.refreshes(projection, Ok(capture), candidate, epoch),
    ensures
        epoch matches Some(epoch) ==> {
            &&& owner.controller.agrees_with(capture.observation.identity)
            &&& crate::serving_epoch::is_at(
                capture.observation.identity,
                projection.checkpoint,
            )
            &&& epoch.serving_epoch.pinned == capture.observation
            &&& epoch.serving_epoch.currentness == capture.currentness
            &&& epoch.recent_snapshot == capture.recent_snapshot
            &&& S::may_open(projection.store, owner.runtime.shape.profile, Ok(epoch.engine))
            &&& crate::records::identity_of(epoch.checkpoint) == capture.observation.identity
        },
        !owner.controller.agrees_with(capture.observation.identity)
            || !crate::serving_epoch::is_at(
            capture.observation.identity,
            projection.checkpoint,
        ) ==> epoch is None,
{
}

/// An epoch is built exactly where the snapshot has the profile's slots and was frozen over
/// the checkpoint, the engine opens over the lease's store, and it reads as wide as the
/// profile; the epoch is then of that checkpoint and of the lease's snapshot, pin and
/// digests.
pub proof fn epoch_is_built_from_its_lease<
    S: PrivateQueryEngine<D::Slot>,
    C,
    D: FrozenRecentSnapshot,
>(
    serving_epoch: ServingEpochLease<S::Store, C, D>,
    profile: PrivacyProfile,
    checkpoint: PrivateQueryCheckpoint,
    replies: EpochReplies<S>,
    result: Result<PrivateQueryRuntimeEpoch<S, C, D>, UniformExternalFailure>,
)
    requires
        crate::runtime::epoch_is_built(serving_epoch, profile, checkpoint, replies, result),
    ensures
        ({
            let frozen = replies.frozen;
            let tag: int = if checkpoint.network is Mainnet {
                0
            } else if checkpoint.network is Testnet {
                1
            } else {
                2
            };
            let fits = frozen.slots == profile.recent_snapshot_slots && frozen.identity.network_tag
                == tag && frozen.identity.finalized_height == checkpoint.height
                && frozen.identity.finalized_hash_display == checkpoint.block_hash_display
                && frozen.identity.schema_version == checkpoint.schema_version
                && frozen.identity.projection_epoch == checkpoint.projection_epoch
                && frozen.identity.key_epoch == checkpoint.key_epoch;
            &&& serving_epoch.recent_snapshot().may_be_frozen_as(frozen)
            &&& fits ==> S::may_open(serving_epoch.finalized_store(), profile, replies.opened)
            &&& result is Ok <==> fits && replies.opened is Ok && replies.store_width
                == profile.store_reads
            &&& result matches Ok(epoch) ==> {
                &&& epoch.engine == replies.opened->Ok_0
                &&& epoch.engine.may_have_width(profile.store_reads)
                &&& epoch.recent_snapshot == serving_epoch.recent_snapshot()
                &&& epoch.recent_snapshot_content_digest == frozen.content_digest
                &&& epoch.recent_snapshot_binding_digest == frozen.binding_digest
                &&& epoch.serving_epoch == serving_epoch.pinned()
                &&& epoch.checkpoint == checkpoint
            }
        }),
{
}

/// A lease is bound to a shape exactly where the snapshot is as wide as the profile says, a
/// scan can be numbered, the lease is of the profile and the codec opens for the lease's
/// session; the runtime is then healthy and serves no epoch yet.
pub proof fn runtime_is_bound_to_its_lease<
    S: PrivateQueryEngine<D::Slot>,
    Q: PrivateQueryCodec<E, RESPONSE_SLOTS, ENVELOPE_BYTES>,
    E,
    T: ContinuationTokenProtector,
    R: ContinuationReplayGuard,
    N: RoundMaterialSource,
    C: ServingEpochCurrentness,
    D: FrozenRecentSnapshot,
    const RESPONSE_SLOTS: usize,
    const ENVELOPE_BYTES: usize,
>(
    shape: CompiledQueryShape<RESPONSE_SLOTS, ENVELOPE_BYTES>,
    recent_snapshot_slots: usize,
    security: ActiveSecurityLease<E, T, R, N>,
    opened: Result<Q, InnerCodecError>,
    result: Result<
        PrivateQueryRuntime<S, Q, E, T, R, N, C, D, RESPONSE_SLOTS, ENVELOPE_BYTES>,
        UniformExternalFailure,
    >,
)
    requires
        PrivateQueryRuntime::opens(shape, recent_snapshot_slots, security, opened, result),
    ensures
        ({
            let fits = recent_snapshot_slots == shape.profile.recent_snapshot_slots
                && shape.profile.store_reads + shape.profile.recent_snapshot_slots <= usize::MAX
                && security.profile_id == shape.profile.profile_id;
            &&& result is Ok <==> fits && opened is Ok
            &&& fits ==> Q::may_open(shape, security.session_binding, opened)
            &&& result matches Ok(runtime) ==> {
                &&& runtime.shape == shape
                &&& runtime.codec == opened->Ok_0
                &&& runtime.security == security
                &&& runtime.epoch is None
                &&& runtime.healthy
            }
        }),
{
}

/// A runtime starts with a first epoch exactly where the codec opens for the lease's
/// session and the epoch is built.
pub proof fn runtime_starts_with_a_built_epoch<
    S: PrivateQueryEngine<D::Slot>,
    Q: PrivateQueryCodec<E, RESPONSE_SLOTS, ENVELOPE_BYTES>,
    E,
    T: ContinuationTokenProtector,
    R: ContinuationReplayGuard,
    N: RoundMaterialSource,
    C: ServingEpochCurrentness,
    D: FrozenRecentSnapshot,
    const RESPONSE_SLOTS: usize,
    const ENVELOPE_BYTES: usize,
>(
    serving_epoch: ServingEpochLease<S::Store, C, D>,
    shape: CompiledQueryShape<RESPONSE_SLOTS, ENVELOPE_BYTES>,
    checkpoint: PrivateQueryCheckpoint,
    security: ActiveSecurityLease<E, T, R, N>,
    opened: Result<Q, InnerCodecError>,
    replies: EpochReplies<S>,
    built: Result<PrivateQueryRuntimeEpoch<S, C, D>, UniformExternalFailure>,
    started: Option<PrivateQueryRuntime<S, Q, E, T, R, N, C, D, RESPONSE_SLOTS, ENVELOPE_BYTES>>,
)
    requires
        PrivateQueryRuntime::starts(
            serving_epoch,
            shape,
            checkpoint,
            security,
            opened,
            replies,
            built,
            started,
        ),
    ensures
        Q::may_open(shape, security.session_binding, opened),
        started is Some <==> opened is Ok && built is Ok,
        opened is Ok ==> crate::runtime::epoch_is_built(
            serving_epoch,
            shape.profile,
            checkpoint,
            replies,
            built,
        ),
        started matches Some(runtime) ==> {
            &&& runtime.shape == shape
            &&& runtime.codec == opened->Ok_0
            &&& runtime.security == security
            &&& runtime.epoch == Some(built->Ok_0)
            &&& runtime.healthy
        },
{
}

/// A pending response can be released exactly where its own security epoch is active and
/// available and both its authorities are of its own round of that epoch.
pub proof fn pending_response_is_released_by_its_own_epoch<C, const ENVELOPE_BYTES: usize>(
    pending: PendingRuntimeRound<C, ENVELOPE_BYTES>,
    security: InProcessSecurityEpochCurrentness,
)
    ensures
        pending.is_releasable(security) <==> {
            &&& security.available
            &&& security.active == Some(pending.security_release_witness.expected)
            &&& pending.round.security_round.epoch == pending.security_release_witness.expected
            &&& pending.round.reservation_authority.round == pending.round.security_round
            &&& pending.round.reservation_authority.now_unix_seconds
                == pending.round.now_unix_seconds
            &&& pending.round.reservation_authority.response_nonce == pending.round.response_nonce
            &&& pending.round.reservation_authority.token_nonce == pending.round.token_nonce
            &&& pending.round.replay_commit_authority.round == pending.round.security_round
        },
{
}

/// A release is decided in its favour exactly where its permit and the exclusion are pending, its
/// serving epoch is observed as pinned and published, and its own security epoch releases
/// it. Without a pending permit and exclusion nothing is observed.
pub proof fn release_is_decided_by_gate_and_epochs<
    C: ServingEpochCurrentness,
    const ENVELOPE_BYTES: usize,
>(
    pending: PendingRuntimeRound<C, ENVELOPE_BYTES>,
    gate: ResponseReleaseState,
    security: InProcessSecurityEpochCurrentness,
    check: ServingEpochTranscript<C>,
    observed: Result<(), ServingEpochUnavailable>,
    currentness_after: C,
    decision: Result<(), UniformExternalFailure>,
)
    requires
        crate::runtime_owner::release_ends(
            pending,
            gate,
            security,
            check,
            observed,
            currentness_after,
            decision,
        ),
    ensures
        ({
            let open = pending.release_permit.held is Pending && gate is Pending;
            let witness = pending.serving_release_witness;
            &&& decision is Ok <==> open && check.observed is Ok && check.observed->Ok_0
                == witness.pinned && check.published && security.available && security.active
                == Some(pending.security_release_witness.expected)
                && pending.round.security_round.epoch == pending.security_release_witness.expected
                && pending.round.reservation_authority.round == pending.round.security_round
                && pending.round.reservation_authority.now_unix_seconds
                == pending.round.now_unix_seconds
                && pending.round.reservation_authority.response_nonce
                == pending.round.response_nonce && pending.round.reservation_authority.token_nonce
                == pending.round.token_nonce && pending.round.replay_commit_authority.round
                == pending.round.security_round
            &&& open ==> C::may_observe(witness.currentness, check.observer, check.observed)
            &&& !open ==> currentness_after == witness.currentness
        }),
{
}

/// A round waits for its release under a pending permit, with a handle on its own serving
/// epoch, and bound to its own security epoch; nothing is decided of it yet.
pub proof fn pending_round_is_of_its_epochs<C: ServingEpochCurrentness, const ENVELOPE_BYTES: usize>(
    pending: PendingRuntimeRound<C, ENVELOPE_BYTES>,
    serving_epoch: PinnedServingEpoch<C>,
    security_epoch: SecurityEpochTag,
)
    requires
        crate::runtime_owner::is_pending_round(pending, serving_epoch, security_epoch),
    ensures
        pending.release_decision is None,
        pending.release_permit.held is Pending,
        pending.serving_release_witness.pinned == serving_epoch.pinned,
        serving_epoch.currentness.may_hand_out(pending.serving_release_witness.currentness),
        pending.security_release_witness.expected == security_epoch,
{
}

/// A controller pins a capture exactly where it is of the controller's network, schema and
/// both epochs, and of the block that the generation was sealed at.
pub proof fn controller_pins_only_its_own_epoch<S, C, D>(
    controller: RecentSnapshotRefreshController,
    projection: FinalizedProjection<S>,
    capture: ServingEpochCapture<C, D>,
    result: Result<ServingEpochLease<S, C, D>, FinalizedRuntimeOwnerError>,
)
    requires
        controller.pins(projection, capture, result),
    ensures
        ({
            let identity = capture.observation.identity;
            &&& result is Ok <==> (identity.network_tag == 0 <==> controller.network is Mainnet)
                && (identity.network_tag == 1 <==> controller.network is Testnet) && (
            identity.network_tag == 2 <==> controller.network is Regtest)
                && identity.schema_version == controller.schema_version && identity.projection_epoch
                == controller.projection_epoch && identity.key_epoch == controller.key_epoch
                && identity.finalized_height == projection.checkpoint.height
                && identity.finalized_hash_display == projection.checkpoint.block_hash
            &&& result matches Ok(lease) ==> {
                &&& lease.pinned().pinned == capture.observation
                &&& lease.pinned().currentness == capture.currentness
                &&& lease.recent_snapshot() == capture.recent_snapshot
                &&& lease.finalized_store() == projection.store
            }
        }),
{
}

/// A refresh begins exactly where nothing holds the exclusion, the owner is not stopped and the
/// runtime is healthy. Wherever the exclusion is idle the epoch that was served is let go; where
/// it is not, nothing changes.
pub proof fn refresh_begins_without_an_epoch<
    S: PrivateQueryEngine<D::Slot>,
    Q: PrivateQueryCodec<E, RESPONSE_SLOTS, ENVELOPE_BYTES>,
    E,
    T: ContinuationTokenProtector,
    R: ContinuationReplayGuard,
    N: RoundMaterialSource,
    C: ServingEpochCurrentness,
    D: FrozenRecentSnapshot,
    const RESPONSE_SLOTS: usize,
    const ENVELOPE_BYTES: usize,
>(owner: FinalizedRuntimeOwner<S, Q, E, T, R, N, C, D, RESPONSE_SLOTS, ENVELOPE_BYTES>)
    ensures
        ({
            let after = owner.after_refresh_begins();
            let idle = owner.response_release.state is Idle;
            &&& owner.may_refresh() <==> idle && !owner.stopped && owner.runtime.healthy
            &&& !idle ==> after == owner
            &&& idle ==> after.runtime.epoch is None
            &&& owner.may_refresh() ==> after.response_release.state is Refreshing
                && after.controller == owner.controller
            &&& idle && !owner.may_refresh() ==> after.response_release.state is Idle
                && !after.controller.published
            &&& after.stopped == owner.stopped
            &&& after.runtime.healthy == owner.runtime.healthy
            &&& after.runtime.security == owner.runtime.security
            &&& after.runtime.shape == owner.runtime.shape
            &&& after.runtime.codec == owner.runtime.codec
            &&& after.controller.network == owner.controller.network
            &&& after.controller.schema_version == owner.controller.schema_version
            &&& after.controller.projection_epoch == owner.controller.projection_epoch
            &&& after.controller.key_epoch == owner.controller.key_epoch
        }),
{
}

/// A refreshed epoch is the one that was captured: of the generation's block, the
/// controller's network, schema and epochs and the lease's key epoch, over the generation's
/// store and the capture's snapshot.
pub proof fn refreshed_epoch_is_the_captured_one<
    S: PrivateQueryEngine<D::Slot>,
    Q: PrivateQueryCodec<E, RESPONSE_SLOTS, ENVELOPE_BYTES>,
    E,
    T: ContinuationTokenProtector,
    R: ContinuationReplayGuard,
    N: RoundMaterialSource,
    C: ServingEpochCurrentness,
    D: FrozenRecentSnapshot,
    const RESPONSE_SLOTS: usize,
    const ENVELOPE_BYTES: usize,
>(
    owner: FinalizedRuntimeOwner<S, Q, E, T, R, N, C, D, RESPONSE_SLOTS, ENVELOPE_BYTES>,
    projection: FinalizedProjection<S::Store>,
    capture: Result<ServingEpochCapture<C, D>, FinalizedRuntimeOwnerError>,
    candidate: Result<ServingEpochLease<S::Store, C, D>, FinalizedRuntimeOwnerError>,
    epoch: Option<PrivateQueryRuntimeEpoch<S, C, D>>,
)
    requires
        owner.refreshes(projection, capture, candidate, epoch),
    ensures
        capture is Err || candidate is Err || !owner.runtime.healthy ==> epoch is None,
        epoch matches Some(epoch) ==> {
            let captured = capture->Ok_0;
            &&& capture is Ok
            &&& epoch.serving_epoch.pinned == captured.observation
            &&& epoch.serving_epoch.currentness == captured.currentness
            &&& epoch.recent_snapshot == captured.recent_snapshot
            &&& epoch.checkpoint.height == projection.checkpoint.height
            &&& epoch.checkpoint.block_hash_display == projection.checkpoint.block_hash
            &&& epoch.checkpoint.network == owner.controller.network
            &&& epoch.checkpoint.schema_version == owner.controller.schema_version
            &&& epoch.checkpoint.projection_epoch == owner.controller.projection_epoch
            &&& epoch.checkpoint.key_epoch == owner.controller.key_epoch
            &&& epoch.checkpoint.key_epoch == owner.runtime.security.key_epoch
            &&& epoch.engine.may_have_width(owner.runtime.shape.profile.store_reads)
            &&& S::may_open(projection.store, owner.runtime.shape.profile, Ok(epoch.engine))
        },
{
    if epoch is Some {
        let lease = candidate->Ok_0;
        let (checkpoint, replies) = choose|
            checkpoint: PrivateQueryCheckpoint,
            replies: EpochReplies<S>,
        | #[trigger]
            crate::runtime::epoch_is_built(
                lease,
                owner.runtime.shape.profile,
                checkpoint,
                replies,
                crate::runtime::activated(epoch),
            ) && crate::records::identity_of(checkpoint) == lease.pinned().pinned.identity;
        assert(replies.opened == Ok::<S, crate::providers::EngineUnavailable>(epoch->Some_0.engine));
        crate::records::identity_names_its_checkpoint(checkpoint);
    }
}

/// A request is admitted exactly where the owner is not stopped, nothing holds the exclusion, and
/// a healthy runtime serves an epoch.
///
/// A request that is not admitted is not answered and leaves the runtime's health and
/// providers alone. An answered one leaves the exclusion pending unless the runtime stopped in
/// answering it: an owner whose runtime is no longer healthy lets its epoch and its security
/// epoch go and closes the exclusion, unless another holds it.
pub proof fn request_is_settled_by_admission_and_health<
    S: PrivateQueryEngine<D::Slot>,
    Q: PrivateQueryCodec<E, RESPONSE_SLOTS, ENVELOPE_BYTES>,
    E,
    T: ContinuationTokenProtector,
    R: ContinuationReplayGuard,
    N: RoundMaterialSource,
    C: ServingEpochCurrentness,
    D: FrozenRecentSnapshot,
    const RESPONSE_SLOTS: usize,
    const ENVELOPE_BYTES: usize,
>(
    before: FinalizedRuntimeOwner<S, Q, E, T, R, N, C, D, RESPONSE_SLOTS, ENVELOPE_BYTES>,
    after: FinalizedRuntimeOwner<S, Q, E, T, R, N, C, D, RESPONSE_SLOTS, ENVELOPE_BYTES>,
    answered: bool,
)
    requires
        FinalizedRuntimeOwner::<
            S,
            Q,
            E,
            T,
            R,
            N,
            C,
            D,
            RESPONSE_SLOTS,
            ENVELOPE_BYTES,
        >::settles(before, after, answered),
    ensures
        before.admits() <==> !before.stopped && before.response_release.state is Idle
            && before.runtime.healthy && before.runtime.epoch is Some,
        answered ==> before.admits(),
        !before.admits() ==> after.runtime.healthy == before.runtime.healthy
            && after.runtime.security.material_source == before.runtime.security.material_source
            && after.runtime.security.token_protector == before.runtime.security.token_protector
            && after.runtime.security.replay_guard == before.runtime.security.replay_guard
            && after.runtime.security.envelope_protector
            == before.runtime.security.envelope_protector,
        after.stopped == before.stopped,
        after.runtime.shape == before.runtime.shape,
        after.runtime.codec == before.runtime.codec,
        after.runtime.security.key_epoch == before.runtime.security.key_epoch,
        after.runtime.security.session_binding == before.runtime.security.session_binding,
        after.runtime.security.profile_id == before.runtime.security.profile_id,
        after.runtime.security.replay_namespace == before.runtime.security.replay_namespace,
        after.runtime.security.security_epoch_tag == before.runtime.security.security_epoch_tag,
        after.controller.network == before.controller.network,
        after.controller.schema_version == before.controller.schema_version,
        after.controller.projection_epoch == before.controller.projection_epoch,
        after.controller.key_epoch == before.controller.key_epoch,
        !after.runtime.healthy && (answered || before.response_release.state is Idle) ==> {
            &&& after.response_release.state is Closed
            &&& after.runtime.epoch is None
            &&& !after.controller.published
            &&& after.runtime.security.currentness.active is None
            &&& !after.runtime.security.currentness.available
        },
        after.runtime.healthy || (!answered && !(before.response_release.state is Idle)) ==> {
            &&& after.controller.published == before.controller.published
            &&& after.runtime.security.currentness == before.runtime.security.currentness
            &&& answered ==> after.response_release.state is Pending
            &&& !answered ==> after.response_release.state == before.response_release.state
            &&& after.runtime.epoch is Some <==> before.runtime.epoch is Some
            &&& before.runtime.epoch is Some ==> after.runtime.epoch->Some_0.serving_epoch
                == before.runtime.epoch->Some_0.serving_epoch
                && after.runtime.epoch->Some_0.checkpoint
                == before.runtime.epoch->Some_0.checkpoint
                && after.runtime.epoch->Some_0.recent_snapshot_content_digest
                == before.runtime.epoch->Some_0.recent_snapshot_content_digest
                && after.runtime.epoch->Some_0.recent_snapshot_binding_digest
                == before.runtime.epoch->Some_0.recent_snapshot_binding_digest
        },
{
}

/// A stopped runtime serves no epoch and its security epoch is neither active nor
/// available; everything else of it stays.
pub proof fn stopped_runtime_lets_its_epochs_go<
    S: PrivateQueryEngine<D::Slot>,
    Q: PrivateQueryCodec<E, RESPONSE_SLOTS, ENVELOPE_BYTES>,
    E,
    T: ContinuationTokenProtector,
    R: ContinuationReplayGuard,
    N: RoundMaterialSource,
    C: ServingEpochCurrentness,
    D: FrozenRecentSnapshot,
    const RESPONSE_SLOTS: usize,
    const ENVELOPE_BYTES: usize,
>(
    before: PrivateQueryRuntime<S, Q, E, T, R, N, C, D, RESPONSE_SLOTS, ENVELOPE_BYTES>,
    after: PrivateQueryRuntime<S, Q, E, T, R, N, C, D, RESPONSE_SLOTS, ENVELOPE_BYTES>,
)
    requires
        crate::runtime_owner::is_stopped(before, after),
    ensures
        after.epoch is None,
        after.security.currentness.active is None,
        !after.security.currentness.available,
        after.security.currentness.observations == before.security.currentness.observations,
        after.security.security_epoch_tag == before.security.security_epoch_tag,
        after.security.session_binding == before.security.session_binding,
        after.security.replay_guard == before.security.replay_guard,
        after.security.material_source == before.security.material_source,
        after.healthy == before.healthy,
        after.shape == before.shape,
        after.codec == before.codec,
{
}

/// An owner is made exactly where the schema and both epochs are above zero and its lease is
/// bound to the shape; it begins idle, unpublished and not stopped, under the lease's own
/// key epoch.
pub proof fn owner_is_made_for_its_lease<
    S: PrivateQueryEngine<D::Slot>,
    Q: PrivateQueryCodec<E, RESPONSE_SLOTS, ENVELOPE_BYTES>,
    E,
    T: ContinuationTokenProtector,
    R: ContinuationReplayGuard,
    N: RoundMaterialSource,
    C: ServingEpochCurrentness,
    D: FrozenRecentSnapshot,
    const RESPONSE_SLOTS: usize,
    const ENVELOPE_BYTES: usize,
>(
    network: PrivateNetwork,
    schema_version: u32,
    projection_epoch: u64,
    shape: CompiledQueryShape<RESPONSE_SLOTS, ENVELOPE_BYTES>,
    recent_snapshot_slots: usize,
    security: ActiveSecurityLease<E, T, R, N>,
    opened: Result<Q, InnerCodecError>,
    bound: Result<
        PrivateQueryRuntime<S, Q, E, T, R, N, C, D, RESPONSE_SLOTS, ENVELOPE_BYTES>,
        UniformExternalFailure,
    >,
    result: Result<
        FinalizedRuntimeOwner<S, Q, E, T, R, N, C, D, RESPONSE_SLOTS, ENVELOPE_BYTES>,
        FinalizedRuntimeOwnerError,
    >,
)
    requires
        FinalizedRuntimeOwner::<
            S,
            Q,
            E,
            T,
            R,
            N,
            C,
            D,
            RESPONSE_SLOTS,
            ENVELOPE_BYTES,
        >::is_made(
            network,
            schema_version,
            projection_epoch,
            shape,
            recent_snapshot_slots,
            security,
            opened,
            bound,
            result,
        ),
    ensures
        ({
            let named = schema_version > 0 && projection_epoch > 0 && security.key_epoch > 0;
            let fits = recent_snapshot_slots == shape.profile.recent_snapshot_slots
                && shape.profile.store_reads + shape.profile.recent_snapshot_slots <= usize::MAX
                && security.profile_id == shape.profile.profile_id;
            &&& result is Ok <==> named && fits && opened is Ok
            &&& named && fits ==> Q::may_open(shape, security.session_binding, opened)
            &&& result matches Ok(owner) ==> {
                &&& owner.controller.network == network
                &&& owner.controller.schema_version == schema_version
                &&& owner.controller.projection_epoch == projection_epoch
                &&& owner.controller.key_epoch == security.key_epoch
                &&& !owner.controller.published
                &&& owner.response_release.state is Idle
                &&& !owner.stopped
                &&& owner.runtime.epoch is None
                &&& owner.runtime.healthy
                &&& owner.runtime.security == security
                &&& owner.runtime.shape == shape
                &&& owner.runtime.codec == opened->Ok_0
            }
        }),
{
}

/// A round keeps everything of its lease but the four providers, and everything of its epoch
/// but the store and the snapshot; a handled request may also have moved what observes the
/// epoch.
pub proof fn rounds_change_only_providers<
    S: PrivateQueryEngine<D::Slot>,
    Q: PrivateQueryCodec<E, RESPONSE_SLOTS, ENVELOPE_BYTES>,
    E,
    T: ContinuationTokenProtector,
    R: ContinuationReplayGuard,
    N: RoundMaterialSource,
    C: ServingEpochCurrentness,
    D: FrozenRecentSnapshot,
    const RESPONSE_SLOTS: usize,
    const ENVELOPE_BYTES: usize,
>(
    runtime: PrivateQueryRuntime<S, Q, E, T, R, N, C, D, RESPONSE_SLOTS, ENVELOPE_BYTES>,
    lease: ActiveSecurityLease<E, T, R, N>,
    before: PrivateQueryRuntimeEpoch<S, C, D>,
    after: PrivateQueryRuntimeEpoch<S, C, D>,
)
    ensures
        PrivateQueryRuntime::<
            S,
            Q,
            E,
            T,
            R,
            N,
            C,
            D,
            RESPONSE_SLOTS,
            ENVELOPE_BYTES,
        >::keeps_lease(runtime.security, lease) <==> {
            &&& lease.key_epoch == runtime.security.key_epoch
            &&& lease.session_binding == runtime.security.session_binding
            &&& lease.profile_id == runtime.security.profile_id
            &&& lease.replay_namespace == runtime.security.replay_namespace
            &&& lease.security_epoch_tag == runtime.security.security_epoch_tag
            &&& lease.currentness == runtime.security.currentness
        },
        PrivateQueryRuntime::<
            S,
            Q,
            E,
            T,
            R,
            N,
            C,
            D,
            RESPONSE_SLOTS,
            ENVELOPE_BYTES,
        >::keeps_epoch(before, after) <==> {
            &&& after.checkpoint == before.checkpoint
            &&& after.serving_epoch == before.serving_epoch
            &&& after.recent_snapshot_content_digest == before.recent_snapshot_content_digest
            &&& after.recent_snapshot_binding_digest == before.recent_snapshot_binding_digest
        },
        PrivateQueryRuntime::<
            S,
            Q,
            E,
            T,
            R,
            N,
            C,
            D,
            RESPONSE_SLOTS,
            ENVELOPE_BYTES,
        >::keeps_pinned_epoch(before, after) <==> {
            &&& after.checkpoint == before.checkpoint
            &&& after.serving_epoch.pinned == before.serving_epoch.pinned
            &&& after.recent_snapshot_content_digest == before.recent_snapshot_content_digest
            &&& after.recent_snapshot_binding_digest == before.recent_snapshot_binding_digest
        },
{
}

/// An owner that runs a round runs it over its own shape, codec, lease and epoch, for the
/// envelope that it was given, and is as healthy after it as the round leaves it.
pub proof fn owner_runs_its_own_round<
    S: PrivateQueryEngine<D::Slot>,
    Q: PrivateQueryCodec<E, RESPONSE_SLOTS, ENVELOPE_BYTES>,
    E,
    T: ContinuationTokenProtector,
    R: ContinuationReplayGuard,
    N: RoundMaterialSource,
    C: ServingEpochCurrentness,
    D: FrozenRecentSnapshot,
    const RESPONSE_SLOTS: usize,
    const ENVELOPE_BYTES: usize,
>(
    before: FinalizedRuntimeOwner<S, Q, E, T, R, N, C, D, RESPONSE_SLOTS, ENVELOPE_BYTES>,
    envelope: [u8; ENVELOPE_BYTES],
    found: RoundTranscript<E, T, R, N, S, D, ENVELOPE_BYTES>,
    encoded: Result<EncodedRuntimeRound<ENVELOPE_BYTES>, UniformExternalFailure>,
    after: FinalizedRuntimeOwner<S, Q, E, T, R, N, C, D, RESPONSE_SLOTS, ENVELOPE_BYTES>,
)
    requires
        FinalizedRuntimeOwner::<
            S,
            Q,
            E,
            T,
            R,
            N,
            C,
            D,
            RESPONSE_SLOTS,
            ENVELOPE_BYTES,
        >::runs(before, envelope, found, encoded, after),
    ensures
        before.runtime.codec.may_decode(
            before.runtime.security.envelope_protector,
            envelope,
            found.decoder,
            found.decoded,
        ),
        found.decoded is Ok ==> N::may_draw(
            before.runtime.security.material_source,
            before.runtime.security.security_epoch_tag,
            found.source,
            found.material,
        ),
        found.decoded is Ok ==> after.runtime.security.material_source == found.source,
        found.decoded is Err ==> after.runtime.security.material_source
            == before.runtime.security.material_source,
        encoded is Ok ==> found.encoded is Ok && encoded->Ok_0.envelope == found.encoded->Ok_0,
        encoded is Ok ==> after.runtime.security.replay_guard == found.guard
            && after.runtime.security.token_protector == found.issuer
            && after.runtime.security.envelope_protector == found.encoder,
        encoded is Ok && after.runtime.epoch is Some ==> after.runtime.epoch->Some_0.engine
            == found.engine && after.runtime.epoch->Some_0.recent_snapshot
            == found.snapshots.last(),
        after.runtime.healthy ==> before.runtime.healthy,
{
}

} // verus!
