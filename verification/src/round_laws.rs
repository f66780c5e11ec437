//! What a round hands to its providers and what it answers, told from the request, the
//! round's material and the replies alone.

use crate::continuation::ContinuationReplayGuard;
use crate::failure::UniformExternalFailure;
use crate::paging_laws::CompletedRound;
use crate::profile::CompiledQueryShape;
use crate::providers::ContinuationTokenProtector;
use crate::providers::FrozenRecentSnapshot;
use crate::providers::PrivateQueryCodec;
use crate::providers::PrivateQueryEngine;
use crate::providers::ServingEpochCurrentness;
use crate::providers::ServingEpochTranscript;
use crate::providers::ServingEpochUnavailable;
use crate::round::ContinuationExpectation;
use crate::round::ContinuationProtectionContext;
use crate::round::ContinuationState;
use crate::round::ContinuationToken;
use crate::runtime::EncodedRuntimeRound;
use crate::runtime::PrivateQueryRuntimeEpoch;
use crate::runtime::RoundTranscript;
use crate::runtime::RuntimeRound;
use crate::runtime_security::ENVELOPE_NONCE_BYTES;
use crate::security_owner::ActiveSecurityLease;
use crate::security_owner::ReplayNamespace;
use crate::security_owner::RoundMaterialSource;
use vstd::prelude::*;

verus! {

/// The token of a round says the profile, the query, the projection and the nonce that the
/// round was of, and where the scan goes on. On a first page it expires the profile's
/// lifetime after the second that the round observed; on a later page it expires when the
/// presented token does.
pub proof fn token_says_when_its_query_expires<
    Q: PrivateQueryCodec<E, RESPONSE_SLOTS, ENVELOPE_BYTES>,
    E,
    T: ContinuationTokenProtector,
    R: ContinuationReplayGuard,
    N: RoundMaterialSource,
    S: PrivateQueryEngine<D::Slot>,
    C,
    D: FrozenRecentSnapshot,
    const RESPONSE_SLOTS: usize,
    const ENVELOPE_BYTES: usize,
>(
    shape: CompiledQueryShape<RESPONSE_SLOTS, ENVELOPE_BYTES>,
    done: CompletedRound<Q, E, T, R, N, S, C, D, RESPONSE_SLOTS, ENVELOPE_BYTES>,
) -> (state: ContinuationState)
    requires
        done.completes(shape),
    ensures
        T::may_issue(
            done.transcript.inspector,
            state,
            done.transcript.context->Ok_0,
            done.transcript.issuer,
            done.transcript.issued,
        ),
        state.version == 1,
        state.profile_id == shape.profile.profile_id,
        state.query_digest == done.transcript.query_digest,
        state.projection_epoch == done.epoch.checkpoint.projection_epoch,
        state.nonce == done.transcript.material->Ok_0.token_nonce,
        done.transcript.execution->Ok_0.next_cursor matches Some(cursor) ==> state.cursor == cursor,
        done.transcript.execution->Ok_0.next_cursor is None ==> state.cursor == 1,
        !(done.transcript.inspection.continuation_use is Continue) || !(
        done.transcript.commit->Ok_0.decision is Fresh) ==> state.expires_at_unix_seconds == done.transcript.material->Ok_0.now_unix_seconds
            + shape.profile.continuation_ttl_seconds,
        done.transcript.inspection.continuation_use is Continue
            && done.transcript.commit->Ok_0.decision is Fresh ==> state.expires_at_unix_seconds
            == done.transcript.inspection.continuation_use->expires_at_unix_seconds,
{
    let found = done.transcript;
    crate::round::issued_state(
        shape.profile,
        found.query_digest,
        done.epoch.checkpoint,
        found.execution->Ok_0.next_cursor,
        done.readiness(shape.profile).continuation_expiry,
        found.material->Ok_0.token_nonce,
    )
}

/// A presented token is judged against the round's own profile, query and projection, the
/// second that the round observed, and the number of positions that its scan has.
pub proof fn token_is_judged_by_the_round_it_is_presented_in<
    Q: PrivateQueryCodec<E, RESPONSE_SLOTS, ENVELOPE_BYTES>,
    E,
    T: ContinuationTokenProtector,
    R: ContinuationReplayGuard,
    N: RoundMaterialSource,
    S: PrivateQueryEngine<D::Slot>,
    C,
    D: FrozenRecentSnapshot,
    const RESPONSE_SLOTS: usize,
    const ENVELOPE_BYTES: usize,
>(
    shape: CompiledQueryShape<RESPONSE_SLOTS, ENVELOPE_BYTES>,
    done: CompletedRound<Q, E, T, R, N, S, C, D, RESPONSE_SLOTS, ENVELOPE_BYTES>,
) -> (expectation: ContinuationExpectation)
    requires
        done.completes(shape),
    ensures
        T::may_inspect(
            done.security.token_protector,
            done.transcript.decoded->Ok_0.continuation,
            done.transcript.context->Ok_0,
            expectation,
            done.security.replay_namespace,
            done.transcript.decoded->Ok_0.nonce,
            done.transcript.inspector,
            done.transcript.inspection,
        ),
        expectation.version == 1,
        expectation.profile_id == shape.profile.profile_id,
        expectation.query_digest == done.transcript.query_digest,
        expectation.projection_epoch == done.epoch.checkpoint.projection_epoch,
        expectation.now_unix_seconds == done.transcript.material->Ok_0.now_unix_seconds,
        expectation.cursor_limit == shape.profile.store_reads + shape.profile.recent_snapshot_slots,
{
    let found = done.transcript;
    let now: u64 = found.material->Ok_0.now_unix_seconds;
    crate::round::expected_continuation(
        shape.profile,
        found.query_digest,
        done.epoch.checkpoint,
        now,
        crate::round::planned_round(shape.profile, now)->0.cursor_limit,
    )
}

/// A round asks its providers for what the request and the lease say: material of the
/// lease's epoch, the digest of the request's query over the pinned snapshot, a context for
/// the serving checkpoint, the replay of what was inspected, every slot of the recent
/// snapshot once and in order, and one execution of the request's query.
pub proof fn providers_are_asked_for_the_request<
    Q: PrivateQueryCodec<E, RESPONSE_SLOTS, ENVELOPE_BYTES>,
    E,
    T: ContinuationTokenProtector,
    R: ContinuationReplayGuard,
    N: RoundMaterialSource,
    S: PrivateQueryEngine<D::Slot>,
    C,
    D: FrozenRecentSnapshot,
    const RESPONSE_SLOTS: usize,
    const ENVELOPE_BYTES: usize,
>(
    shape: CompiledQueryShape<RESPONSE_SLOTS, ENVELOPE_BYTES>,
    done: CompletedRound<Q, E, T, R, N, S, C, D, RESPONSE_SLOTS, ENVELOPE_BYTES>,
) -> (cursor: usize)
    requires
        done.completes(shape),
    ensures
        done.codec.may_decode(
            done.security.envelope_protector,
            done.envelope,
            done.transcript.decoder,
            done.transcript.decoded,
        ),
        N::may_draw(
            done.security.material_source,
            done.security.security_epoch_tag,
            done.transcript.source,
            done.transcript.material,
        ),
        done.codec.digests_to(
            done.transcript.decoded->Ok_0.query,
            done.epoch.recent_snapshot_binding_digest,
            done.transcript.query_digest,
        ),
        done.codec.may_give_context(done.epoch.checkpoint, done.transcript.context),
        R::may_commit(
            done.security.replay_guard,
            done.transcript.material->Ok_0.security_round,
            done.transcript.inspection.request_key,
            done.transcript.inspection.plan,
            done.transcript.guard,
            done.transcript.commit,
        ),
        done.transcript.snapshots.len() == shape.profile.recent_snapshot_slots + 1,
        done.transcript.snapshots[0] == done.epoch.recent_snapshot,
        done.transcript.slot_replies.len() == shape.profile.recent_snapshot_slots,
        done.transcript.scanned.len() == shape.profile.recent_snapshot_slots,
        forall|i: int|
            0 <= i < shape.profile.recent_snapshot_slots ==> D::may_read(
                done.transcript.snapshots[i],
                i as usize,
                done.transcript.snapshots[i + 1],
                #[trigger] done.transcript.slot_replies[i],
            ),
        forall|i: int|
            0 <= i < shape.profile.recent_snapshot_slots
                && #[trigger] done.transcript.slot_replies[i] is Ok ==> done.transcript.scanned[i]
                == done.transcript.slot_replies[i]->Ok_0,
        forall|i: int|
            0 <= i < shape.profile.recent_snapshot_slots
                && #[trigger] done.transcript.slot_replies[i] is Err ==> D::is_dummy(
                done.transcript.scanned[i],
            ),
        done.transcript.snapshots.last().may_describe(
            done.transcript.scanned,
            done.transcript.scan,
        ),
        S::may_execute(
            done.epoch.engine,
            done.transcript.decoded->Ok_0.query,
            cursor,
            done.transcript.scanned,
            done.transcript.engine,
            done.transcript.execution,
        ),
        done.transcript.commit->Ok_0.decision is Fresh
            && done.transcript.inspection.continuation_use is Continue ==> cursor
            == done.transcript.inspection.continuation_use->cursor,
        !(done.transcript.inspection.continuation_use is Continue) || !(
        done.transcript.commit->Ok_0.decision is Fresh) ==> cursor == 0,
        done.codec.may_encode(
            done.transcript.decoder,
            done.transcript.response,
            done.transcript.material->Ok_0.response_nonce,
            done.transcript.encoder,
            done.transcript.encoded,
        ),
{
    done.readiness(shape.profile).cursor
}

/// What a completed round answers, told from what it found.
///
/// A failing store is answered as such. Otherwise the round is not ready where the runtime
/// was unhealthy, the request was for another checkpoint or a duplicate, the engine was not
/// ready, a slot could not be read, or the snapshot is not the pinned one. Otherwise a
/// refused or a spent token is answered as such, and anything else with what the engine
/// found.
pub proof fn answer_follows_from_what_was_found<
    Q: PrivateQueryCodec<E, RESPONSE_SLOTS, ENVELOPE_BYTES>,
    E,
    T: ContinuationTokenProtector,
    R: ContinuationReplayGuard,
    N: RoundMaterialSource,
    S: PrivateQueryEngine<D::Slot>,
    C,
    D: FrozenRecentSnapshot,
    const RESPONSE_SLOTS: usize,
    const ENVELOPE_BYTES: usize,
>(
    shape: CompiledQueryShape<RESPONSE_SLOTS, ENVELOPE_BYTES>,
    done: CompletedRound<Q, E, T, R, N, S, C, D, RESPONSE_SLOTS, ENVELOPE_BYTES>,
)
    requires
        done.completes(shape),
    ensures
        ({
            let found = done.transcript;
            let page = found.execution->Ok_0.page;
            let response = found.response;
            let decision = found.commit->Ok_0.decision;
            let slot_unread = exists|i: int|
                0 <= i < found.slot_replies.len() && #[trigger] found.slot_replies[i] is Err;
            let snapshot_kept = found.scan.slots == shape.profile.recent_snapshot_slots
                && found.scan.content_digest == done.epoch.recent_snapshot_content_digest
                && found.scan.binding_digest == done.epoch.recent_snapshot_binding_digest
                && found.scan.identity.finalized_height == done.epoch.checkpoint.height
                && found.scan.identity.finalized_hash_display
                == done.epoch.checkpoint.block_hash_display && found.scan.identity.schema_version
                == done.epoch.checkpoint.schema_version && found.scan.identity.projection_epoch
                == done.epoch.checkpoint.projection_epoch && found.scan.identity.key_epoch
                == done.epoch.checkpoint.key_epoch && (found.scan.identity.network_tag == 0
                <==> done.epoch.checkpoint.network is Mainnet) && (found.scan.identity.network_tag
                == 1 <==> done.epoch.checkpoint.network is Testnet) && (
            found.scan.identity.network_tag == 2 <==> done.epoch.checkpoint.network is Regtest);
            let not_ready = !done.healthy || found.decoded->Ok_0.checkpoint
                != done.epoch.checkpoint || decision is RequestDuplicate
                || found.inspection.continuation_use is ProjectionNotReady && decision is Fresh
                || page.outcome is ProjectionNotReady || slot_unread || !snapshot_kept;
            let token_refused = decision is ContinuationDuplicate
                || found.inspection.continuation_use is InvalidContinuation && decision is Fresh;
            &&& page.outcome is StoreFailure ==> response.page.outcome is StoreFailure
            &&& !(page.outcome is StoreFailure) && not_ready
                ==> response.page.outcome is ProjectionNotReady
            &&& !(page.outcome is StoreFailure) && !not_ready && token_refused
                ==> response.page.outcome is InvalidContinuation
            &&& !(page.outcome is StoreFailure) && !not_ready && !token_refused
                ==> response.page.outcome == page.outcome
            &&& done.healthy_after <==> done.healthy && !(page.outcome is StoreFailure) && !(
            page.outcome is ProjectionNotReady) && !slot_unread && snapshot_kept
            &&& response.checkpoint == done.epoch.checkpoint
            &&& response.page.outcome is StoreFailure || response.page.outcome is ProjectionNotReady
                || response.page.outcome is InvalidContinuation ==> response.page.slots@.len()
                == RESPONSE_SLOTS && forall|i: int|
                0 <= i < RESPONSE_SLOTS ==> !((#[trigger] response.page.slots@[i]) is Occupied)
            &&& response.page.outcome is Complete || response.page.outcome is ResultBudgetExceeded
                || response.page.outcome is InvalidDomain || response.page.outcome is Unclassified
                ==> response.page.slots@ == page.slots@
            &&& response.has_more <==> response.page.outcome is ResultBudgetExceeded
            &&& response.has_more ==> response.continuation == Some(found.issued->Ok_0)
            &&& !response.has_more ==> response.continuation is None
        }),
{
}

/// What is handed on of a completed round is its own: the envelope that its response was
/// encoded to, the material that was drawn for it, its replay authority, and a schedule of
/// one frame each way at the profile's width and of the profile's reads.
pub proof fn completed_round_is_handed_on_whole<
    Q: PrivateQueryCodec<E, RESPONSE_SLOTS, ENVELOPE_BYTES>,
    E,
    T: ContinuationTokenProtector,
    R: ContinuationReplayGuard,
    N: RoundMaterialSource,
    S: PrivateQueryEngine<D::Slot>,
    C,
    D: FrozenRecentSnapshot,
    const RESPONSE_SLOTS: usize,
    const ENVELOPE_BYTES: usize,
>(
    shape: CompiledQueryShape<RESPONSE_SLOTS, ENVELOPE_BYTES>,
    done: CompletedRound<Q, E, T, R, N, S, C, D, RESPONSE_SLOTS, ENVELOPE_BYTES>,
)
    requires
        done.completes(shape),
    ensures
        done.round.envelope == done.transcript.encoded->Ok_0,
        done.round.now_unix_seconds == done.transcript.material->Ok_0.now_unix_seconds,
        done.round.response_nonce == done.transcript.material->Ok_0.response_nonce,
        done.round.token_nonce == done.transcript.material->Ok_0.token_nonce,
        done.round.security_round == done.transcript.material->Ok_0.security_round,
        done.round.reservation_authority == done.transcript.material->Ok_0.reservation_authority,
        done.round.replay_commit_authority == done.transcript.commit->Ok_0.authority,
        done.round.trace.runtime_phases == 10,
        done.round.trace.store_reads == shape.profile.store_reads,
        done.round.trace.recent_snapshot_reads == shape.profile.recent_snapshot_slots,
        done.round.trace.replay_reads == 1,
        done.round.trace.replay_writes == 1,
        done.round.trace.request_frames == 1,
        done.round.trace.response_frames == 1,
        done.round.trace.request_bytes == shape.profile.envelope_bytes,
        done.round.trace.response_bytes == shape.profile.envelope_bytes,
        done.round.claim().security_round == done.round.security_round,
        done.round.claim().reservation_authority == done.round.reservation_authority,
        done.round.claim().replay_commit_authority == done.round.replay_commit_authority,
        done.round.claim().now_unix_seconds == done.round.now_unix_seconds,
        done.round.claim().response_nonce == done.round.response_nonce,
        done.round.claim().token_nonce == done.round.token_nonce,
{
}

/// A round is completed exactly where every provider did its part: the request decoded,
/// material was drawn, the expiry and the positions have numbers, there is a context for the
/// token, the replay was committed, the token was judged and issued, its cursor has a
/// number, the engine ran and made the profile's reads, and the response was encoded.
///
/// A round that is not completed leaves the runtime stopped, unless nothing but the decoding
/// of the request failed and its protection was there.
pub proof fn round_is_completed_where_every_provider_did_its_part<
    Q: PrivateQueryCodec<E, RESPONSE_SLOTS, ENVELOPE_BYTES>,
    E,
    T: ContinuationTokenProtector,
    R: ContinuationReplayGuard,
    N: RoundMaterialSource,
    S: PrivateQueryEngine<D::Slot>,
    C,
    D: FrozenRecentSnapshot,
    const RESPONSE_SLOTS: usize,
    const ENVELOPE_BYTES: usize,
>(
    shape: CompiledQueryShape<RESPONSE_SLOTS, ENVELOPE_BYTES>,
    codec: Q,
    security: ActiveSecurityLease<E, T, R, N>,
    epoch: PrivateQueryRuntimeEpoch<S, C, D>,
    envelope: [u8; ENVELOPE_BYTES],
    healthy: bool,
    found: RoundTranscript<E, T, R, N, S, D, ENVELOPE_BYTES>,
    healthy_after: bool,
    result: Result<EncodedRuntimeRound<ENVELOPE_BYTES>, UniformExternalFailure>,
)
    requires
        found.ends(shape, codec, security, epoch, envelope, healthy, healthy_after, result),
    ensures
        result is Ok <==> {
            &&& found.decoded is Ok
            &&& found.material is Ok
            &&& found.material->Ok_0.now_unix_seconds + shape.profile.continuation_ttl_seconds
                <= u64::MAX
            &&& shape.profile.store_reads + shape.profile.recent_snapshot_slots <= usize::MAX
            &&& found.context is Ok
            &&& found.commit is Ok
            &&& !(found.inspection.continuation_use is ProtectionUnavailable)
            &&& found.inspection.continuation_use is Continue && found.commit->Ok_0.decision is Fresh
                ==> found.inspection.continuation_use->cursor <= usize::MAX
            &&& found.execution is Ok
            &&& found.execution->Ok_0.store_reads == shape.profile.store_reads
            &&& found.issued is Ok
            &&& found.encoded is Ok
        },
        result is Err && found.decoded is Ok ==> !healthy_after,
        found.decoded matches Err(error) ==> (healthy_after <==> healthy && !(
        error is ProtectionUnavailable)),
{
}

/// What a round leaves of its lease and its epoch. A provider that the round reached is as
/// its last reply left it; one that it did not reach is as it was.
pub proof fn round_leaves_what_it_did_not_reach<
    Q: PrivateQueryCodec<E, RESPONSE_SLOTS, ENVELOPE_BYTES>,
    E,
    T: ContinuationTokenProtector,
    R: ContinuationReplayGuard,
    N: RoundMaterialSource,
    S: PrivateQueryEngine<D::Slot>,
    C,
    D: FrozenRecentSnapshot,
    const RESPONSE_SLOTS: usize,
    const ENVELOPE_BYTES: usize,
>(
    shape: CompiledQueryShape<RESPONSE_SLOTS, ENVELOPE_BYTES>,
    found: RoundTranscript<E, T, R, N, S, D, ENVELOPE_BYTES>,
    security: ActiveSecurityLease<E, T, R, N>,
    epoch: PrivateQueryRuntimeEpoch<S, C, D>,
    security_after: ActiveSecurityLease<E, T, R, N>,
    epoch_after: PrivateQueryRuntimeEpoch<S, C, D>,
)
    requires
        found.leaves_lease(shape.profile, security, security_after),
        found.leaves_epoch(shape.profile, epoch, epoch_after),
    ensures
        ({
            let planned = found.decoded is Ok && found.material is Ok
                && found.material->Ok_0.now_unix_seconds + shape.profile.continuation_ttl_seconds
                <= u64::MAX && shape.profile.store_reads + shape.profile.recent_snapshot_slots
                <= usize::MAX && found.context is Ok;
            let started = planned && (found.inspection.continuation_use is Continue
                && found.commit is Ok && found.commit->Ok_0.decision is Fresh
                ==> found.inspection.continuation_use->cursor <= usize::MAX);
            let executed = started && found.execution is Ok;
            &&& found.decoded is Err ==> security_after.material_source == security.material_source
            &&& found.decoded is Ok ==> security_after.material_source == found.source
            &&& !planned ==> security_after.token_protector == security.token_protector
                && security_after.replay_guard == security.replay_guard
            &&& planned ==> security_after.replay_guard == found.guard
            &&& planned && !executed ==> security_after.token_protector == found.inspector
            &&& executed ==> security_after.token_protector == found.issuer
            &&& executed ==> security_after.envelope_protector == found.encoder
            &&& !executed ==> security_after.envelope_protector == found.decoder
            &&& started ==> epoch_after.engine == found.engine && epoch_after.recent_snapshot
                == found.snapshots.last()
            &&& !started ==> epoch_after.engine == epoch.engine && epoch_after.recent_snapshot
                == epoch.recent_snapshot
        }),
{
}

/// A response is released exactly where it was encoded, the serving epoch was observed to
/// be the pinned one and still published, the security epoch was active, and both
/// authorities were of the round's own capture in that epoch. What is released is what was
/// encoded; where an encoded response is withheld, the runtime stops.
pub proof fn response_is_released_where_both_epochs_are_current<
    Q: PrivateQueryCodec<E, RESPONSE_SLOTS, ENVELOPE_BYTES>,
    E,
    T: ContinuationTokenProtector,
    R: ContinuationReplayGuard,
    N: RoundMaterialSource,
    S: PrivateQueryEngine<D::Slot>,
    C: ServingEpochCurrentness,
    D: FrozenRecentSnapshot,
    const RESPONSE_SLOTS: usize,
    const ENVELOPE_BYTES: usize,
>(
    shape: CompiledQueryShape<RESPONSE_SLOTS, ENVELOPE_BYTES>,
    codec: Q,
    security: ActiveSecurityLease<E, T, R, N>,
    epoch: PrivateQueryRuntimeEpoch<S, C, D>,
    envelope: [u8; ENVELOPE_BYTES],
    healthy: bool,
    transcript: RoundTranscript<E, T, R, N, S, D, ENVELOPE_BYTES>,
    healthy_encoded: bool,
    encoded: Result<EncodedRuntimeRound<ENVELOPE_BYTES>, UniformExternalFailure>,
    check: ServingEpochTranscript<C>,
    currentness_after: C,
    observed: Result<(), ServingEpochUnavailable>,
    security_after: ActiveSecurityLease<E, T, R, N>,
    healthy_after: bool,
    result: Result<RuntimeRound<ENVELOPE_BYTES>, UniformExternalFailure>,
)
    requires
        crate::runtime::handled(
            shape,
            codec,
            security,
            epoch,
            envelope,
            healthy,
            transcript,
            healthy_encoded,
            encoded,
            check,
            currentness_after,
            observed,
            security_after,
            healthy_after,
            result,
        ),
    ensures
        encoded is Err ==> result is Err && healthy_after == healthy_encoded && currentness_after
            == epoch.serving_epoch.currentness,
        encoded matches Ok(round) ==> {
            &&& C::may_observe(epoch.serving_epoch.currentness, check.observer, check.observed)
            &&& result is Ok <==> {
                &&& check.observed is Ok
                &&& check.observed->Ok_0 == epoch.serving_epoch.pinned
                &&& check.published
                &&& security.currentness.available
                &&& security.currentness.active == Some(security.security_epoch_tag)
                &&& round.security_round.epoch == security.security_epoch_tag
                &&& round.reservation_authority.round == round.security_round
                &&& round.reservation_authority.now_unix_seconds == round.now_unix_seconds
                &&& round.reservation_authority.response_nonce == round.response_nonce
                &&& round.reservation_authority.token_nonce == round.token_nonce
                &&& round.replay_commit_authority.round == round.security_round
            }
            &&& check.observed is Ok && check.observed->Ok_0 == epoch.serving_epoch.pinned
                ==> C::may_be_published(check.observer, currentness_after, check.published)
            &&& result is Ok ==> result->Ok_0.envelope == round.envelope && result->Ok_0.trace
                == round.trace && healthy_after == healthy_encoded
            &&& result is Err ==> !healthy_after
        },
        security_after.profile_id == security.profile_id,
        security_after.security_epoch_tag == security.security_epoch_tag,
        security_after.session_binding == security.session_binding,
        security_after.replay_namespace == security.replay_namespace,
        security_after.currentness.active == security.currentness.active,
        security_after.currentness.available == security.currentness.available,
        encoded is Ok && observed is Ok && security.currentness.available
            && security.currentness.observations < usize::MAX
            ==> security_after.currentness.observations == security.currentness.observations + 1,
        encoded is Err || observed is Err || !security.currentness.available
            ==> security_after.currentness.observations == security.currentness.observations,
{
}

/// The opener refuses every token of the issuer that has expired, or that is of another
/// query, projection or profile or of no position of the scan, unless it is unavailable.
pub open spec fn refuses_unexpected_tokens_of<T: ContinuationTokenProtector>(
    issuer: T,
    opener: T,
) -> bool {
    forall|
        state: ContinuationState,
        context: ContinuationProtectionContext,
        issued: T,
        token: ContinuationToken,
        opening_context: ContinuationProtectionContext,
        expectation: ContinuationExpectation,
        namespace: ReplayNamespace,
        request_nonce: [u8; ENVELOPE_NONCE_BYTES],
        opened: T,
        inspection: crate::continuation::ContinuationInspection,
    |
        #![trigger T::may_issue(issuer, state, context, issued, Ok(token)), T::may_inspect(opener, Some(token), opening_context, expectation, namespace, request_nonce, opened, inspection)]
        T::may_issue(issuer, state, context, issued, Ok(token)) && T::may_inspect(
            opener,
            Some(token),
            opening_context,
            expectation,
            namespace,
            request_nonce,
            opened,
            inspection,
        ) && (state.expires_at_unix_seconds <= expectation.now_unix_seconds || state.query_digest
            != expectation.query_digest || state.projection_epoch != expectation.projection_epoch
            || state.profile_id != expectation.profile_id || state.cursor
            >= expectation.cursor_limit) ==> inspection.continuation_use is ProtectionUnavailable
            || inspection.continuation_use is InvalidContinuation
}

/// The token of a first page is continued as long as the profile's lifetime has not passed
/// since the second that the first page was made in: the scan goes on where that page
/// stopped, and the next token still expires with the first page's.
pub proof fn first_token_is_continued_for_its_lifetime<
    Q: PrivateQueryCodec<E, RESPONSE_SLOTS, ENVELOPE_BYTES>,
    E,
    T: ContinuationTokenProtector,
    R: ContinuationReplayGuard,
    N: RoundMaterialSource,
    S: PrivateQueryEngine<D::Slot>,
    C,
    D: FrozenRecentSnapshot,
    const RESPONSE_SLOTS: usize,
    const ENVELOPE_BYTES: usize,
>(
    shape: CompiledQueryShape<RESPONSE_SLOTS, ENVELOPE_BYTES>,
    first: CompletedRound<Q, E, T, R, N, S, C, D, RESPONSE_SLOTS, ENVELOPE_BYTES>,
    later: CompletedRound<Q, E, T, R, N, S, C, D, RESPONSE_SLOTS, ENVELOPE_BYTES>,
)
    requires
        first.completes(shape),
        later.completes(shape),
        first.transcript.inspection.continuation_use is Initial,
        first.transcript.response.continuation is Some,
        first.transcript.execution->Ok_0.next_cursor matches Some(cursor) && 0 < cursor
            < shape.profile.store_reads + shape.profile.recent_snapshot_slots,
        later.transcript.decoded->Ok_0.continuation == first.transcript.response.continuation,
        later.transcript.commit->Ok_0.decision is Fresh,
        later.asks_the_same(first),
        crate::paging_laws::opens_tokens_of(
            first.transcript.inspector,
            later.security.token_protector,
        ),
        later.transcript.material->Ok_0.now_unix_seconds
            < first.transcript.material->Ok_0.now_unix_seconds
            + shape.profile.continuation_ttl_seconds,
    ensures
        later.transcript.inspection.continuation_use is Continue,
        later.transcript.inspection.continuation_use->cursor
            == first.transcript.execution->Ok_0.next_cursor->0,
        later.transcript.inspection.continuation_use->expires_at_unix_seconds
            == first.transcript.material->Ok_0.now_unix_seconds
            + shape.profile.continuation_ttl_seconds,
        S::may_execute(
            later.epoch.engine,
            first.transcript.decoded->Ok_0.query,
            first.transcript.execution->Ok_0.next_cursor->0,
            later.transcript.scanned,
            later.transcript.engine,
            later.transcript.execution,
        ),
{
    let state = token_says_when_its_query_expires(shape, first);
    let expectation = token_is_judged_by_the_round_it_is_presented_in(shape, later);
    let (one, two) = (first.transcript, later.transcript);
    let cursor = providers_are_asked_for_the_request(shape, later);
    assert(T::may_issue(
        one.inspector,
        state,
        one.context->Ok_0,
        one.issuer,
        Ok(one.issued->Ok_0),
    ));
    assert(T::may_inspect(
        later.security.token_protector,
        Some(one.issued->Ok_0),
        two.context->Ok_0,
        expectation,
        later.security.replay_namespace,
        two.decoded->Ok_0.nonce,
        two.inspector,
        two.inspection,
    ));
    assert(one.query_digest == two.query_digest);
    assert(first.codec.may_give_context(first.epoch.checkpoint, Ok(one.context->Ok_0)));
    assert(later.codec.may_give_context(first.epoch.checkpoint, Ok(two.context->Ok_0)));
    assert(crate::paging_laws::token_is_expected(state, expectation));
}

/// The token of a first page is no longer continued once the profile's lifetime has passed
/// since the second that the first page was made in: the answer says nothing but that the
/// continuation, the projection or the store would not do.
pub proof fn first_token_is_refused_after_its_lifetime<
    Q: PrivateQueryCodec<E, RESPONSE_SLOTS, ENVELOPE_BYTES>,
    E,
    T: ContinuationTokenProtector,
    R: ContinuationReplayGuard,
    N: RoundMaterialSource,
    S: PrivateQueryEngine<D::Slot>,
    C,
    D: FrozenRecentSnapshot,
    const RESPONSE_SLOTS: usize,
    const ENVELOPE_BYTES: usize,
>(
    shape: CompiledQueryShape<RESPONSE_SLOTS, ENVELOPE_BYTES>,
    first: CompletedRound<Q, E, T, R, N, S, C, D, RESPONSE_SLOTS, ENVELOPE_BYTES>,
    later: CompletedRound<Q, E, T, R, N, S, C, D, RESPONSE_SLOTS, ENVELOPE_BYTES>,
)
    requires
        first.completes(shape),
        later.completes(shape),
        first.transcript.inspection.continuation_use is Initial,
        first.transcript.response.continuation is Some,
        later.transcript.decoded->Ok_0.continuation == first.transcript.response.continuation,
        refuses_unexpected_tokens_of(first.transcript.inspector, later.security.token_protector),
        later.transcript.material->Ok_0.now_unix_seconds
            >= first.transcript.material->Ok_0.now_unix_seconds
            + shape.profile.continuation_ttl_seconds,
    ensures
        later.transcript.inspection.continuation_use is InvalidContinuation,
        forall|i: int|
            0 <= i < later.transcript.response.page.slots@.len() ==> !((
            #[trigger] later.transcript.response.page.slots@[i]) is Occupied),
        later.transcript.response.page.outcome is StoreFailure
            || later.transcript.response.page.outcome is ProjectionNotReady
            || later.transcript.response.page.outcome is InvalidContinuation,
        later.transcript.response.continuation is None,
{
    let state = token_says_when_its_query_expires(shape, first);
    let expectation = token_is_judged_by_the_round_it_is_presented_in(shape, later);
    let (one, two) = (first.transcript, later.transcript);
    assert(T::may_issue(
        one.inspector,
        state,
        one.context->Ok_0,
        one.issuer,
        Ok(one.issued->Ok_0),
    ));
    assert(T::may_inspect(
        later.security.token_protector,
        Some(one.issued->Ok_0),
        two.context->Ok_0,
        expectation,
        later.security.replay_namespace,
        two.decoded->Ok_0.nonce,
        two.inspector,
        two.inspection,
    ));
    answer_follows_from_what_was_found(shape, later);
}

} // verus!
