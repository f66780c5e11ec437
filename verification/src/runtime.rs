//! Listener-free query runtime over injected providers.
//!
//! A completed envelope is withheld unless its pinned serving epoch and its
//! security epoch are still current after response encoding.

use crate::bytes::arrays_equal;
use crate::continuation::ContinuationInspection;
use crate::continuation::ContinuationReplayGuard;
use crate::failure::UniformExternalFailure;
use crate::profile::AccessBudget;
use crate::profile::CompiledQueryShape;
use crate::profile::PrivacyProfile;
use crate::protection::ProtectionUnavailable;
use crate::providers::ContinuationTokenProtector;
use crate::providers::EngineUnavailable;
use crate::providers::FrozenRecentSnapshot;
use crate::providers::PrivateQueryCodec;
use crate::providers::PrivateQueryEngine;
use crate::providers::ServingEpochCurrentness;
use crate::providers::PinnedServingEpoch;
use crate::providers::ServingEpochTranscript;
use crate::providers::ServingEpochUnavailable;
use crate::providers::SlotUnreadable;
use crate::records::FinalizedRuntimeBuildError;
use crate::records::PrivateQueryCheckpoint;
use crate::records::QueryOutcome;
use crate::records::recent_snapshot_identity;
use crate::round::CONTINUATION_TOKEN_BYTES;
use crate::round::ContinuationProtectionContext;
use crate::round::ContinuationToken;
use crate::round::DecodedRequest;
use crate::round::EngineExecution;
use crate::round::InnerCodecError;
use crate::round::PrivateQueryResponse;
use crate::round::RoundFacts;
use crate::round::RoundReadiness;
use crate::round::SnapshotScan;
use crate::round::compose_response;
use crate::round::continuation_expectation;
use crate::round::degrades;
use crate::round::issue_state;
use crate::round::plan_round;
use crate::round::protected_outcome;
use crate::round::select_readiness;
use crate::round::snapshot_is_unchanged;
use crate::runtime_security::ENVELOPE_NONCE_BYTES;
use crate::runtime_security::ReplayCommitAuthority;
use crate::runtime_security::ReplayCommitResult;
use crate::runtime_security::ReplayCommitUnavailable;
use crate::runtime_security::RoundReservationAuthority;
use crate::runtime_security::SecurityRoundCapture;
use crate::security_owner::ActiveSecurityLease;
use crate::security_owner::InProcessSecurityEpochCurrentness;
use crate::security_owner::RoundMaterial;
use crate::security_owner::RoundMaterialSource;
use crate::security_owner::RoundMaterialUnavailable;
use crate::security_owner::RoundReleaseClaim;
use crate::security_owner::SecurityEpochReleaseWitness;
use crate::serving_epoch::ServingEpochLease;
use crate::trace::AccessTrace;
use crate::trace::CompletionShape;
use crate::trace::RuntimePhase;
use crate::trace::TraceError;
use crate::trace::TraceRecorder;
use vstd::prelude::*;

verus! {

/// One encoded response retaining both authorities.
#[derive(Clone, Copy, PartialEq, Eq)]
pub struct EncodedRuntimeRound<const ENVELOPE_BYTES: usize> {
    pub envelope: [u8; ENVELOPE_BYTES],
    pub trace: AccessTrace,
    pub now_unix_seconds: u64,
    pub response_nonce: [u8; ENVELOPE_NONCE_BYTES],
    pub token_nonce: [u8; ENVELOPE_NONCE_BYTES],
    pub security_round: SecurityRoundCapture,
    pub reservation_authority: RoundReservationAuthority,
    pub replay_commit_authority: ReplayCommitAuthority,
}

impl<const ENVELOPE_BYTES: usize> EncodedRuntimeRound<ENVELOPE_BYTES> {
    /// What a release of this round must match.
    pub open spec fn claim(self) -> RoundReleaseClaim {
        RoundReleaseClaim {
            security_round: self.security_round,
            reservation_authority: self.reservation_authority,
            replay_commit_authority: self.replay_commit_authority,
            now_unix_seconds: self.now_unix_seconds,
            response_nonce: self.response_nonce,
            token_nonce: self.token_nonce,
        }
    }

    pub fn release_claim(&self) -> (claim: RoundReleaseClaim)
        ensures
            claim == self.claim(),
    {
        RoundReleaseClaim {
            security_round: self.security_round,
            reservation_authority: self.reservation_authority,
            replay_commit_authority: self.replay_commit_authority,
            now_unix_seconds: self.now_unix_seconds,
            response_nonce: self.response_nonce,
            token_nonce: self.token_nonce,
        }
    }

    pub fn into_released(self) -> (round: RuntimeRound<ENVELOPE_BYTES>)
        ensures
            round == (RuntimeRound { envelope: self.envelope, trace: self.trace }),
    {
        RuntimeRound { envelope: self.envelope, trace: self.trace }
    }
}

/// One completed protected envelope authorized for caller release.
#[derive(Clone, Copy, PartialEq, Eq)]
pub struct RuntimeRound<const ENVELOPE_BYTES: usize> {
    pub envelope: [u8; ENVELOPE_BYTES],
    pub trace: AccessTrace,
}

impl<const ENVELOPE_BYTES: usize> RuntimeRound<ENVELOPE_BYTES> {
    pub fn envelope(&self) -> (envelope: &[u8; ENVELOPE_BYTES])
        ensures
            *envelope == self.envelope,
    {
        &self.envelope
    }

    pub fn trace(&self) -> (trace: &AccessTrace)
        ensures
            *trace == self.trace,
    {
        &self.trace
    }
}

/// Epoch-scoped query state, replaced only as a whole.
pub struct PrivateQueryRuntimeEpoch<S, C, D> {
    pub engine: S,
    pub recent_snapshot: D,
    pub recent_snapshot_content_digest: [u8; 32],
    pub recent_snapshot_binding_digest: [u8; 32],
    pub serving_epoch: PinnedServingEpoch<C>,
    pub checkpoint: PrivateQueryCheckpoint,
}

/// A snapshot of this shape can serve a checkpoint under a profile.
pub open spec fn snapshot_fits(
    profile: PrivacyProfile,
    checkpoint: PrivateQueryCheckpoint,
    frozen: SnapshotScan,
) -> bool {
    &&& frozen.slots == profile.recent_snapshot_slots
    &&& frozen.identity == crate::records::identity_of(checkpoint)
}

/// Whether a snapshot of this shape can serve a checkpoint under a profile.
pub fn fits_snapshot(
    profile: &PrivacyProfile,
    checkpoint: &PrivateQueryCheckpoint,
    frozen: &SnapshotScan,
) -> (fits: bool)
    ensures
        fits == snapshot_fits(*profile, *checkpoint, *frozen),
{
    let identity = recent_snapshot_identity(checkpoint);
    frozen.slots == profile.recent_snapshot_slots && frozen.identity.same(&identity)
}

/// What a lease's snapshot and the engine over its store replied when an epoch was built.
pub struct EpochReplies<S> {
    pub frozen: SnapshotScan,
    pub opened: Result<S, EngineUnavailable>,
    pub store_width: usize,
}

/// Everything that a new epoch is made of, and whether it is accepted: the snapshot is the
/// lease's, and the engine is opened over the lease's store for the profile.
pub open spec fn epoch_is_built<S: PrivateQueryEngine<D::Slot>, C, D: FrozenRecentSnapshot>(
    serving_epoch: ServingEpochLease<S::Store, C, D>,
    profile: PrivacyProfile,
    checkpoint: PrivateQueryCheckpoint,
    replies: EpochReplies<S>,
    result: Result<PrivateQueryRuntimeEpoch<S, C, D>, UniformExternalFailure>,
) -> bool {
    let frozen = replies.frozen;
    &&& serving_epoch.recent_snapshot().may_be_frozen_as(frozen)
    &&& if snapshot_fits(profile, checkpoint, frozen) {
        &&& S::may_open(serving_epoch.finalized_store(), profile, replies.opened)
        &&& match replies.opened {
            Ok(engine) => {
                &&& engine.may_have_width(replies.store_width)
                &&& result == if replies.store_width == profile.store_reads {
                    Ok(
                        PrivateQueryRuntimeEpoch {
                            engine,
                            recent_snapshot: serving_epoch.recent_snapshot(),
                            recent_snapshot_content_digest: frozen.content_digest,
                            recent_snapshot_binding_digest: frozen.binding_digest,
                            serving_epoch: serving_epoch.pinned(),
                            checkpoint,
                        },
                    )
                } else {
                    Err(UniformExternalFailure)
                }
            },
            Err(_) => result == Err::<PrivateQueryRuntimeEpoch<S, C, D>, UniformExternalFailure>(
                UniformExternalFailure,
            ),
        }
    } else {
        result == Err::<PrivateQueryRuntimeEpoch<S, C, D>, UniformExternalFailure>(
            UniformExternalFailure,
        )
    }
}

impl<S: PrivateQueryEngine<D::Slot>, C, D: FrozenRecentSnapshot> PrivateQueryRuntimeEpoch<S, C, D> {
    /// Accepts a snapshot of the profile's shape and the checkpoint's identity, and a
    /// store over which an engine opens for the profile and reads as wide as it.
    pub fn new<const RESPONSE_SLOTS: usize, const ENVELOPE_BYTES: usize>(
        serving_epoch: ServingEpochLease<S::Store, C, D>,
        shape: &CompiledQueryShape<RESPONSE_SLOTS, ENVELOPE_BYTES>,
        checkpoint: PrivateQueryCheckpoint,
    ) -> (result: Result<Self, UniformExternalFailure>)
        ensures
            exists|replies: EpochReplies<S>| #[trigger]
                epoch_is_built(serving_epoch, shape.profile, checkpoint, replies, result),
    {
        let ghost lease = serving_epoch;
        let ghost mut replies: EpochReplies<S> = arbitrary();
        let (serving_epoch, recent_snapshot, finalized_store) = serving_epoch.into_parts();
        let frozen = recent_snapshot.frozen();
        proof {
            replies = EpochReplies { frozen, ..replies };
        }
        if !fits_snapshot(shape.profile(), &checkpoint, &frozen) {
            assert(epoch_is_built(
                lease,
                shape.profile,
                checkpoint,
                replies,
                Err(UniformExternalFailure),
            ));
            return Err(UniformExternalFailure);
        }
        let opened = S::open(finalized_store, shape.profile());
        proof {
            replies = EpochReplies { opened, ..replies };
        }
        let engine = match opened {
            Ok(engine) => engine,
            Err(_) => {
                assert(epoch_is_built(
                    lease,
                    shape.profile,
                    checkpoint,
                    replies,
                    Err(UniformExternalFailure),
                ));
                return Err(UniformExternalFailure);
            },
        };
        let store_width: usize = engine.slots_per_key();
        proof {
            replies = EpochReplies { store_width, ..replies };
        }
        if store_width != shape.profile().store_reads() {
            assert(epoch_is_built(
                lease,
                shape.profile,
                checkpoint,
                replies,
                Err(UniformExternalFailure),
            ));
            return Err(UniformExternalFailure);
        }
        let epoch = PrivateQueryRuntimeEpoch {
            engine,
            recent_snapshot,
            recent_snapshot_content_digest: frozen.content_digest,
            recent_snapshot_binding_digest: frozen.binding_digest,
            serving_epoch,
            checkpoint,
        };
        assert(epoch_is_built(lease, shape.profile, checkpoint, replies, Ok(epoch)));
        Ok(epoch)
    }
}

/// Private synchronous adapter for one process-lifetime protection context.
pub struct PrivateQueryRuntime<
    S,
    Q,
    E,
    T,
    R,
    N,
    C,
    D,
    const RESPONSE_SLOTS: usize,
    const ENVELOPE_BYTES: usize,
> {
    pub shape: CompiledQueryShape<RESPONSE_SLOTS, ENVELOPE_BYTES>,
    pub codec: Q,
    pub security: ActiveSecurityLease<E, T, R, N>,
    pub epoch: Option<PrivateQueryRuntimeEpoch<S, C, D>>,
    pub healthy: bool,
}

/// Every reply of every provider in one round, in the order of the calls.
pub struct RoundTranscript<
    E,
    T,
    R,
    N,
    S,
    D: FrozenRecentSnapshot,
    const ENVELOPE_BYTES: usize,
> {
    pub decoder: E,
    pub decoded: Result<DecodedRequest, InnerCodecError>,
    pub source: N,
    pub material: Result<RoundMaterial, RoundMaterialUnavailable>,
    pub query_digest: [u8; 32],
    pub context: Result<ContinuationProtectionContext, InnerCodecError>,
    pub inspector: T,
    pub inspection: ContinuationInspection,
    pub guard: R,
    pub commit: Result<ReplayCommitResult, ReplayCommitUnavailable>,
    pub snapshots: Seq<D>,
    pub slot_replies: Seq<Result<D::Slot, SlotUnreadable>>,
    pub scanned: Seq<D::Slot>,
    pub scan: SnapshotScan,
    pub engine: S,
    pub execution: Result<EngineExecution, EngineUnavailable>,
    pub issuer: T,
    pub issued: Result<ContinuationToken, ProtectionUnavailable>,
    pub token: ContinuationToken,
    pub response: PrivateQueryResponse,
    pub encoder: E,
    pub encoded: Result<[u8; ENVELOPE_BYTES], InnerCodecError>,
}

/// How far a round got.
pub enum RoundProgress {
    /// The request was not decoded.
    Refused,
    /// Material was asked for, and nothing after it.
    Drawn,
    /// The replay transaction was asked for, and nothing after it.
    Committed,
    /// The snapshot was read and the engine asked, and nothing after it.
    Executed,
    /// The response was encoded.
    Encoded,
}

/// Every slot of a snapshot is read once, in order; an unreadable one stands for nothing.
pub open spec fn scan_runs<D: FrozenRecentSnapshot>(
    before: D,
    slots: usize,
    snapshots: Seq<D>,
    slot_replies: Seq<Result<D::Slot, SlotUnreadable>>,
    scanned: Seq<D::Slot>,
) -> bool {
    &&& snapshots.len() == slots + 1
    &&& slot_replies.len() == slots
    &&& scanned.len() == slots
    &&& snapshots[0] == before
    &&& forall|i: int|
        0 <= i < slots ==> D::may_read(
            snapshots[i],
            i as usize,
            snapshots[i + 1],
            #[trigger] slot_replies[i],
        )
    &&& forall|i: int|
        0 <= i < slots ==> match #[trigger] slot_replies[i] {
            Ok(slot) => scanned[i] == slot,
            Err(_) => D::is_dummy(scanned[i]),
        }
}

/// Some slot could not be read.
pub open spec fn some_slot_unreadable<Slot>(
    slot_replies: Seq<Result<Slot, SlotUnreadable>>,
) -> bool {
    exists|i: int| 0 <= i < slot_replies.len() && #[trigger] slot_replies[i] is Err
}

/// The round failed, and the runtime serves no further request.
pub open spec fn round_latched<const ENVELOPE_BYTES: usize>(
    healthy_after: bool,
    result: Result<EncodedRuntimeRound<ENVELOPE_BYTES>, UniformExternalFailure>,
) -> bool {
    result is Err && !healthy_after
}

/// Facts of a round whose engine has run.
pub open spec fn facts_of(
    healthy: bool,
    checkpoint_matches: bool,
    commit: Result<ReplayCommitResult, ReplayCommitUnavailable>,
    readiness: RoundReadiness,
    recent_snapshot_failed: bool,
    engine_outcome: QueryOutcome,
) -> RoundFacts {
    RoundFacts {
        was_healthy: healthy,
        checkpoint_matches,
        replay_unavailable: commit is Err,
        invalid_continuation: readiness.invalid_continuation,
        request_duplicate: readiness.request_duplicate,
        token_protection_unavailable: readiness.token_protection_unavailable,
        recent_snapshot_failed,
        engine_outcome,
    }
}

/// Work that one round of a profile does.
pub open spec fn round_budget(profile: PrivacyProfile) -> AccessBudget {
    AccessBudget {
        store_reads: profile.store_reads,
        recent_snapshot_reads: profile.recent_snapshot_slots,
        envelope_bytes: profile.envelope_bytes,
    }
}

impl<
    E,
    T: ContinuationTokenProtector,
    R: ContinuationReplayGuard,
    N: RoundMaterialSource,
    S: PrivateQueryEngine<D::Slot>,
    D: FrozenRecentSnapshot,
    const ENVELOPE_BYTES: usize,
> RoundTranscript<E, T, R, N, S, D, ENVELOPE_BYTES> {
    /// The recent snapshot could not be read as it was pinned.
    pub open spec fn recent_snapshot_failed<C>(
        self,
        profile: PrivacyProfile,
        epoch: PrivateQueryRuntimeEpoch<S, C, D>,
    ) -> bool {
        ||| some_slot_unreadable(self.slot_replies)
        ||| !crate::round::scan_matches(
            self.scan,
            profile.recent_snapshot_slots,
            epoch.checkpoint,
            epoch.recent_snapshot_content_digest,
            epoch.recent_snapshot_binding_digest,
        )
    }

    /// What the round found out about its request.
    pub open spec fn facts<C>(
        self,
        profile: PrivacyProfile,
        epoch: PrivateQueryRuntimeEpoch<S, C, D>,
        healthy: bool,
        request: DecodedRequest,
        readiness: RoundReadiness,
        execution: EngineExecution,
    ) -> RoundFacts {
        facts_of(
            healthy,
            request.checkpoint == epoch.checkpoint,
            self.commit,
            readiness,
            self.recent_snapshot_failed(profile, epoch),
            execution.page.outcome,
        )
    }

    /// How far the round got.
    pub open spec fn progress(self, profile: PrivacyProfile) -> RoundProgress {
        match (self.decoded, self.material) {
            (Err(_), _) => RoundProgress::Refused,
            (Ok(_), Err(_)) => RoundProgress::Drawn,
            (Ok(_), Ok(material)) => match crate::round::planned_round(
                profile,
                material.now_unix_seconds,
            ) {
                None => RoundProgress::Drawn,
                Some(plan) => if self.context is Err {
                    RoundProgress::Drawn
                } else if crate::round::readiness_of(
                    crate::continuation::replay_outcome(
                        self.inspection.continuation_use,
                        self.commit,
                    ).continuation_use,
                    plan.initial_expiry,
                ) is None {
                    RoundProgress::Committed
                } else if self.execution is Err {
                    RoundProgress::Executed
                } else {
                    RoundProgress::Encoded
                },
            },
        }
    }

    /// What the round leaves of the lease's providers: those that it reached are as
    /// their last reply left them, the others as they were.
    pub open spec fn leaves_lease(
        self,
        profile: PrivacyProfile,
        before: ActiveSecurityLease<E, T, R, N>,
        after: ActiveSecurityLease<E, T, R, N>,
    ) -> bool {
        let progress = self.progress(profile);
        &&& after.envelope_protector == if progress is Encoded {
            self.encoder
        } else {
            self.decoder
        }
        &&& after.material_source == if progress is Refused {
            before.material_source
        } else {
            self.source
        }
        &&& after.token_protector == match progress {
            RoundProgress::Refused | RoundProgress::Drawn => before.token_protector,
            RoundProgress::Committed | RoundProgress::Executed => self.inspector,
            RoundProgress::Encoded => self.issuer,
        }
        &&& after.replay_guard == match progress {
            RoundProgress::Refused | RoundProgress::Drawn => before.replay_guard,
            _ => self.guard,
        }
    }

    /// What the round leaves of the epoch: the store and the snapshot are as they were
    /// unless the round reached them.
    pub open spec fn leaves_epoch<C>(
        self,
        profile: PrivacyProfile,
        before: PrivateQueryRuntimeEpoch<S, C, D>,
        after: PrivateQueryRuntimeEpoch<S, C, D>,
    ) -> bool {
        match self.progress(profile) {
            RoundProgress::Executed | RoundProgress::Encoded => after.engine == self.engine
                && after.recent_snapshot == self.snapshots.last(),
            _ => after.engine == before.engine && after.recent_snapshot == before.recent_snapshot,
        }
    }

    /// How a round ends once its engine has run.
    ///
    /// The token is issued and the response encoded in any case. The round is
    /// handed on only if the token could be opened and issued, the replay
    /// transaction was committed, and the schedule is exactly the budgeted one.
    pub open spec fn ends_after_execution<
        Q: PrivateQueryCodec<E, RESPONSE_SLOTS, ENVELOPE_BYTES>,
        C,
        const RESPONSE_SLOTS: usize,
    >(
        self,
        shape: CompiledQueryShape<RESPONSE_SLOTS, ENVELOPE_BYTES>,
        codec: Q,
        epoch: PrivateQueryRuntimeEpoch<S, C, D>,
        healthy: bool,
        request: DecodedRequest,
        material: RoundMaterial,
        context: ContinuationProtectionContext,
        readiness: RoundReadiness,
        execution: EngineExecution,
        healthy_after: bool,
        result: Result<EncodedRuntimeRound<ENVELOPE_BYTES>, UniformExternalFailure>,
    ) -> bool {
        let facts = self.facts(shape.profile, epoch, healthy, request, readiness, execution);
        &&& T::may_issue(
            self.inspector,
            crate::round::issued_state(
                shape.profile,
                self.query_digest,
                epoch.checkpoint,
                execution.next_cursor,
                readiness.continuation_expiry,
                material.token_nonce,
            ),
            context,
            self.issuer,
            self.issued,
        )
        &&& match self.issued {
            Ok(token) => self.token == token,
            Err(_) => crate::bytes::is_zero(self.token.0@),
        }
        &&& crate::round::responds(
            epoch.checkpoint,
            execution.page,
            crate::round::reported_outcome(facts),
            RESPONSE_SLOTS,
            self.token,
            self.response,
        )
        &&& codec.may_encode(
            self.decoder,
            self.response,
            material.response_nonce,
            self.encoder,
            self.encoded,
        )
        &&& if self.encoded is Err || self.issued is Err || facts.replay_unavailable
            || facts.token_protection_unavailable || execution.store_reads
            != shape.profile.store_reads {
            round_latched(healthy_after, result)
        } else {
            &&& result == Ok::<EncodedRuntimeRound<ENVELOPE_BYTES>, UniformExternalFailure>(
                EncodedRuntimeRound {
                    envelope: self.encoded->Ok_0,
                    trace: crate::trace::budgeted_trace(round_budget(shape.profile)),
                    now_unix_seconds: material.now_unix_seconds,
                    response_nonce: material.response_nonce,
                    token_nonce: material.token_nonce,
                    security_round: material.security_round,
                    reservation_authority: material.reservation_authority,
                    replay_commit_authority: self.commit->Ok_0.authority,
                },
            )
            &&& healthy_after == (healthy && !crate::round::round_degrades(facts))
        }
    }

    /// How a round ends once its readiness is known.
    pub open spec fn ends_after_readiness<
        Q: PrivateQueryCodec<E, RESPONSE_SLOTS, ENVELOPE_BYTES>,
        C,
        const RESPONSE_SLOTS: usize,
    >(
        self,
        shape: CompiledQueryShape<RESPONSE_SLOTS, ENVELOPE_BYTES>,
        codec: Q,
        epoch: PrivateQueryRuntimeEpoch<S, C, D>,
        healthy: bool,
        request: DecodedRequest,
        material: RoundMaterial,
        context: ContinuationProtectionContext,
        readiness: RoundReadiness,
        healthy_after: bool,
        result: Result<EncodedRuntimeRound<ENVELOPE_BYTES>, UniformExternalFailure>,
    ) -> bool {
        &&& scan_runs(
            epoch.recent_snapshot,
            shape.profile.recent_snapshot_slots,
            self.snapshots,
            self.slot_replies,
            self.scanned,
        )
        &&& self.snapshots.last().may_describe(self.scanned, self.scan)
        &&& S::may_execute(
            epoch.engine,
            request.query,
            readiness.cursor,
            self.scanned,
            self.engine,
            self.execution,
        )
        &&& match self.execution {
            Err(_) => round_latched(healthy_after, result),
            Ok(execution) => self.ends_after_execution(
                shape,
                codec,
                epoch,
                healthy,
                request,
                material,
                context,
                readiness,
                execution,
                healthy_after,
                result,
            ),
        }
    }

    /// How a round ends once its material is drawn.
    pub open spec fn ends_after_material<
        Q: PrivateQueryCodec<E, RESPONSE_SLOTS, ENVELOPE_BYTES>,
        C,
        const RESPONSE_SLOTS: usize,
    >(
        self,
        shape: CompiledQueryShape<RESPONSE_SLOTS, ENVELOPE_BYTES>,
        codec: Q,
        security: ActiveSecurityLease<E, T, R, N>,
        epoch: PrivateQueryRuntimeEpoch<S, C, D>,
        healthy: bool,
        request: DecodedRequest,
        material: RoundMaterial,
        healthy_after: bool,
        result: Result<EncodedRuntimeRound<ENVELOPE_BYTES>, UniformExternalFailure>,
    ) -> bool {
        &&& codec.digests_to(
            request.query,
            epoch.recent_snapshot_binding_digest,
            self.query_digest,
        )
        &&& match crate::round::planned_round(shape.profile, material.now_unix_seconds) {
            None => round_latched(healthy_after, result),
            Some(plan) => {
                &&& codec.may_give_context(epoch.checkpoint, self.context)
                &&& match self.context {
                    Err(_) => round_latched(healthy_after, result),
                    Ok(context) => {
                        &&& T::may_inspect(
                            security.token_protector,
                            request.continuation,
                            context,
                            crate::round::expected_continuation(
                                shape.profile,
                                self.query_digest,
                                epoch.checkpoint,
                                material.now_unix_seconds,
                                plan.cursor_limit,
                            ),
                            security.replay_namespace,
                            request.nonce,
                            self.inspector,
                            self.inspection,
                        )
                        &&& R::may_commit(
                            security.replay_guard,
                            material.security_round,
                            self.inspection.request_key,
                            self.inspection.plan,
                            self.guard,
                            self.commit,
                        )
                        &&& match crate::round::readiness_of(
                            crate::continuation::replay_outcome(
                                self.inspection.continuation_use,
                                self.commit,
                            ).continuation_use,
                            plan.initial_expiry,
                        ) {
                            None => round_latched(healthy_after, result),
                            Some(readiness) => self.ends_after_readiness(
                                shape,
                                codec,
                                epoch,
                                healthy,
                                request,
                                material,
                                context,
                                readiness,
                                healthy_after,
                                result,
                            ),
                        }
                    },
                }
            },
        }
    }

    /// How a round ends for every reply of its providers.
    ///
    /// What each provider is handed is fixed by the request and by the replies
    /// before it. A request that does not decode is refused without latching,
    /// unless the protection itself was unavailable; any later failure latches.
    pub open spec fn ends<
        Q: PrivateQueryCodec<E, RESPONSE_SLOTS, ENVELOPE_BYTES>,
        C,
        const RESPONSE_SLOTS: usize,
    >(
        self,
        shape: CompiledQueryShape<RESPONSE_SLOTS, ENVELOPE_BYTES>,
        codec: Q,
        security: ActiveSecurityLease<E, T, R, N>,
        epoch: PrivateQueryRuntimeEpoch<S, C, D>,
        envelope: [u8; ENVELOPE_BYTES],
        healthy: bool,
        healthy_after: bool,
        result: Result<EncodedRuntimeRound<ENVELOPE_BYTES>, UniformExternalFailure>,
    ) -> bool {
        &&& codec.may_decode(security.envelope_protector, envelope, self.decoder, self.decoded)
        &&& match self.decoded {
            Err(error) => result is Err && healthy_after == (healthy
                && !(error is ProtectionUnavailable)),
            Ok(request) => {
                &&& N::may_draw(
                    security.material_source,
                    security.security_epoch_tag,
                    self.source,
                    self.material,
                )
                &&& match self.material {
                    Err(_) => round_latched(healthy_after, result),
                    Ok(material) => self.ends_after_material(
                        shape,
                        codec,
                        security,
                        epoch,
                        healthy,
                        request,
                        material,
                        healthy_after,
                        result,
                    ),
                }
            },
        }
    }
}

/// Reads every slot of the recent snapshot once, in order.
///
/// A slot that cannot be read stands for nothing, and is reported.
fn scan_recent_snapshot<D: FrozenRecentSnapshot>(
    snapshot: &mut D,
    slots: usize,
    trace: &mut TraceRecorder,
) -> (result: Result<
    (Vec<D::Slot>, bool, Ghost<Seq<D>>, Ghost<Seq<Result<D::Slot, SlotUnreadable>>>),
    TraceError,
>)
    requires
        old(trace).recent_snapshot_reads == 0,
        !old(trace).recent_snapshot_complete,
    ensures
        result matches Ok((scanned, failed, snapshots, slot_replies)) && scan_runs(
            *old(snapshot),
            slots,
            snapshots@,
            slot_replies@,
            scanned@,
        ) && snapshots@.last() == *final(snapshot) && failed == some_slot_unreadable(
            slot_replies@,
        ),
        *final(trace) == (TraceRecorder {
            recent_snapshot_reads: slots,
            recent_snapshot_complete: true,
            ..*old(trace)
        }),
{
    let mut scanned: Vec<D::Slot> = Vec::new();
    let mut failed = false;
    let ghost mut snapshots: Seq<D> = seq![*snapshot];
    let ghost mut slot_replies: Seq<Result<D::Slot, SlotUnreadable>> = Seq::empty();
    let mut ordinal: usize = 0;
    while ordinal < slots
        invariant
            ordinal <= slots,
            !old(trace).recent_snapshot_complete,
            *trace == (TraceRecorder { recent_snapshot_reads: ordinal, ..*old(trace) }),
            scan_runs(*old(snapshot), ordinal, snapshots, slot_replies, scanned@),
            snapshots.last() == *snapshot,
            failed == some_slot_unreadable(slot_replies),
        decreases slots - ordinal,
    {
        match trace.record_recent_snapshot_read(ordinal) {
            Ok(()) => {},
            Err(error) => {
                return Err(error);
            },
        }
        let ghost earlier = slot_replies;
        let reply = snapshot.read_slot(ordinal);
        proof {
            slot_replies = slot_replies.push(reply);
            snapshots = snapshots.push(*snapshot);
        }
        match reply {
            Ok(slot) => {
                scanned.push(slot);
                proof {
                    if failed {
                        let i = choose|i: int|
                            0 <= i < earlier.len() && #[trigger] earlier[i] is Err;
                        assert(slot_replies[i] is Err);
                    }
                }
            },
            Err(_) => {
                failed = true;
                scanned.push(snapshot.dummy_slot());
                assert(slot_replies[ordinal as int] is Err);
            },
        }
        proof {
            assert forall|i: int| 0 <= i < ordinal + 1 implies D::may_read(
                snapshots[i],
                i as usize,
                snapshots[i + 1],
                #[trigger] slot_replies[i],
            ) by {
                if i < ordinal {
                    assert(slot_replies[i] == earlier[i]);
                }
            }
            assert forall|i: int| 0 <= i < ordinal + 1 implies match #[trigger] slot_replies[i] {
                Ok(slot) => scanned@[i] == slot,
                Err(_) => D::is_dummy(scanned@[i]),
            } by {
                if i < ordinal {
                    assert(slot_replies[i] == earlier[i]);
                }
            }
        }
        ordinal = ordinal + 1;
    }
    match trace.complete_recent_snapshot_scan(slots) {
        Ok(()) => {},
        Err(error) => {
            return Err(error);
        },
    }
    Ok((scanned, failed, Ghost(snapshots), Ghost(slot_replies)))
}

/// The epoch that is active, or that there is none.
pub open spec fn activated<S, C, D>(epoch: Option<PrivateQueryRuntimeEpoch<S, C, D>>) -> Result<
    PrivateQueryRuntimeEpoch<S, C, D>,
    UniformExternalFailure,
> {
    match epoch {
        Some(epoch) => Ok(epoch),
        None => Err(UniformExternalFailure),
    }
}

/// The runtime of a result, if there is one.
pub open spec fn started_part<Runtime, Failure>(result: Result<Runtime, Failure>) -> Option<
    Runtime,
> {
    match result {
        Ok(runtime) => Some(runtime),
        Err(_) => None,
    }
}

/// How one request is answered: a round is executed, and what it encoded is
/// released only if its serving epoch and its security epoch are still current.
pub open spec fn handled<
    Q: PrivateQueryCodec<E, RESPONSE_SLOTS, ENVELOPE_BYTES>,
    E,
    T: ContinuationTokenProtector,
    R: ContinuationReplayGuard,
    N: RoundMaterialSource,
    S: PrivateQueryEngine<D::Slot>,
    C: ServingEpochCurrentness,
    D: FrozenRecentSnapshot,
    const RESPONSE_SLOTS: usize,
    const ENVELOPE_BYTES: usize,
>(
    shape: CompiledQueryShape<RESPONSE_SLOTS, ENVELOPE_BYTES>,
    codec: Q,
    security: ActiveSecurityLease<E, T, R, N>,
    epoch: PrivateQueryRuntimeEpoch<S, C, D>,
    envelope: [u8; ENVELOPE_BYTES],
    healthy: bool,
    transcript: RoundTranscript<E, T, R, N, S, D, ENVELOPE_BYTES>,
    healthy_encoded: bool,
    encoded: Result<EncodedRuntimeRound<ENVELOPE_BYTES>, UniformExternalFailure>,
    check: ServingEpochTranscript<C>,
    currentness_after: C,
    observed: Result<(), ServingEpochUnavailable>,
    security_after: ActiveSecurityLease<E, T, R, N>,
    healthy_after: bool,
    result: Result<RuntimeRound<ENVELOPE_BYTES>, UniformExternalFailure>,
) -> bool {
    &&& transcript.ends(shape, codec, security, epoch, envelope, healthy, healthy_encoded, encoded)
    &&& transcript.leaves_lease(shape.profile, security, security_after)
    &&& security_after == (ActiveSecurityLease {
        envelope_protector: security_after.envelope_protector,
        token_protector: security_after.token_protector,
        replay_guard: security_after.replay_guard,
        material_source: security_after.material_source,
        currentness: InProcessSecurityEpochCurrentness {
            observations: if encoded is Ok && observed is Ok && security.currentness.available
                && security.currentness.observations < usize::MAX {
                (security.currentness.observations + 1) as usize
            } else {
                security.currentness.observations
            },
            ..security.currentness
        },
        ..security
    })
    &&& match encoded {
        Err(_) => result is Err && healthy_after == healthy_encoded && currentness_after
            == epoch.serving_epoch.currentness,
        Ok(round) => {
            &&& crate::providers::serving_check(
                epoch.serving_epoch.pinned,
                epoch.serving_epoch.currentness,
                check,
                currentness_after,
                observed,
            )
            &&& if observed is Ok && security.currentness.is_current(security.security_epoch_tag)
                && round.claim().is_authorized(security.security_epoch_tag) {
                result == Ok::<RuntimeRound<ENVELOPE_BYTES>, UniformExternalFailure>(
                    RuntimeRound { envelope: round.envelope, trace: round.trace },
                ) && healthy_after == healthy_encoded
            } else {
                result is Err && !healthy_after
            }
        },
    }
}

impl<
    S,
    Q: PrivateQueryCodec<E, RESPONSE_SLOTS, ENVELOPE_BYTES>,
    E,
    T,
    R,
    N,
    C,
    D,
    const RESPONSE_SLOTS: usize,
    const ENVELOPE_BYTES: usize,
> PrivateQueryRuntime<S, Q, E, T, R, N, C, D, RESPONSE_SLOTS, ENVELOPE_BYTES> {
    /// The lease is of the profile, and every position of a scan has a number.
    pub open spec fn is_bound(
        shape: CompiledQueryShape<RESPONSE_SLOTS, ENVELOPE_BYTES>,
        security: ActiveSecurityLease<E, T, R, N>,
    ) -> bool {
        &&& shape.profile.store_reads + shape.profile.recent_snapshot_slots <= usize::MAX
        &&& security.profile_id == shape.profile.profile_id
    }

    /// How a lease is bound to a shape: the codec is opened for that shape and the
    /// lease's session, unless the lease and the shape do not fit.
    pub open spec fn opens(
        shape: CompiledQueryShape<RESPONSE_SLOTS, ENVELOPE_BYTES>,
        recent_snapshot_slots: usize,
        security: ActiveSecurityLease<E, T, R, N>,
        opened: Result<Q, InnerCodecError>,
        result: Result<Self, UniformExternalFailure>,
    ) -> bool {
        if recent_snapshot_slots == shape.profile.recent_snapshot_slots && Self::is_bound(
            shape,
            security,
        ) {
            &&& Q::may_open(shape, security.session_binding, opened)
            &&& result == match opened {
                Ok(codec) => Ok::<Self, UniformExternalFailure>(
                    PrivateQueryRuntime { shape, codec, security, epoch: None, healthy: true },
                ),
                Err(_) => Err(UniformExternalFailure),
            }
        } else {
            result == Err::<Self, UniformExternalFailure>(UniformExternalFailure)
        }
    }

    /// Binds a lease to a shape, without an epoch to serve.
    ///
    /// Refused are a recent snapshot of another width than the profile's, a scan
    /// too long to number, and a lease of another profile. The codec is opened for
    /// the shape and the lease's session; where it cannot be, there is no runtime.
    pub fn without_epoch(
        shape: CompiledQueryShape<RESPONSE_SLOTS, ENVELOPE_BYTES>,
        recent_snapshot_slots: usize,
        security: ActiveSecurityLease<E, T, R, N>,
    ) -> (result: Result<Self, UniformExternalFailure>)
        ensures
            exists|opened: Result<Q, InnerCodecError>| #[trigger]
                Self::opens(shape, recent_snapshot_slots, security, opened, result),
    {
        let ghost unasked: Result<Q, InnerCodecError> = arbitrary();
        match shape.profile().validate_recent_snapshot_slots(recent_snapshot_slots) {
            Ok(()) => {},
            Err(_) => {
                assert(Self::opens(
                    shape,
                    recent_snapshot_slots,
                    security,
                    unasked,
                    Err(UniformExternalFailure),
                ));
                return Err(UniformExternalFailure);
            },
        }
        match shape.profile().combined_scan_slots() {
            Ok(_) => {},
            Err(_) => {
                assert(Self::opens(
                    shape,
                    recent_snapshot_slots,
                    security,
                    unasked,
                    Err(UniformExternalFailure),
                ));
                return Err(UniformExternalFailure);
            },
        }
        if !arrays_equal(security.profile_id(), shape.profile().profile_id()) {
            assert(Self::opens(
                shape,
                recent_snapshot_slots,
                security,
                unasked,
                Err(UniformExternalFailure),
            ));
            return Err(UniformExternalFailure);
        }
        let reply = Q::open(&shape, security.session_binding());
        let ghost opened = reply;
        match reply {
            Ok(codec) => {
                let runtime = PrivateQueryRuntime {
                    shape,
                    codec,
                    security,
                    epoch: None,
                    healthy: true,
                };
                assert(Self::opens(shape, recent_snapshot_slots, security, opened, Ok(runtime)));
                Ok(runtime)
            },
            Err(error) => {
                let failure = error.into_uniform_external_failure();
                assert(Self::opens(shape, recent_snapshot_slots, security, opened, Err(failure)));
                Err(failure)
            },
        }
    }

    /// Lets the serving epoch go; requests are refused until another is activated.
    pub fn retire_epoch(&mut self)
        ensures
            *final(self) == (PrivateQueryRuntime { epoch: None, ..*old(self) }),
    {
        self.epoch = None;
    }

    /// Retires the security epoch: nothing made under it can be released any more.
    pub fn retire_security_epoch(&mut self)
        ensures
            final(self).security.currentness.active is None,
            !final(self).security.currentness.available,
            final(self).security.currentness.observations == old(
                self,
            ).security.currentness.observations,
            *final(self) == (PrivateQueryRuntime {
                security: ActiveSecurityLease {
                    currentness: final(self).security.currentness,
                    ..old(self).security
                },
                ..*old(self)
            }),
    {
        self.security.retire();
    }

    fn latch_failure(&mut self) -> (failure: UniformExternalFailure)
        ensures
            *final(self) == (PrivateQueryRuntime { healthy: false, ..*old(self) }),
    {
        self.healthy = false;
        UniformExternalFailure
    }
}

impl<
    S: PrivateQueryEngine<D::Slot>,
    Q: PrivateQueryCodec<E, RESPONSE_SLOTS, ENVELOPE_BYTES>,
    E,
    T,
    R,
    N,
    C,
    D: FrozenRecentSnapshot,
    const RESPONSE_SLOTS: usize,
    const ENVELOPE_BYTES: usize,
> PrivateQueryRuntime<S, Q, E, T, R, N, C, D, RESPONSE_SLOTS, ENVELOPE_BYTES> {
    /// How a lease that fits a shape gets a runtime with a first epoch: the codec is opened
    /// for the shape and the lease's session, and the epoch is built from the serving
    /// epoch's lease.
    pub open spec fn starts(
        serving_epoch: ServingEpochLease<S::Store, C, D>,
        shape: CompiledQueryShape<RESPONSE_SLOTS, ENVELOPE_BYTES>,
        checkpoint: PrivateQueryCheckpoint,
        security: ActiveSecurityLease<E, T, R, N>,
        opened: Result<Q, InnerCodecError>,
        replies: EpochReplies<S>,
        built: Result<PrivateQueryRuntimeEpoch<S, C, D>, UniformExternalFailure>,
        started: Option<Self>,
    ) -> bool {
        &&& Q::may_open(shape, security.session_binding, opened)
        &&& match opened {
            Err(_) => started is None,
            Ok(codec) => {
                &&& epoch_is_built(
                    serving_epoch,
                    shape.profile,
                    checkpoint,
                    replies,
                    built,
                )
                &&& started == match built {
                    Ok(epoch) => Some(
                        PrivateQueryRuntime {
                            shape,
                            codec,
                            security,
                            epoch: Some(epoch),
                            healthy: true,
                        },
                    ),
                    Err(_) => None,
                }
            },
        }
    }

    /// Binds a lease to a shape and activates its first epoch.
    pub fn new(
        serving_epoch: ServingEpochLease<S::Store, C, D>,
        shape: CompiledQueryShape<RESPONSE_SLOTS, ENVELOPE_BYTES>,
        recent_snapshot_slots: usize,
        checkpoint: PrivateQueryCheckpoint,
        security: ActiveSecurityLease<E, T, R, N>,
    ) -> (result: Result<Self, UniformExternalFailure>)
        ensures
            ({
                let accepted = recent_snapshot_slots == shape.profile.recent_snapshot_slots
                    && Self::is_bound(shape, security) && checkpoint.key_epoch
                    == security.key_epoch;
                &&& !accepted ==> result is Err
                &&& accepted ==> exists|
                    opened: Result<Q, InnerCodecError>,
                    replies: EpochReplies<S>,
                    built: Result<PrivateQueryRuntimeEpoch<S, C, D>, UniformExternalFailure>,
                | #[trigger]
                    Self::starts(
                        serving_epoch,
                        shape,
                        checkpoint,
                        security,
                        opened,
                        replies,
                        built,
                        started_part(result),
                    )
            }),
    {
        let bound = Self::without_epoch(shape, recent_snapshot_slots, security);
        let ghost opened = choose|opened: Result<Q, InnerCodecError>| #[trigger]
            Self::opens(shape, recent_snapshot_slots, security, opened, bound);
        let mut runtime = match bound {
            Ok(runtime) => runtime,
            Err(failure) => {
                assert(Self::is_bound(shape, security) && recent_snapshot_slots
                    == shape.profile.recent_snapshot_slots ==> Self::starts(
                    serving_epoch,
                    shape,
                    checkpoint,
                    security,
                    opened,
                    arbitrary(),
                    arbitrary(),
                    None,
                ));
                return Err(failure);
            },
        };
        match runtime.activate_epoch(serving_epoch, checkpoint) {
            Ok(()) => {
                proof {
                    let replies = choose|
                        replies: EpochReplies<S>,
                    | #[trigger]
                        epoch_is_built(
                            serving_epoch,
                            shape.profile,
                            checkpoint,
                            replies,
                            activated(runtime.epoch),
                        );
                    assert(Self::starts(
                        serving_epoch,
                        shape,
                        checkpoint,
                        security,
                        opened,
                        replies,
                        activated(runtime.epoch),
                        Some(runtime),
                    ));
                }
                Ok(runtime)
            },
            Err(failure) => {
                proof {
                    if checkpoint.key_epoch == security.key_epoch {
                        let replies = choose|
                            replies: EpochReplies<S>,
                        | #[trigger]
                            epoch_is_built(
                                serving_epoch,
                                shape.profile,
                                checkpoint,
                                replies,
                                activated(runtime.epoch),
                            );
                        assert(Self::starts(
                            serving_epoch,
                            shape,
                            checkpoint,
                            security,
                            opened,
                            replies,
                            activated(runtime.epoch),
                            None,
                        ));
                    }
                }
                Err(failure)
            },
        }
    }

    /// Replaces the serving epoch, by nothing if the new one cannot be served.
    ///
    /// An unhealthy runtime takes no epoch, nor does one of another key epoch.
    pub fn activate_epoch(
        &mut self,
        serving_epoch: ServingEpochLease<S::Store, C, D>,
        checkpoint: PrivateQueryCheckpoint,
    ) -> (result: Result<(), UniformExternalFailure>)
        ensures
            result is Ok <==> final(self).epoch is Some,
            *final(self) == (PrivateQueryRuntime { epoch: final(self).epoch, ..*old(self) }),
            !old(self).healthy || checkpoint.key_epoch != old(self).security.key_epoch
                ==> final(self).epoch is None,
            old(self).healthy && checkpoint.key_epoch == old(self).security.key_epoch ==> exists|
                replies: EpochReplies<S>,
            | #[trigger]
                epoch_is_built(
                    serving_epoch,
                    old(self).shape.profile,
                    checkpoint,
                    replies,
                    activated(final(self).epoch),
                ),
    {
        self.epoch = None;
        if !self.healthy || checkpoint.key_epoch != self.security.key_epoch() {
            return Err(UniformExternalFailure);
        }
        match PrivateQueryRuntimeEpoch::new(
            serving_epoch,
            &self.shape,
            checkpoint,
        ) {
            Ok(epoch) => {
                self.epoch = Some(epoch);
                Ok(())
            },
            Err(failure) => Err(failure),
        }
    }

    /// Replaces the serving epoch by one whose checkpoint is derived from its identity.
    pub fn activate_finalized_serving_epoch(
        &mut self,
        serving_epoch: ServingEpochLease<S::Store, C, D>,
    ) -> (result: Result<(), FinalizedRuntimeBuildError>)
        ensures
            result is Ok <==> final(self).epoch is Some,
            *final(self) == (PrivateQueryRuntime { epoch: final(self).epoch, ..*old(self) }),
            !old(self).healthy || serving_epoch.pinned().pinned.identity.network_tag > 2
                || serving_epoch.pinned().pinned.identity.key_epoch != old(self).security.key_epoch
                ==> final(self).epoch is None,
            old(self).healthy && serving_epoch.pinned().pinned.identity.network_tag <= 2
                && serving_epoch.pinned().pinned.identity.key_epoch == old(self).security.key_epoch
                ==> exists|
                checkpoint: PrivateQueryCheckpoint,
                replies: EpochReplies<S>,
            | #[trigger]
                epoch_is_built(
                    serving_epoch,
                    old(self).shape.profile,
                    checkpoint,
                    replies,
                    activated(final(self).epoch),
                ) && crate::records::identity_of(checkpoint) == serving_epoch.pinned().pinned.identity,
    {
        self.retire_epoch();
        if !self.healthy {
            return Err(FinalizedRuntimeBuildError);
        }
        let identity = serving_epoch.identity();
        let checkpoint = match PrivateQueryCheckpoint::try_from_serving_identity(&identity) {
            Ok(checkpoint) => checkpoint,
            Err(error) => {
                return Err(error);
            },
        };
        match self.activate_epoch(serving_epoch, checkpoint) {
            Ok(()) => Ok(()),
            Err(_) => Err(FinalizedRuntimeBuildError),
        }
    }

    /// Binds a lease to a shape and activates one finalized serving epoch.
    ///
    /// The checkpoint is derived from the epoch's identity, and the store and the snapshot
    /// are the lease's own, so none can be paired with an epoch it is not of.
    pub fn from_finalized_serving_epoch(
        serving_epoch: ServingEpochLease<S::Store, C, D>,
        shape: CompiledQueryShape<RESPONSE_SLOTS, ENVELOPE_BYTES>,
        recent_snapshot_slots: usize,
        security: ActiveSecurityLease<E, T, R, N>,
    ) -> (result: Result<Self, FinalizedRuntimeBuildError>)
        ensures
            ({
                let identity = serving_epoch.pinned().pinned.identity;
                let accepted = recent_snapshot_slots == shape.profile.recent_snapshot_slots
                    && Self::is_bound(shape, security) && identity.network_tag <= 2
                    && identity.key_epoch == security.key_epoch;
                &&& !accepted ==> result is Err
                &&& accepted ==> exists|
                    checkpoint: PrivateQueryCheckpoint,
                    opened: Result<Q, InnerCodecError>,
                    replies: EpochReplies<S>,
                    built: Result<PrivateQueryRuntimeEpoch<S, C, D>, UniformExternalFailure>,
                | #[trigger]
                    Self::starts(
                        serving_epoch,
                        shape,
                        checkpoint,
                        security,
                        opened,
                        replies,
                        built,
                        started_part(result),
                    ) && crate::records::identity_of(checkpoint) == identity
            }),
    {
        let ghost identity = serving_epoch.pinned().pinned.identity;
        let bound = Self::without_epoch(shape, recent_snapshot_slots, security);
        let ghost opened = choose|opened: Result<Q, InnerCodecError>| #[trigger]
            Self::opens(shape, recent_snapshot_slots, security, opened, bound);
        let mut runtime = match bound {
            Ok(runtime) => runtime,
            Err(_) => {
                proof {
                    if Self::is_bound(shape, security) && recent_snapshot_slots
                        == shape.profile.recent_snapshot_slots && identity.network_tag <= 2 {
                        let checkpoint = crate::records::checkpoint_of(identity);
                        assert(Self::starts(
                            serving_epoch,
                            shape,
                            checkpoint,
                            security,
                            opened,
                            arbitrary(),
                            arbitrary(),
                            None,
                        ));
                    }
                }
                return Err(FinalizedRuntimeBuildError);
            },
        };
        let activation = runtime.activate_finalized_serving_epoch(serving_epoch);
        proof {
            if identity.network_tag <= 2 && identity.key_epoch == security.key_epoch {
                let (checkpoint, replies) = choose|
                    checkpoint: PrivateQueryCheckpoint,
                    replies: EpochReplies<S>,
                | #[trigger]
                    epoch_is_built(
                        serving_epoch,
                        shape.profile,
                        checkpoint,
                        replies,
                        activated(runtime.epoch),
                    ) && crate::records::identity_of(checkpoint) == identity;
                assert(Self::starts(
                    serving_epoch,
                    shape,
                    checkpoint,
                    security,
                    opened,
                    replies,
                    activated(runtime.epoch),
                    if activation is Ok {
                        Some(runtime)
                    } else {
                        None
                    },
                ));
            }
        }
        match activation {
            Ok(()) => Ok(runtime),
            Err(error) => Err(error),
        }
    }
}

impl<
    S: PrivateQueryEngine<D::Slot>,
    Q: PrivateQueryCodec<E, RESPONSE_SLOTS, ENVELOPE_BYTES>,
    E,
    T: ContinuationTokenProtector,
    R: ContinuationReplayGuard,
    N: RoundMaterialSource,
    C,
    D: FrozenRecentSnapshot,
    const RESPONSE_SLOTS: usize,
    const ENVELOPE_BYTES: usize,
> PrivateQueryRuntime<S, Q, E, T, R, N, C, D, RESPONSE_SLOTS, ENVELOPE_BYTES> {
    /// What every method keeps.
    pub open spec fn wf(self) -> bool {
        &&& self.shape.wf()
        &&& Self::is_bound(self.shape, self.security)
        &&& Q::may_open(self.shape, self.security.session_binding, Ok(self.codec))
        &&& self.security.replay_guard.guard_wf()
    }

    /// A round changes nothing of a lease but its providers.
    pub open spec fn keeps_lease(
        before: ActiveSecurityLease<E, T, R, N>,
        after: ActiveSecurityLease<E, T, R, N>,
    ) -> bool {
        after == (ActiveSecurityLease {
            envelope_protector: after.envelope_protector,
            token_protector: after.token_protector,
            replay_guard: after.replay_guard,
            material_source: after.material_source,
            ..before
        })
    }

    /// A round changes nothing of an epoch but its store and its snapshot.
    pub open spec fn keeps_epoch(
        before: PrivateQueryRuntimeEpoch<S, C, D>,
        after: PrivateQueryRuntimeEpoch<S, C, D>,
    ) -> bool {
        after == (PrivateQueryRuntimeEpoch {
            engine: after.engine,
            recent_snapshot: after.recent_snapshot,
            ..before
        })
    }

    /// A handled request changes nothing of an epoch but its store, its snapshot and
    /// what observes whether it is current.
    pub open spec fn keeps_pinned_epoch(
        before: PrivateQueryRuntimeEpoch<S, C, D>,
        after: PrivateQueryRuntimeEpoch<S, C, D>,
    ) -> bool {
        after == (PrivateQueryRuntimeEpoch {
            engine: after.engine,
            recent_snapshot: after.recent_snapshot,
            serving_epoch: PinnedServingEpoch {
                currentness: after.serving_epoch.currentness,
                ..before.serving_epoch
            },
            ..before
        })
    }

    /// Runs one round up to its encoded response.
    ///
    /// Whatever the request is and whatever it finds, every step of the schedule
    /// is taken, in order, once the request is decoded and the round's material
    /// is there.
    pub fn execute_epoch(
        &mut self,
        epoch: &mut PrivateQueryRuntimeEpoch<S, C, D>,
        envelope: &[u8; ENVELOPE_BYTES],
    ) -> (result: Result<EncodedRuntimeRound<ENVELOPE_BYTES>, UniformExternalFailure>)
        requires
            old(self).wf(),
        ensures
            final(self).wf(),
            final(self).shape == old(self).shape,
            final(self).codec == old(self).codec,
            final(self).epoch == old(self).epoch,
            Self::keeps_lease(old(self).security, final(self).security),
            Self::keeps_epoch(*old(epoch), *final(epoch)),
            exists|transcript: RoundTranscript<E, T, R, N, S, D, ENVELOPE_BYTES>| #[trigger]
                transcript.ends(
                    old(self).shape,
                    old(self).codec,
                    old(self).security,
                    *old(epoch),
                    *envelope,
                    old(self).healthy,
                    final(self).healthy,
                    result,
                ) && transcript.leaves_lease(
                    old(self).shape.profile,
                    old(self).security,
                    final(self).security,
                ) && transcript.leaves_epoch(
                    old(self).shape.profile,
                    *old(epoch),
                    *final(epoch),
                ),
    {
        let ghost mut t: RoundTranscript<E, T, R, N, S, D, ENVELOPE_BYTES> = arbitrary();
        let decoded = self.codec.decode_request_with_nonce(
            envelope,
            &mut self.security.envelope_protector,
        );
        proof {
            t = RoundTranscript { decoder: self.security.envelope_protector, decoded, ..t };
        }
        let request = match decoded {
            Ok(request) => request,
            Err(InnerCodecError::ProtectionUnavailable) => {
                let failure = self.latch_failure();
                assert(t.ends(
                    old(self).shape,
                    old(self).codec,
                    old(self).security,
                    *old(epoch),
                    *envelope,
                    old(self).healthy,
                    self.healthy,
                    Err(failure),
                ));
                return Err(failure);
            },
            Err(error) => {
                let failure = error.into_uniform_external_failure();
                assert(t.ends(
                    old(self).shape,
                    old(self).codec,
                    old(self).security,
                    *old(epoch),
                    *envelope,
                    old(self).healthy,
                    self.healthy,
                    Err(failure),
                ));
                return Err(failure);
            },
        };
        let profile = *self.shape.profile();
        let mut trace = TraceRecorder::new();
        match trace.record_request_frame(ENVELOPE_BYTES) {
            Ok(()) => {},
            Err(_) => {
                return Err(self.latch_failure());
            },
        }
        match trace.record_runtime_phase(RuntimePhase::RequestDecode) {
            Ok(()) => {},
            Err(_) => {
                return Err(self.latch_failure());
            },
        }

        let drawn = self.security.next_round_material();
        proof {
            t = RoundTranscript { source: self.security.material_source, material: drawn, ..t };
        }
        let material = match drawn {
            Ok(material) => material,
            Err(_) => {
                let failure = self.latch_failure();
                assert(t.ends(
                    old(self).shape,
                    old(self).codec,
                    old(self).security,
                    *old(epoch),
                    *envelope,
                    old(self).healthy,
                    self.healthy,
                    Err(failure),
                ));
                return Err(failure);
            },
        };
        match trace.record_runtime_phase(RuntimePhase::NonceAcquisition) {
            Ok(()) => {},
            Err(_) => {
                return Err(self.latch_failure());
            },
        }

        let query_digest = self.codec.bound_query_digest(
            &request.query,
            epoch.recent_snapshot_binding_digest,
        );
        proof {
            t = RoundTranscript { query_digest, ..t };
        }
        let plan = match plan_round(&profile, material.now_unix_seconds()) {
            Some(plan) => plan,
            None => {
                let failure = self.latch_failure();
                assert(t.ends(
                    old(self).shape,
                    old(self).codec,
                    old(self).security,
                    *old(epoch),
                    *envelope,
                    old(self).healthy,
                    self.healthy,
                    Err(failure),
                ));
                return Err(failure);
            },
        };
        let context_reply = self.codec.continuation_protection_context(&epoch.checkpoint);
        proof {
            t = RoundTranscript { context: context_reply, ..t };
        }
        let token_context = match context_reply {
            Ok(context) => context,
            Err(error) => {
                self.healthy = false;
                let failure = error.into_uniform_external_failure();
                assert(t.ends(
                    old(self).shape,
                    old(self).codec,
                    old(self).security,
                    *old(epoch),
                    *envelope,
                    old(self).healthy,
                    self.healthy,
                    Err(failure),
                ));
                return Err(failure);
            },
        };
        let expectation = continuation_expectation(
            &profile,
            query_digest,
            &epoch.checkpoint,
            material.now_unix_seconds(),
            plan.cursor_limit,
        );
        let inspection = self.security.token_protector.inspect_optional(
            &request.continuation,
            &token_context,
            &expectation,
            &self.security.replay_namespace,
            request.nonce,
        );
        proof {
            t = RoundTranscript { inspector: self.security.token_protector, inspection, ..t };
        }
        match trace.record_runtime_phase(RuntimePhase::TokenOpen) {
            Ok(()) => {},
            Err(_) => {
                return Err(self.latch_failure());
            },
        }

        let ghost guard_before = self.security.replay_guard;
        let outcome = self.security.finish_replay(inspection, material.security_round());
        proof {
            let commit = choose|reply: Result<ReplayCommitResult, ReplayCommitUnavailable>|
                R::may_commit(
                    guard_before,
                    material.security_round,
                    inspection.request_key,
                    inspection.plan,
                    self.security.replay_guard,
                    reply,
                ) && outcome == crate::continuation::replay_outcome(
                    inspection.continuation_use,
                    reply,
                );
            t = RoundTranscript { guard: self.security.replay_guard, commit, ..t };
        }
        let (continuation_use, replay_commit_authority) = outcome.into_parts();
        match trace.record_replay_access() {
            Ok(()) => {},
            Err(_) => {
                return Err(self.latch_failure());
            },
        }
        match trace.record_runtime_phase(RuntimePhase::ReplayGuard) {
            Ok(()) => {},
            Err(_) => {
                return Err(self.latch_failure());
            },
        }

        let was_healthy = self.healthy;
        let checkpoint_matches = request.checkpoint.same(&epoch.checkpoint);
        let replay_unavailable = replay_commit_authority.is_none();
        let readiness = match select_readiness(continuation_use, plan.initial_expiry) {
            Some(readiness) => readiness,
            None => {
                let failure = self.latch_failure();
                assert(t.ends(
                    old(self).shape,
                    old(self).codec,
                    old(self).security,
                    *old(epoch),
                    *envelope,
                    old(self).healthy,
                    self.healthy,
                    Err(failure),
                ));
                return Err(failure);
            },
        };
        if replay_unavailable || readiness.token_protection_unavailable {
            self.healthy = false;
        }
        match trace.record_runtime_phase(RuntimePhase::ReadinessSelect) {
            Ok(()) => {},
            Err(_) => {
                return Err(self.latch_failure());
            },
        }
        match trace.record_runtime_phase(RuntimePhase::EngineExecution) {
            Ok(()) => {},
            Err(_) => {
                return Err(self.latch_failure());
            },
        }

        let (scanned, slot_unreadable, snapshots, slot_replies) = match scan_recent_snapshot(
            &mut epoch.recent_snapshot,
            profile.recent_snapshot_slots,
            &mut trace,
        ) {
            Ok(scan) => scan,
            Err(_) => {
                return Err(self.latch_failure());
            },
        };
        let scan = epoch.recent_snapshot.describe(&scanned);
        proof {
            t =
            RoundTranscript {
                snapshots: snapshots@,
                slot_replies: slot_replies@,
                scanned: scanned@,
                scan,
                ..t
            };
        }
        let recent_snapshot_failed = slot_unreadable || !snapshot_is_unchanged(
            &scan,
            profile.recent_snapshot_slots,
            &epoch.checkpoint,
            &epoch.recent_snapshot_content_digest,
            &epoch.recent_snapshot_binding_digest,
        );

        let executed = epoch.engine.execute_from(&request.query, readiness.cursor, &scanned);
        proof {
            t = RoundTranscript { engine: epoch.engine, execution: executed, ..t };
        }
        let execution = match executed {
            Ok(execution) => execution,
            Err(_) => {
                let failure = self.latch_failure();
                assert(t.ends(
                    old(self).shape,
                    old(self).codec,
                    old(self).security,
                    *old(epoch),
                    *envelope,
                    old(self).healthy,
                    self.healthy,
                    Err(failure),
                ));
                return Err(failure);
            },
        };
        match trace.record_store_reads(execution.store_reads) {
            Ok(()) => {},
            Err(_) => {
                return Err(self.latch_failure());
            },
        }
        match trace.record_runtime_phase(RuntimePhase::ResultNormalization) {
            Ok(()) => {},
            Err(_) => {
                return Err(self.latch_failure());
            },
        }

        let facts = RoundFacts {
            was_healthy,
            checkpoint_matches,
            replay_unavailable,
            invalid_continuation: readiness.invalid_continuation,
            request_duplicate: readiness.request_duplicate,
            token_protection_unavailable: readiness.token_protection_unavailable,
            recent_snapshot_failed,
            engine_outcome: execution.page.outcome(),
        };
        assert(facts == t.facts(profile, *old(epoch), was_healthy, request, readiness, execution));
        if degrades(&facts) {
            self.healthy = false;
        }
        let outcome = protected_outcome(&facts);

        let state = issue_state(
            &profile,
            query_digest,
            &epoch.checkpoint,
            execution.next_cursor,
            readiness.continuation_expiry,
            material.token_nonce(),
        );
        let issued = self.security.token_protector.issue(&state, &token_context);
        let mut token_protection_unavailable = readiness.token_protection_unavailable;
        let token = match &issued {
            Ok(token) => *token,
            Err(_) => {
                self.healthy = false;
                token_protection_unavailable = true;
                ContinuationToken::from_opaque_bytes([0u8; CONTINUATION_TOKEN_BYTES])
            },
        };
        proof {
            t = RoundTranscript { issuer: self.security.token_protector, issued, token, ..t };
        }
        match trace.record_runtime_phase(RuntimePhase::TokenIssue) {
            Ok(()) => {},
            Err(_) => {
                return Err(self.latch_failure());
            },
        }

        let response = match compose_response(
            epoch.checkpoint,
            execution.page,
            outcome,
            RESPONSE_SLOTS,
            token,
        ) {
            Ok(response) => response,
            Err(_) => {
                return Err(self.latch_failure());
            },
        };
        let encoded = self.codec.encode_response(
            &response,
            material.response_nonce(),
            &mut self.security.envelope_protector,
        );
        proof {
            t =
            RoundTranscript { response, encoder: self.security.envelope_protector, encoded, ..t };
        }
        let encoded_envelope = match encoded {
            Ok(encoded_envelope) => encoded_envelope,
            Err(error) => {
                self.healthy = false;
                let failure = error.into_uniform_external_failure();
                assert(t.ends(
                    old(self).shape,
                    old(self).codec,
                    old(self).security,
                    *old(epoch),
                    *envelope,
                    old(self).healthy,
                    self.healthy,
                    Err(failure),
                ));
                return Err(failure);
            },
        };
        match trace.record_runtime_phase(RuntimePhase::ResponseEncode) {
            Ok(()) => {},
            Err(_) => {
                return Err(self.latch_failure());
            },
        }
        match trace.record_response_frame(ENVELOPE_BYTES) {
            Ok(()) => {},
            Err(_) => {
                return Err(self.latch_failure());
            },
        }
        match trace.record_runtime_phase(RuntimePhase::Completion) {
            Ok(()) => {},
            Err(_) => {
                return Err(self.latch_failure());
            },
        }
        match trace.record_completion(CompletionShape::UnaryFixedEnvelope) {
            Ok(()) => {},
            Err(_) => {
                return Err(self.latch_failure());
            },
        }

        let trace = match trace.finish(profile.access_budget()) {
            Ok(trace) => trace,
            Err(_) => {
                let failure = self.latch_failure();
                assert(t.ends(
                    old(self).shape,
                    old(self).codec,
                    old(self).security,
                    *old(epoch),
                    *envelope,
                    old(self).healthy,
                    self.healthy,
                    Err(failure),
                ));
                return Err(failure);
            },
        };
        if token_protection_unavailable || replay_unavailable {
            let failure = self.latch_failure();
            assert(t.ends(
                old(self).shape,
                old(self).codec,
                old(self).security,
                *old(epoch),
                *envelope,
                old(self).healthy,
                self.healthy,
                Err(failure),
            ));
            return Err(failure);
        }
        let replay_commit_authority = match replay_commit_authority {
            Some(authority) => authority,
            None => {
                return Err(self.latch_failure());
            },
        };
        let (now_unix_seconds, response_nonce, token_nonce, security_round, reservation_authority) =
            material.into_parts();
        let round = EncodedRuntimeRound {
            envelope: encoded_envelope,
            trace,
            now_unix_seconds,
            response_nonce,
            token_nonce,
            security_round,
            reservation_authority,
            replay_commit_authority,
        };
        assert(t.ends(
            old(self).shape,
            old(self).codec,
            old(self).security,
            *old(epoch),
            *envelope,
            old(self).healthy,
            self.healthy,
            Ok(round),
        ));
        Ok(round)
    }
}

impl<
    S: PrivateQueryEngine<D::Slot>,
    Q: PrivateQueryCodec<E, RESPONSE_SLOTS, ENVELOPE_BYTES>,
    E,
    T: ContinuationTokenProtector,
    R: ContinuationReplayGuard,
    N: RoundMaterialSource,
    C: ServingEpochCurrentness,
    D: FrozenRecentSnapshot,
    const RESPONSE_SLOTS: usize,
    const ENVELOPE_BYTES: usize,
> PrivateQueryRuntime<S, Q, E, T, R, N, C, D, RESPONSE_SLOTS, ENVELOPE_BYTES> {
    /// Handles one fixed request without owning any listener or transport.
    ///
    /// An unhealthy runtime, or one without an epoch, refuses it untouched.
    pub fn handle(&mut self, envelope: &[u8; ENVELOPE_BYTES]) -> (result: Result<
        RuntimeRound<ENVELOPE_BYTES>,
        UniformExternalFailure,
    >)
        requires
            old(self).wf(),
        ensures
            final(self).wf(),
            !old(self).healthy || old(self).epoch is None ==> result is Err && *final(self) == *old(
                self,
            ),
            old(self).healthy && old(self).epoch is Some ==> final(self).epoch is Some
                && Self::keeps_pinned_epoch(
                old(self).epoch->Some_0,
                final(self).epoch->Some_0,
            ) && exists|
                transcript: RoundTranscript<E, T, R, N, S, D, ENVELOPE_BYTES>,
                healthy_encoded: bool,
                encoded: Result<EncodedRuntimeRound<ENVELOPE_BYTES>, UniformExternalFailure>,
                check: ServingEpochTranscript<C>,
                observed: Result<(), ServingEpochUnavailable>,
            | #[trigger]
                handled(
                    old(self).shape,
                    old(self).codec,
                    old(self).security,
                    old(self).epoch->Some_0,
                    *envelope,
                    old(self).healthy,
                    transcript,
                    healthy_encoded,
                    encoded,
                    check,
                    final(self).epoch->Some_0.serving_epoch.currentness,
                    observed,
                    final(self).security,
                    final(self).healthy,
                    result,
                ) && transcript.leaves_epoch(
                    old(self).shape.profile,
                    old(self).epoch->Some_0,
                    final(self).epoch->Some_0,
                ),
            final(self).shape == old(self).shape,
    {
        if !self.healthy {
            return Err(UniformExternalFailure);
        }
        let mut epoch = match self.epoch.take() {
            Some(epoch) => epoch,
            None => {
                return Err(UniformExternalFailure);
            },
        };
        let result = self.handle_epoch(&mut epoch, envelope);
        let ghost (transcript, healthy_encoded, encoded, check, observed) = choose|
            transcript: RoundTranscript<E, T, R, N, S, D, ENVELOPE_BYTES>,
            healthy_encoded: bool,
            encoded: Result<EncodedRuntimeRound<ENVELOPE_BYTES>, UniformExternalFailure>,
            check: ServingEpochTranscript<C>,
            observed: Result<(), ServingEpochUnavailable>,
        | #[trigger]
            handled(
                old(self).shape,
                old(self).codec,
                old(self).security,
                old(self).epoch->Some_0,
                *envelope,
                old(self).healthy,
                transcript,
                healthy_encoded,
                encoded,
                check,
                epoch.serving_epoch.currentness,
                observed,
                self.security,
                self.healthy,
                result,
            ) && transcript.leaves_epoch(
                old(self).shape.profile,
                old(self).epoch->Some_0,
                epoch,
            );
        self.epoch = Some(epoch);
        assert(handled(
            old(self).shape,
            old(self).codec,
            old(self).security,
            old(self).epoch->Some_0,
            *envelope,
            old(self).healthy,
            transcript,
            healthy_encoded,
            encoded,
            check,
            self.epoch->Some_0.serving_epoch.currentness,
            observed,
            self.security,
            self.healthy,
            result,
        ));
        result
    }

    /// Runs one round and releases it if both of its epochs are still current.
    fn handle_epoch(
        &mut self,
        epoch: &mut PrivateQueryRuntimeEpoch<S, C, D>,
        envelope: &[u8; ENVELOPE_BYTES],
    ) -> (result: Result<RuntimeRound<ENVELOPE_BYTES>, UniformExternalFailure>)
        requires
            old(self).wf(),
        ensures
            final(self).wf(),
            final(self).shape == old(self).shape,
            final(self).codec == old(self).codec,
            final(self).epoch == old(self).epoch,
            Self::keeps_pinned_epoch(*old(epoch), *final(epoch)),
            exists|
                transcript: RoundTranscript<E, T, R, N, S, D, ENVELOPE_BYTES>,
                healthy_encoded: bool,
                encoded: Result<EncodedRuntimeRound<ENVELOPE_BYTES>, UniformExternalFailure>,
                check: ServingEpochTranscript<C>,
                observed: Result<(), ServingEpochUnavailable>,
            | #[trigger]
                handled(
                    old(self).shape,
                    old(self).codec,
                    old(self).security,
                    *old(epoch),
                    *envelope,
                    old(self).healthy,
                    transcript,
                    healthy_encoded,
                    encoded,
                    check,
                    final(epoch).serving_epoch.currentness,
                    observed,
                    final(self).security,
                    final(self).healthy,
                    result,
                ) && transcript.leaves_epoch(
                    old(self).shape.profile,
                    *old(epoch),
                    *final(epoch),
                ),
    {
        let encoded = self.execute_epoch(epoch, envelope);
        let ghost healthy_encoded = self.healthy;
        let ghost transcript = choose|
            transcript: RoundTranscript<E, T, R, N, S, D, ENVELOPE_BYTES>,
        | #[trigger]
            transcript.ends(
                old(self).shape,
                old(self).codec,
                old(self).security,
                *old(epoch),
                *envelope,
                old(self).healthy,
                self.healthy,
                encoded,
            ) && transcript.leaves_lease(
                old(self).shape.profile,
                old(self).security,
                self.security,
            ) && transcript.leaves_epoch(old(self).shape.profile, *old(epoch), *epoch);
        let round = match encoded {
            Ok(round) => round,
            Err(failure) => {
                assert(handled(
                    old(self).shape,
                    old(self).codec,
                    old(self).security,
                    *old(epoch),
                    *envelope,
                    old(self).healthy,
                    transcript,
                    healthy_encoded,
                    encoded,
                    arbitrary(),
                    epoch.serving_epoch.currentness,
                    Ok(()),
                    self.security,
                    self.healthy,
                    Err(failure),
                ));
                return Err(failure);
            },
        };
        let ghost currentness_before = epoch.serving_epoch.currentness;
        let observed = epoch.serving_epoch.observe_and_match();
        let ghost check = choose|check: ServingEpochTranscript<C>| #[trigger]
            crate::providers::serving_check(
                epoch.serving_epoch.pinned,
                currentness_before,
                check,
                epoch.serving_epoch.currentness,
                observed,
            );
        if observed.is_err() {
            let failure = self.latch_failure();
            assert(handled(
                old(self).shape,
                old(self).codec,
                old(self).security,
                *old(epoch),
                *envelope,
                old(self).healthy,
                transcript,
                healthy_encoded,
                encoded,
                check,
                epoch.serving_epoch.currentness,
                observed,
                self.security,
                self.healthy,
                Err(failure),
            ));
            return Err(failure);
        }
        let witness = self.security.release_witness();
        let claim = round.release_claim();
        if witness.observe_and_match(&mut self.security.currentness, &claim).is_err() {
            let failure = self.latch_failure();
            assert(handled(
                old(self).shape,
                old(self).codec,
                old(self).security,
                *old(epoch),
                *envelope,
                old(self).healthy,
                transcript,
                healthy_encoded,
                encoded,
                check,
                epoch.serving_epoch.currentness,
                observed,
                self.security,
                self.healthy,
                Err(failure),
            ));
            return Err(failure);
        }
        let released = round.into_released();
        assert(handled(
            old(self).shape,
            old(self).codec,
            old(self).security,
            *old(epoch),
            *envelope,
            old(self).healthy,
            transcript,
            healthy_encoded,
            encoded,
            check,
            epoch.serving_epoch.currentness,
            observed,
            self.security,
            self.healthy,
            Ok(released),
        ));
        Ok(released)
    }

    /// Runs one round whose release is to be checked later.
    ///
    /// With the round come what its release is checked against: its serving
    /// epoch and the security epoch it was made under.
    pub fn handle_with_release_witness(&mut self, envelope: &[u8; ENVELOPE_BYTES]) -> (result:
        Result<
            (
                EncodedRuntimeRound<ENVELOPE_BYTES>,
                PinnedServingEpoch<C>,
                SecurityEpochReleaseWitness,
            ),
            UniformExternalFailure,
        >)
        requires
            old(self).wf(),
        ensures
            final(self).wf(),
            final(self).shape == old(self).shape,
            final(self).codec == old(self).codec,
            Self::keeps_lease(old(self).security, final(self).security),
            old(self).epoch is None ==> result is Err && *final(self) == *old(self),
            old(self).epoch is Some ==> final(self).epoch is Some && Self::keeps_epoch(
                old(self).epoch->Some_0,
                final(self).epoch->Some_0,
            ) && exists|transcript: RoundTranscript<E, T, R, N, S, D, ENVELOPE_BYTES>| #[trigger]
                transcript.ends(
                    old(self).shape,
                    old(self).codec,
                    old(self).security,
                    old(self).epoch->Some_0,
                    *envelope,
                    old(self).healthy,
                    final(self).healthy,
                    encoded_part(result),
                ) && transcript.leaves_lease(
                    old(self).shape.profile,
                    old(self).security,
                    final(self).security,
                ) && transcript.leaves_epoch(
                    old(self).shape.profile,
                    old(self).epoch->Some_0,
                    final(self).epoch->Some_0,
                ),
            result matches Ok((_, serving, security)) ==> serving.pinned == old(
                self,
            ).epoch->Some_0.serving_epoch.pinned && old(
                self,
            ).epoch->Some_0.serving_epoch.currentness.may_hand_out(serving.currentness)
                && security.expected == old(self).security.security_epoch_tag,
    {
        let mut epoch = match self.epoch.take() {
            Some(epoch) => epoch,
            None => {
                return Err(UniformExternalFailure);
            },
        };
        let security_release_witness = self.security.release_witness();
        let encoded = self.execute_epoch(&mut epoch, envelope);
        let ghost transcript = choose|
            transcript: RoundTranscript<E, T, R, N, S, D, ENVELOPE_BYTES>,
        | #[trigger]
            transcript.ends(
                old(self).shape,
                old(self).codec,
                old(self).security,
                old(self).epoch->Some_0,
                *envelope,
                old(self).healthy,
                self.healthy,
                encoded,
            ) && transcript.leaves_lease(
                old(self).shape.profile,
                old(self).security,
                self.security,
            ) && transcript.leaves_epoch(
                old(self).shape.profile,
                old(self).epoch->Some_0,
                epoch,
            );
        let result = match encoded {
            Ok(round) => Ok(
                (round, epoch.serving_epoch.release_witness(), security_release_witness),
            ),
            Err(failure) => Err(failure),
        };
        self.epoch = Some(epoch);
        assert(transcript.ends(
            old(self).shape,
            old(self).codec,
            old(self).security,
            old(self).epoch->Some_0,
            *envelope,
            old(self).healthy,
            self.healthy,
            encoded_part(result),
        ));
        result
    }
}

/// The encoded round of a result that carries more.
pub open spec fn encoded_part<C, const ENVELOPE_BYTES: usize>(
    result: Result<
        (EncodedRuntimeRound<ENVELOPE_BYTES>, PinnedServingEpoch<C>, SecurityEpochReleaseWitness),
        UniformExternalFailure,
    >,
) -> Result<EncodedRuntimeRound<ENVELOPE_BYTES>, UniformExternalFailure> {
    match result {
        Ok((round, _, _)) => Ok(round),
        Err(failure) => Err(failure),
    }
}

} // verus!
